//! Metadata descriptor of a WebP file, parsed from the probe tool's textual
//! output: per-frame durations and the canvas size.

use vstd::prelude::*;
use crate::text::{
    chars_of, check_digit_char, digit_prefix_len, digit_run_end, digits_val, is_digit_char,
    parse_digits_max, split_lines, split_lines_exec,
};

verus! {

/// Frame durations (milliseconds, empty for a static image) and canvas size
/// of one WebP file.
#[derive(Debug)]
pub struct WebpInfo {
    pub durations: Vec<i32>,
    pub size: (i32, i32),
}

/// Failure to read the probe tool's output.
#[derive(Debug, Clone, Copy, PartialEq, Eq, Structural)]
pub enum ParseError {
    /// No `Canvas size <w> x <h>` line was found.
    MissingCanvasSize,
    /// A duration or canvas dimension does not fit the descriptor's type.
    NumberOverflow,
}

/// The line prefix announcing one frame's duration.
pub open spec fn duration_prefix() -> Seq<char> {
    seq![' ', ' ', 'D', 'u', 'r', 'a', 't', 'i', 'o', 'n', ':', ' ']
}

/// The line prefix announcing the canvas size.
pub open spec fn canvas_prefix() -> Seq<char> {
    seq![' ', ' ', 'C', 'a', 'n', 'v', 'a', 's', ' ', 's', 'i', 'z', 'e', ' ']
}

/// A line carrying a frame duration: the duration prefix followed by at
/// least one decimal digit. Anything after the digit run (a carriage return
/// included) is ignored.
pub open spec fn is_duration_line(l: Seq<char>) -> bool {
    &&& l.len() > 12
    &&& l.take(12) == duration_prefix()
    &&& is_digit_char(l[12])
}

/// The duration carried by a duration line.
pub open spec fn duration_line_val(l: Seq<char>) -> nat {
    let d = l.skip(12);
    digits_val(d.take(digit_prefix_len(d) as int))
}

/// A line carrying the canvas size: the canvas prefix, a digit run, ` x `,
/// and a second digit run. Anything after the second run is ignored.
pub open spec fn is_canvas_line(l: Seq<char>) -> bool {
    let r = l.skip(14);
    let n1 = digit_prefix_len(r) as int;
    &&& l.len() > 14
    &&& l.take(14) == canvas_prefix()
    &&& n1 > 0
    &&& r.len() > n1 + 3
    &&& r[n1] == ' '
    &&& r[n1 + 1] == 'x'
    &&& r[n1 + 2] == ' '
    &&& is_digit_char(r[n1 + 3])
}

/// Width carried by a canvas line.
pub open spec fn canvas_w_val(l: Seq<char>) -> nat {
    let r = l.skip(14);
    digits_val(r.take(digit_prefix_len(r) as int))
}

/// Height carried by a canvas line.
pub open spec fn canvas_h_val(l: Seq<char>) -> nat {
    let r = l.skip(14);
    let r2 = r.skip(digit_prefix_len(r) as int + 3);
    digits_val(r2.take(digit_prefix_len(r2) as int))
}

/// The durations of all duration lines, in line order.
pub open spec fn duration_values(lines: Seq<Seq<char>>) -> Seq<nat>
    decreases lines.len(),
{
    if lines.len() == 0 {
        Seq::<nat>::empty()
    } else {
        let rest = duration_values(lines.drop_last());
        if is_duration_line(lines.last()) {
            rest.push(duration_line_val(lines.last()))
        } else {
            rest
        }
    }
}

/// Whether some line carries the canvas size.
pub open spec fn has_canvas(lines: Seq<Seq<char>>) -> bool {
    exists|j: int| 0 <= j < lines.len() && is_canvas_line(lines[j])
}

/// Index of the first canvas line, or the number of lines when none exists.
pub open spec fn first_canvas_idx(lines: Seq<Seq<char>>) -> nat
    decreases lines.len(),
{
    if lines.len() == 0 {
        0
    } else if is_canvas_line(lines[0]) {
        0
    } else {
        1 + first_canvas_idx(lines.skip(1))
    }
}

/// Canvas size announced by the first canvas line.
pub open spec fn canvas_size_vals(lines: Seq<Seq<char>>) -> (nat, nat)
    recommends
        has_canvas(lines),
{
    let l = lines[first_canvas_idx(lines) as int];
    (canvas_w_val(l), canvas_h_val(l))
}

/// Parse outcome: no canvas line (and no number too large to blame first).
pub open spec fn parse_rejects_missing(ls: Seq<Seq<char>>) -> bool {
    &&& !has_canvas(ls)
    &&& forall|k: int|
        0 <= k < duration_values(ls).len() ==> #[trigger] duration_values(ls)[k] <= i32::MAX
}

/// Parse outcome: a duration or canvas dimension does not fit an `i32`.
pub open spec fn parse_rejects_overflow(ls: Seq<Seq<char>>) -> bool {
    ||| exists|k: int|
        0 <= k < duration_values(ls).len() && #[trigger] duration_values(ls)[k] > i32::MAX
    ||| (has_canvas(ls) && (canvas_size_vals(ls).0 > i32::MAX || canvas_size_vals(ls).1
        > i32::MAX))
}

/// Parse outcome: a descriptor is produced.
pub open spec fn parse_accepts(ls: Seq<Seq<char>>) -> bool {
    !parse_rejects_missing(ls) && !parse_rejects_overflow(ls)
}

/// The produced descriptor: the durations in line order, the first canvas
/// line's size.
pub open spec fn parsed_info(info: WebpInfo, ls: Seq<Seq<char>>) -> bool {
    &&& info.wf()
    &&& info.durations@.map_values(|d: i32| d as nat) == duration_values(ls)
    &&& info.size.0 as nat == canvas_size_vals(ls).0
    &&& info.size.1 as nat == canvas_size_vals(ls).1
}

/// Sum of a sequence of parsed duration values.
pub open spec fn total_vals(s: Seq<nat>) -> int
    decreases s.len(),
{
    if s.len() == 0 {
        0
    } else {
        total_vals(s.drop_last()) + s.last()
    }
}

/// The sum of a duration vector equals the sum of its parsed values.
pub proof fn lemma_total_map(s: Seq<i32>, t: Seq<nat>)
    requires
        forall|i: int| 0 <= i < s.len() ==> s[i] >= 0,
        s.map_values(|d: i32| d as nat) == t,
    ensures
        total_of(s) == total_vals(t),
    decreases s.len(),
{
    if s.len() > 0 {
        assert(s.drop_last().map_values(|d: i32| d as nat) =~= t.drop_last());
        lemma_total_map(s.drop_last(), t.drop_last());
        assert(t[t.len() - 1] == s.map_values(|d: i32| d as nat)[s.len() - 1]);
        assert(s.map_values(|d: i32| d as nat)[s.len() - 1] == s[s.len() - 1] as nat);
        assert(total_of(s) == total_of(s.drop_last()) + s.last());
        assert(total_vals(t) == total_vals(t.drop_last()) + t.last());
    }
}

pub proof fn lemma_first_canvas_charac(lines: Seq<Seq<char>>, k: nat)
    requires
        k <= lines.len(),
        forall|j: int| 0 <= j < k ==> !is_canvas_line(lines[j]),
        k < lines.len() ==> is_canvas_line(lines[k as int]),
    ensures
        first_canvas_idx(lines) == k,
    decreases lines.len(),
{
    if lines.len() > 0 && !is_canvas_line(lines[0]) {
        lemma_first_canvas_charac(lines.skip(1), (k - 1) as nat);
    }
}

/// Durations of a prefix of the lines form a prefix of all the durations.
pub proof fn lemma_duration_values_take(lines: Seq<Seq<char>>, i: int)
    requires
        0 <= i <= lines.len(),
    ensures
        duration_values(lines.take(i)).is_prefix_of(duration_values(lines)),
    decreases lines.len() - i,
{
    if i == lines.len() {
        assert(lines.take(i) =~= lines);
    } else {
        lemma_duration_values_take(lines, i + 1);
        assert(lines.take(i + 1).drop_last() =~= lines.take(i));
        assert(lines.take(i + 1).last() == lines[i]);
    }
}

impl WebpInfo {
    /// Well-formed descriptor: durations and dimensions are non-negative.
    pub open spec fn wf(self) -> bool {
        &&& forall|i: int| 0 <= i < self.durations@.len() ==> self.durations@[i] >= 0
        &&& self.size.0 >= 0
        &&& self.size.1 >= 0
    }
}

/// Sum of a duration sequence.
pub open spec fn total_of(s: Seq<i32>) -> int
    decreases s.len(),
{
    if s.len() == 0 {
        0
    } else {
        total_of(s.drop_last()) + s.last()
    }
}

/// Sorted in non-decreasing order.
pub open spec fn sorted_i32(s: Seq<i32>) -> bool {
    forall|i: int, j: int| 0 <= i < j < s.len() ==> s[i] <= s[j]
}

/// Sorted in strictly increasing order.
pub open spec fn strictly_sorted_i32(s: Seq<i32>) -> bool {
    forall|i: int, j: int| 0 <= i < j < s.len() ==> s[i] < s[j]
}

pub proof fn lemma_total_take_step(s: Seq<i32>, i: int)
    requires
        0 <= i < s.len(),
    ensures
        total_of(s.take(i + 1)) == total_of(s.take(i)) + s[i],
{
    assert(s.take(i + 1).drop_last() =~= s.take(i));
    assert(s.take(i + 1).last() == s[i]);
}

/// With non-negative entries, every prefix sum lies between zero and the
/// whole sum.
pub proof fn lemma_total_prefix_bounds(s: Seq<i32>, j: int)
    requires
        0 <= j <= s.len(),
        forall|i: int| 0 <= i < s.len() ==> s[i] >= 0,
    ensures
        0 <= total_of(s.take(j)),
        total_of(s.take(j)) <= total_of(s),
{
    lemma_total_prefix_nonneg(s, j);
    lemma_total_prefix_upper(s, j);
}

proof fn lemma_total_prefix_nonneg(s: Seq<i32>, j: int)
    requires
        0 <= j <= s.len(),
        forall|i: int| 0 <= i < s.len() ==> s[i] >= 0,
    ensures
        0 <= total_of(s.take(j)),
    decreases j,
{
    if j > 0 {
        lemma_total_take_step(s, j - 1);
        lemma_total_prefix_nonneg(s, j - 1);
    }
}

proof fn lemma_total_prefix_upper(s: Seq<i32>, j: int)
    requires
        0 <= j <= s.len(),
        forall|i: int| 0 <= i < s.len() ==> s[i] >= 0,
    ensures
        total_of(s.take(j)) <= total_of(s),
    decreases s.len() - j,
{
    if j == s.len() {
        assert(s.take(j) =~= s);
    } else {
        lemma_total_take_step(s, j);
        lemma_total_prefix_upper(s, j + 1);
    }
}

/// Copy of `v` sorted in non-decreasing order.
fn sorted_copy_i32(v: &Vec<i32>) -> (r: Vec<i32>)
    ensures
        sorted_i32(r@),
        r@.to_multiset() == v@.to_multiset(),
{
    broadcast use vstd::seq_lib::group_to_multiset_ensures;

    let mut out: Vec<i32> = Vec::new();
    let mut idx: usize = 0;
    proof {
        assert(v@.take(0) =~= Seq::<i32>::empty());
        assert(out@.to_multiset() =~= v@.take(0).to_multiset());
    }
    while idx < v.len()
        invariant
            idx <= v@.len(),
            sorted_i32(out@),
            out@.to_multiset() == v@.take(idx as int).to_multiset(),
        decreases v@.len() - idx,
    {
        let x = v[idx];
        let mut k: usize = 0;
        while k < out.len() && out[k] <= x
            invariant
                k <= out@.len(),
                forall|j: int| 0 <= j < k ==> out@[j] <= x,
            decreases out@.len() - k,
        {
            k = k + 1;
        }
        let ghost pre = out@;
        out.insert(k, x);
        proof {
            vstd::seq_lib::to_multiset_insert(pre, k as int, x);
            vstd::seq_lib::to_multiset_build(v@.take(idx as int), x);
            assert(v@.take(idx + 1) =~= v@.take(idx as int).push(x));
            assert(v@.take(idx + 1).to_multiset() == v@.take(idx as int).push(x).to_multiset());
            assert(out@.to_multiset() =~= v@.take(idx + 1).to_multiset());
            assert forall|a: int, b: int| 0 <= a < b < out@.len() implies out@[a] <= out@[b] by {
                if b < k {
                    assert(out@[a] == pre[a] && out@[b] == pre[b]);
                } else if a > k {
                    assert(out@[a] == pre[a - 1] && out@[b] == pre[b - 1]);
                } else if a == k {
                    assert(out@[b] == pre[b - 1]);
                    assert(k < out@.len() - 1 ==> pre[k as int] > x);
                } else if b == k {
                    assert(out@[a] == pre[a]);
                } else {
                    assert(out@[a] == pre[a] && out@[b] == pre[b - 1]);
                    assert(k < pre.len() ==> pre[k as int] > x);
                }
            }
        }
        idx = idx + 1;
    }
    proof {
        assert(v@.take(v@.len() as int) =~= v@);
    }
    out
}

/// Removes neighbouring duplicates of a sorted vector, leaving each value
/// once, in strictly increasing order.
fn dedup_sorted_i32(v: &Vec<i32>) -> (r: Vec<i32>)
    requires
        sorted_i32(v@),
    ensures
        strictly_sorted_i32(r@),
        forall|x: i32| r@.contains(x) <==> v@.contains(x),
{
    let mut out: Vec<i32> = Vec::new();
    let mut i: usize = 0;
    while i < v.len()
        invariant
            i <= v@.len(),
            sorted_i32(v@),
            strictly_sorted_i32(out@),
            forall|x: i32| out@.contains(x) <==> v@.take(i as int).contains(x),
            (i > 0) <==> (out@.len() > 0),
            out@.len() > 0 ==> i > 0 && out@.last() == v@[i - 1],
        decreases v@.len() - i,
    {
        let ghost pre = out@;
        if out.len() == 0 || out[out.len() - 1] != v[i] {
            let x = v[i];
            proof {
                if pre.len() > 0 {
                    assert(forall|j: int| 0 <= j < pre.len() ==> #[trigger] pre[j] <= pre[pre.len()
                        - 1]);
                    assert(pre.last() == v@[i - 1] && v@[i - 1] <= v@[i as int]);
                }
            }
            out.push(x);
        }
        proof {
            broadcast use vstd::seq_lib::lemma_seq_contains_after_push;

            assert(v@.take(i + 1) =~= v@.take(i as int).push(v@[i as int]));
            if out@ == pre {
                assert forall|x: i32| v@.take(i + 1).contains(x) implies out@.contains(x) by {
                    if x == v@[i as int] {
                        assert(pre[pre.len() - 1] == x);
                    }
                }
            }
        }
        i = i + 1;
    }
    proof {
        assert(v@.take(v@.len() as int) =~= v@);
    }
    out
}

impl WebpInfo {
    /// An image is animated exactly when it has frame durations.
    pub fn is_animated(&self) -> (r: bool)
        ensures
            r == (self.durations@.len() > 0),
    {
        self.durations.len() > 0
    }

    /// Sum of all frame durations.
    pub fn total_duration(&self) -> (r: i32)
        requires
            self.wf(),
            total_of(self.durations@) <= i32::MAX,
        ensures
            r == total_of(self.durations@),
    {
        let ghost s = self.durations@;
        let mut acc: i32 = 0;
        let mut i: usize = 0;
        proof {
            assert(s.take(0) =~= Seq::<i32>::empty());
        }
        while i < self.durations.len()
            invariant
                i <= s.len(),
                s == self.durations@,
                self.wf(),
                total_of(s) <= i32::MAX,
                acc == total_of(s.take(i as int)),
            decreases s.len() - i,
        {
            proof {
                lemma_total_take_step(s, i as int);
                lemma_total_prefix_bounds(s, i + 1);
                lemma_total_prefix_bounds(s, i as int);
            }
            acc = acc + self.durations[i];
            i = i + 1;
        }
        proof {
            assert(s.take(s.len() as int) =~= s);
        }
        acc
    }

    /// Number of frames.
    pub fn frame_count(&self) -> (r: usize)
        ensures
            r == self.durations@.len(),
    {
        self.durations.len()
    }

    /// Whether every frame lasts as long as the first one.
    pub fn all_durations_eq(&self) -> (r: bool)
        ensures
            r == (forall|k: int|
                0 <= k < self.durations@.len() ==> #[trigger] self.durations@[k]
                    == self.durations@[0]),
    {
        let mut i: usize = 0;
        while i < self.durations.len()
            invariant
                i <= self.durations@.len(),
                forall|k: int| 0 <= k < i ==> #[trigger] self.durations@[k]
                    == self.durations@[0],
            decreases self.durations@.len() - i,
        {
            if self.durations[i] != self.durations[0] {
                return false;
            }
            i = i + 1;
        }
        true
    }

    /// The distinct duration values, in increasing order.
    pub fn unique_durations(&self) -> (r: Vec<i32>)
        ensures
            strictly_sorted_i32(r@),
            forall|x: i32| r@.contains(x) <==> self.durations@.contains(x),
    {
        broadcast use vstd::seq_lib::group_to_multiset_ensures;

        let sorted = sorted_copy_i32(&self.durations);
        let r = dedup_sorted_i32(&sorted);
        proof {
            assert forall|x: i32| r@.contains(x) <==> self.durations@.contains(x) by {
                assert(sorted@.contains(x) <==> sorted@.to_multiset().count(x) > 0);
                assert(self.durations@.contains(x) <==> self.durations@.to_multiset().count(x)
                    > 0);
            }
        }
        r
    }

    /// Canvas width.
    pub fn width(&self) -> (r: i32)
        ensures
            r == self.size.0,
    {
        self.size.0
    }

    /// Canvas height.
    pub fn height(&self) -> (r: i32)
        ensures
            r == self.size.1,
    {
        self.size.1
    }

    /// The shortest frame duration, when there are frames.
    pub fn min_duration(&self) -> (r: Option<i32>)
        ensures
            match r {
                Option::Some(m) => self.durations@.contains(m) && forall|k: int|
                    0 <= k < self.durations@.len() ==> m <= self.durations@[k],
                Option::None => self.durations@.len() == 0,
            },
    {
        if self.durations.len() == 0 {
            return None;
        }
        let mut m = self.durations[0];
        let mut i: usize = 1;
        proof {
            assert(self.durations@[0] == m);
        }
        while i < self.durations.len()
            invariant
                1 <= i <= self.durations@.len(),
                self.durations@.contains(m),
                forall|k: int| 0 <= k < i ==> m <= self.durations@[k],
            decreases self.durations@.len() - i,
        {
            if self.durations[i] < m {
                m = self.durations[i];
            }
            i = i + 1;
        }
        Some(m)
    }

    /// The longest frame duration, when there are frames.
    pub fn max_duration(&self) -> (r: Option<i32>)
        ensures
            match r {
                Option::Some(m) => self.durations@.contains(m) && forall|k: int|
                    0 <= k < self.durations@.len() ==> self.durations@[k] <= m,
                Option::None => self.durations@.len() == 0,
            },
    {
        if self.durations.len() == 0 {
            return None;
        }
        let mut m = self.durations[0];
        let mut i: usize = 1;
        proof {
            assert(self.durations@[0] == m);
        }
        while i < self.durations.len()
            invariant
                1 <= i <= self.durations@.len(),
                self.durations@.contains(m),
                forall|k: int| 0 <= k < i ==> self.durations@[k] <= m,
            decreases self.durations@.len() - i,
        {
            if self.durations[i] > m {
                m = self.durations[i];
            }
            i = i + 1;
        }
        Some(m)
    }
}

/// Reads a duration line: `None` when the line is no duration line,
/// `Some(None)` when the duration does not fit an `i32`.
fn line_duration_parse(line: &Vec<char>) -> (r: Option<Option<i32>>)
    ensures
        match r {
            Option::None => !is_duration_line(line@),
            Option::Some(o) => is_duration_line(line@) && match o {
                Option::Some(v) => v >= 0 && v as nat == duration_line_val(line@),
                Option::None => duration_line_val(line@) > i32::MAX,
            },
        },
{
    if line.len() < 13 {
        return None;
    }
    let ok = line[0] == ' ' && line[1] == ' ' && line[2] == 'D' && line[3] == 'u' && line[4] == 'r'
        && line[5] == 'a' && line[6] == 't' && line[7] == 'i' && line[8] == 'o' && line[9] == 'n'
        && line[10] == ':' && line[11] == ' ';
    if !ok {
        proof {
            assert(!(line@.take(12) == duration_prefix())) by {
                if line@.take(12) == duration_prefix() {
                    assert(forall|k: int|
                        0 <= k < 12 ==> line@[k] == #[trigger] duration_prefix()[k]) by {
                        assert(forall|k: int|
                            0 <= k < 12 ==> line@.take(12)[k] == #[trigger] line@[k]);
                    }
                }
            }
        }
        return None;
    }
    if !check_digit_char(line[12]) {
        return None;
    }
    proof {
        assert(line@.take(12) =~= duration_prefix());
    }
    let end = digit_run_end(line, 12);
    let ghost d = line@.skip(12);
    proof {
        assert(d[0] == line@[12]);
        assert(line@.subrange(12, end as int) =~= d.take(digit_prefix_len(d) as int));
    }
    match parse_digits_max(line, 12, end, 0x7fff_ffff) {
        Option::Some(x) => Some(Some(x as i32)),
        Option::None => Some(None),
    }
}

/// Reads a canvas line: `None` when the line is no canvas line,
/// `Some(None)` when a dimension does not fit an `i32`.
fn line_canvas_parse(line: &Vec<char>) -> (r: Option<Option<(i32, i32)>>)
    ensures
        match r {
            Option::None => !is_canvas_line(line@),
            Option::Some(o) => is_canvas_line(line@) && match o {
                Option::Some(wh) => wh.0 >= 0 && wh.1 >= 0 && wh.0 as nat == canvas_w_val(line@)
                    && wh.1 as nat == canvas_h_val(line@),
                Option::None => canvas_w_val(line@) > i32::MAX || canvas_h_val(line@) > i32::MAX,
            },
        },
{
    if line.len() < 15 {
        return None;
    }
    let ok = line[0] == ' ' && line[1] == ' ' && line[2] == 'C' && line[3] == 'a' && line[4] == 'n'
        && line[5] == 'v' && line[6] == 'a' && line[7] == 's' && line[8] == ' ' && line[9] == 's'
        && line[10] == 'i' && line[11] == 'z' && line[12] == 'e' && line[13] == ' ';
    if !ok {
        proof {
            assert(!(line@.take(14) == canvas_prefix())) by {
                if line@.take(14) == canvas_prefix() {
                    assert(forall|k: int|
                        0 <= k < 14 ==> line@[k] == #[trigger] canvas_prefix()[k]) by {
                        assert(forall|k: int|
                            0 <= k < 14 ==> line@.take(14)[k] == #[trigger] line@[k]);
                    }
                }
            }
        }
        return None;
    }
    proof {
        assert(line@.take(14) =~= canvas_prefix());
    }
    let ghost r14 = line@.skip(14);
    let w_end = digit_run_end(line, 14);
    proof {
        assert(forall|k: int| 0 <= k < r14.len() ==> r14[k] == #[trigger] line@[14 + k]);
    }
    if w_end == 14 {
        return None;
    }
    if !(line.len() - w_end > 3 && line[w_end] == ' ' && line[w_end + 1] == 'x' && line[w_end + 2]
        == ' ' && check_digit_char(line[w_end + 3])) {
        return None;
    }
    let h_start = w_end + 3;
    let h_end = digit_run_end(line, h_start);
    let ghost n1 = digit_prefix_len(r14) as int;
    let ghost r2 = r14.skip(n1 + 3);
    proof {
        assert(n1 == w_end - 14);
        assert(r2 =~= line@.skip(h_start as int));
        assert(r2[0] == line@[h_start as int]);
        assert(line@.subrange(14, w_end as int) =~= r14.take(n1));
        assert(line@.subrange(h_start as int, h_end as int) =~= r2.take(
            digit_prefix_len(r2) as int,
        ));
    }
    let w = parse_digits_max(line, 14, w_end, 0x7fff_ffff);
    let h = parse_digits_max(line, h_start, h_end, 0x7fff_ffff);
    match (w, h) {
        (Option::Some(wv), Option::Some(hv)) => Some(Some((wv as i32, hv as i32))),
        _ => Some(None),
    }
}

impl WebpInfo {
    /// Parses the probe tool's standard output: every `  Duration: <n>`
    /// line contributes one frame duration, in line order, and the first
    /// `  Canvas size <w> x <h>` line gives the size. Text without a canvas
    /// line is rejected, as is any number that does not fit the descriptor.
    #[verifier::rlimit(60)]
    pub fn from_stdout(stdout: &str) -> (r: Result<WebpInfo, ParseError>)
        ensures
            ({
                let ls = split_lines(stdout@);
                match r {
                    Result::Ok(info) => parse_accepts(ls) && parsed_info(info, ls),
                    Result::Err(ParseError::NumberOverflow) => parse_rejects_overflow(ls),
                    Result::Err(ParseError::MissingCanvasSize) => parse_rejects_missing(ls),
                }
            }),
    {
        let chars = chars_of(stdout);
        let lines = split_lines_exec(&chars);
        let ghost ls = split_lines(stdout@);
        proof {
            assert(lines@.map_values(|l: Vec<char>| l@) == ls);
        }
        let mut durations: Vec<i32> = Vec::new();
        let mut size: Option<(i32, i32)> = None;
        let mut i: usize = 0;
        while i < lines.len()
            invariant
                i <= lines@.len(),
                ls == split_lines(stdout@),
                lines@.map_values(|l: Vec<char>| l@) == ls,
                durations@.map_values(|d: i32| d as nat) =~= duration_values(ls.take(i as int)),
                forall|k: int| 0 <= k < durations@.len() ==> durations@[k] >= 0,
                match size {
                    Option::None => forall|j: int| 0 <= j < i ==> !is_canvas_line(ls[j]),
                    Option::Some(wh) => {
                        &&& has_canvas(ls)
                        &&& wh.0 >= 0 && wh.1 >= 0
                        &&& wh.0 as nat == canvas_size_vals(ls).0
                        &&& wh.1 as nat == canvas_size_vals(ls).1
                    },
                },
            decreases lines@.len() - i,
        {
            let ghost l = ls[i as int];
            proof {
                assert(l == lines@[i as int]@);
                assert(ls.take(i + 1).drop_last() =~= ls.take(i as int));
                assert(ls.take(i + 1).last() == l);
            }
            match line_duration_parse(&lines[i]) {
                Option::Some(Option::Some(v)) => {
                    durations.push(v);
                    proof {
                        assert(durations@.map_values(|d: i32| d as nat) =~= duration_values(
                            ls.take(i + 1),
                        ));
                    }
                },
                Option::Some(Option::None) => {
                    proof {
                        lemma_duration_values_take(ls, i + 1);
                        let vals = duration_values(ls.take(i + 1));
                        assert(vals == duration_values(ls.take(i as int)).push(
                            duration_line_val(l),
                        ));
                        assert(duration_values(ls).subrange(0, vals.len() as int) == vals);
                        assert(duration_values(ls)[vals.len() - 1] == vals[vals.len() - 1]);
                        let w = vals.len() - 1;
                        assert(0 <= w < duration_values(ls).len() && duration_values(ls)[w]
                            > i32::MAX);
                        assert(exists|k: int|
                            0 <= k < duration_values(ls).len() && duration_values(ls)[k]
                                > i32::MAX);
                    }
                    return Err(ParseError::NumberOverflow);
                },
                Option::None => {
                    proof {
                        assert(duration_values(ls.take(i + 1)) =~= duration_values(
                            ls.take(i as int),
                        ));
                    }
                },
            }
            if size.is_none() {
                match line_canvas_parse(&lines[i]) {
                    Option::Some(Option::Some(wh)) => {
                        proof {
                            lemma_first_canvas_charac(ls, i as nat);
                            assert(0 <= i < ls.len() && is_canvas_line(ls[i as int]));
                            assert(has_canvas(ls));
                        }
                        size = Some(wh);
                    },
                    Option::Some(Option::None) => {
                        proof {
                            lemma_first_canvas_charac(ls, i as nat);
                            assert(0 <= i < ls.len() && is_canvas_line(ls[i as int]));
                            assert(has_canvas(ls));
                        }
                        return Err(ParseError::NumberOverflow);
                    },
                    Option::None => {},
                }
            }
            i = i + 1;
        }
        proof {
            assert(ls.take(ls.len() as int) =~= ls);
        }
        match size {
            Option::Some(wh) => Ok(WebpInfo { durations, size: wh }),
            Option::None => {
                proof {
                    assert(!has_canvas(ls));
                    assert(forall|k: int|
                        0 <= k < duration_values(ls).len() ==> #[trigger] duration_values(ls)[k]
                            <= i32::MAX) by {
                        assert(forall|k: int|
                            0 <= k < durations@.len() ==> durations@.map_values(|d: i32| d as nat)[k]
                                == #[trigger] (durations@[k] as nat));
                    }
                }
                Err(ParseError::MissingCanvasSize)
            },
        }
    }
}

} // verus!

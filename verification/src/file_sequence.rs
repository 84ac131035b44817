//! Resolution of a directory listing into an ordered, contiguous sequence
//! of frame files: the contract between the frame-extraction step and every
//! step that consumes frames positionally.

use vstd::prelude::*;
use crate::text::{
    chars_of, check_word_char, digit_prefix_len, digit_run_end, digits_val, is_word_char,
    parse_digits_max,
};

verus! {

/// One frame file: its ordinal index and its file name.
#[derive(Debug, Clone)]
pub struct SequenceElement {
    pub index: usize,
    pub file_name: String,
}

/// An ordered frame-file listing of one directory.
#[derive(Debug, Clone)]
pub struct FileSequence {
    pub dir: String,
    pub files: Vec<SequenceElement>,
}

/// Violation of the frame-directory contract.
#[derive(Debug, Clone)]
pub enum SequenceError {
    /// A file name does not match the frame-file pattern.
    NoMatch(String),
    /// A matching file name carries an index too large to use.
    Parse(String),
    /// The indices of the matching files are not contiguous.
    Sequence(String),
    /// No file matches the frame-file pattern.
    Empty(String),
}

/// A frame-file name: a run of decimal digits, a dot, and an extension of
/// three or four word characters.
pub open spec fn matches_frame_name(s: Seq<char>) -> bool {
    let n = digit_prefix_len(s) as int;
    &&& n >= 1
    &&& n < s.len()
    &&& s[n] == '.'
    &&& 3 <= s.len() - (n + 1) <= 4
    &&& forall|i: int| n + 1 <= i < s.len() ==> is_word_char(s[i])
}

/// The ordinal index carried by a frame-file name.
pub open spec fn frame_index_val(s: Seq<char>) -> nat {
    digits_val(s.take(digit_prefix_len(s) as int))
}

/// Index/name pairs of the matching names, in listing order.
pub open spec fn matched_pairs(names: Seq<Seq<char>>) -> Seq<(nat, Seq<char>)>
    decreases names.len(),
{
    if names.len() == 0 {
        Seq::<(nat, Seq<char>)>::empty()
    } else {
        let rest = matched_pairs(names.drop_last());
        if matches_frame_name(names.last()) {
            rest.push((frame_index_val(names.last()), names.last()))
        } else {
            rest
        }
    }
}

/// Whether any name matches the frame-file pattern.
pub open spec fn has_match(names: Seq<Seq<char>>) -> bool {
    matched_pairs(names).len() > 0
}

/// Every matching name carries an index that fits a `usize`.
pub open spec fn indices_fit(names: Seq<Seq<char>>) -> bool {
    forall|k: int|
        0 <= k < matched_pairs(names).len() ==> #[trigger] matched_pairs(names)[k].0
            <= usize::MAX as nat
}

pub open spec fn spec_min_nat(a: nat, b: nat) -> nat {
    if a <= b {
        a
    } else {
        b
    }
}

pub open spec fn spec_max_nat(a: nat, b: nat) -> nat {
    if a <= b {
        b
    } else {
        a
    }
}

/// Smallest index among the matching names.
pub open spec fn min_index_of(names: Seq<Seq<char>>) -> nat
    decreases names.len(),
{
    if names.len() == 0 {
        0
    } else {
        let rest = names.drop_last();
        let l = names.last();
        if matches_frame_name(l) {
            if matched_pairs(rest).len() > 0 {
                spec_min_nat(min_index_of(rest), frame_index_val(l))
            } else {
                frame_index_val(l)
            }
        } else {
            min_index_of(rest)
        }
    }
}

/// Largest index among the matching names.
pub open spec fn max_index_of(names: Seq<Seq<char>>) -> nat
    decreases names.len(),
{
    if names.len() == 0 {
        0
    } else {
        let rest = names.drop_last();
        let l = names.last();
        if matches_frame_name(l) {
            if matched_pairs(rest).len() > 0 {
                spec_max_nat(max_index_of(rest), frame_index_val(l))
            } else {
                frame_index_val(l)
            }
        } else {
            max_index_of(rest)
        }
    }
}

/// The matching indices span a gap-free range: the count of matching names
/// equals the width of their index range.
pub open spec fn contiguous(names: Seq<Seq<char>>) -> bool {
    max_index_of(names) - min_index_of(names) + 1 == matched_pairs(names).len()
}

/// The smallest and largest index are attained and bound every index.
pub proof fn lemma_min_max_index(names: Seq<Seq<char>>)
    requires
        matched_pairs(names).len() > 0,
    ensures
        exists|k: int|
            0 <= k < matched_pairs(names).len() && #[trigger] matched_pairs(names)[k].0
                == min_index_of(names),
        forall|k: int|
            0 <= k < matched_pairs(names).len() ==> min_index_of(names)
                <= #[trigger] matched_pairs(names)[k].0,
        exists|k: int|
            0 <= k < matched_pairs(names).len() && #[trigger] matched_pairs(names)[k].0
                == max_index_of(names),
        forall|k: int|
            0 <= k < matched_pairs(names).len() ==> #[trigger] matched_pairs(names)[k].0
                <= max_index_of(names),
    decreases names.len(),
{
    let rest = names.drop_last();
    let l = names.last();
    let ps = matched_pairs(names);
    if matches_frame_name(l) {
        if matched_pairs(rest).len() > 0 {
            lemma_min_max_index(rest);
            let km = choose|k: int|
                0 <= k < matched_pairs(rest).len() && #[trigger] matched_pairs(rest)[k].0
                    == min_index_of(rest);
            let kx = choose|k: int|
                0 <= k < matched_pairs(rest).len() && #[trigger] matched_pairs(rest)[k].0
                    == max_index_of(rest);
            if min_index_of(names) == min_index_of(rest) {
                assert(ps[km].0 == min_index_of(names));
            } else {
                assert(ps[ps.len() - 1].0 == min_index_of(names));
            }
            if max_index_of(names) == max_index_of(rest) {
                assert(ps[kx].0 == max_index_of(names));
            } else {
                assert(ps[ps.len() - 1].0 == max_index_of(names));
            }
        } else {
            assert(ps[0].0 == min_index_of(names));
            assert(ps[0].0 == max_index_of(names));
        }
    } else {
        lemma_min_max_index(rest);
    }
}

/// Position of the first matching name whose index does not fit, or the
/// number of names when every index fits.
pub open spec fn first_overflow_idx(names: Seq<Seq<char>>) -> nat
    decreases names.len(),
{
    if names.len() == 0 {
        0
    } else if matches_frame_name(names[0]) && frame_index_val(names[0]) > usize::MAX as nat {
        0
    } else {
        1 + first_overflow_idx(names.skip(1))
    }
}

pub proof fn lemma_first_overflow_charac(names: Seq<Seq<char>>, k: nat)
    requires
        k <= names.len(),
        forall|j: int|
            0 <= j < k ==> !(matches_frame_name(names[j]) && frame_index_val(names[j])
                > usize::MAX as nat),
        k < names.len() ==> matches_frame_name(names[k as int]) && frame_index_val(names[k as int])
            > usize::MAX as nat,
    ensures
        first_overflow_idx(names) == k,
    decreases names.len(),
{
    if names.len() > 0 && !(matches_frame_name(names[0]) && frame_index_val(names[0])
        > usize::MAX as nat) {
        lemma_first_overflow_charac(names.skip(1), (k - 1) as nat);
    }
}

/// View of one resolved element as an index/name pair.
pub open spec fn pair_of(e: SequenceElement) -> (nat, Seq<char>) {
    (e.index as nat, e.file_name@)
}

/// A successfully resolved sequence for the listing `ns` of directory
/// `dir`: the matching names, ordered by index, indices contiguous.
pub open spec fn resolve_ok(fs: FileSequence, dir: Seq<char>, ns: Seq<Seq<char>>) -> bool {
    &&& fs.dir@ == dir
    &&& indices_fit(ns)
    &&& has_match(ns)
    &&& contiguous(ns)
    &&& sorted_by_index(fs.files@)
    &&& fs.files@.map_values(|e: SequenceElement| pair_of(e)).to_multiset() == matched_pairs(
        ns,
    ).to_multiset()
}

/// The error resolution yields for the listing `ns` of directory `dir`.
pub open spec fn resolve_err(e: SequenceError, dir: Seq<char>, ns: Seq<Seq<char>>) -> bool {
    match e {
        SequenceError::Parse(n) => first_overflow_idx(ns) < ns.len() && n@ == ns[first_overflow_idx(
            ns,
        ) as int],
        SequenceError::Empty(d) => indices_fit(ns) && !has_match(ns) && d@ == dir,
        SequenceError::Sequence(d) => indices_fit(ns) && has_match(ns) && !contiguous(ns) && d@
            == dir,
        SequenceError::NoMatch(_) => false,
    }
}

/// Elements ordered by non-decreasing index.
pub open spec fn sorted_by_index(s: Seq<SequenceElement>) -> bool {
    forall|i: int, j: int| 0 <= i < j < s.len() ==> #[trigger] s[i].index <= #[trigger] s[j].index
}

impl SequenceElement {
    /// Reads one directory entry's file name. A name that does not match
    /// the frame-file pattern is reported as `NoMatch`; a matching name
    /// whose index is too large for a `usize` as `Parse`.
    pub fn from_file_name(name: &String) -> (r: Result<SequenceElement, SequenceError>)
        ensures
            match r {
                Result::Ok(e) => matches_frame_name(name@) && frame_index_val(name@)
                    <= usize::MAX as nat && e.index as nat == frame_index_val(name@)
                    && e.file_name@ == name@,
                Result::Err(SequenceError::NoMatch(n)) => !matches_frame_name(name@) && n@
                    == name@,
                Result::Err(SequenceError::Parse(n)) => matches_frame_name(name@)
                    && frame_index_val(name@) > usize::MAX as nat && n@ == name@,
                Result::Err(_) => false,
            },
    {
        let v = chars_of(name.as_str());
        let n = digit_run_end(&v, 0);
        proof {
            assert(v@.skip(0) =~= v@);
        }
        if n == 0 || n >= v.len() {
            return Err(SequenceError::NoMatch(name.clone()));
        }
        if v[n] != '.' {
            return Err(SequenceError::NoMatch(name.clone()));
        }
        let ext_len = v.len() - (n + 1);
        if ext_len < 3 || ext_len > 4 {
            return Err(SequenceError::NoMatch(name.clone()));
        }
        let mut i = n + 1;
        while i < v.len()
            invariant
                v@ == name@,
                n as int == digit_prefix_len(v@),
                n + 1 <= i <= v@.len(),
                forall|j: int| n + 1 <= j < i ==> is_word_char(v@[j]),
            decreases v@.len() - i,
        {
            if !check_word_char(v[i]) {
                return Err(SequenceError::NoMatch(name.clone()));
            }
            i = i + 1;
        }
        proof {
            assert(v@.take(digit_prefix_len(v@) as int) =~= v@.subrange(0, n as int));
        }
        match parse_digits_max(&v, 0, n, usize::MAX as u128) {
            Option::Some(x) => Ok(
                SequenceElement { index: x as usize, file_name: name.clone() },
            ),
            Option::None => Err(SequenceError::Parse(name.clone())),
        }
    }
}

/// Copy of `v` sorted by non-decreasing index.
fn sorted_by_index_copy(v: &Vec<SequenceElement>) -> (r: Vec<SequenceElement>)
    ensures
        sorted_by_index(r@),
        r@.map_values(|e: SequenceElement| pair_of(e)).to_multiset() == v@.map_values(
            |e: SequenceElement| pair_of(e),
        ).to_multiset(),
{
    broadcast use vstd::seq_lib::group_to_multiset_ensures;

    let ghost f = |e: SequenceElement| pair_of(e);
    let mut out: Vec<SequenceElement> = Vec::new();
    let mut idx: usize = 0;
    proof {
        assert(v@.take(0).map_values(f) =~= Seq::<(nat, Seq<char>)>::empty());
        assert(out@.map_values(f) =~= Seq::<(nat, Seq<char>)>::empty());
    }
    while idx < v.len()
        invariant
            idx <= v@.len(),
            f == (|e: SequenceElement| pair_of(e)),
            sorted_by_index(out@),
            out@.map_values(f).to_multiset() == v@.take(idx as int).map_values(f).to_multiset(),
        decreases v@.len() - idx,
    {
        let x = SequenceElement { index: v[idx].index, file_name: v[idx].file_name.clone() };
        proof {
            assert(pair_of(x) == pair_of(v@[idx as int]));
        }
        let mut k: usize = 0;
        while k < out.len() && out[k].index <= x.index
            invariant
                k <= out@.len(),
                forall|j: int| 0 <= j < k ==> #[trigger] out@[j].index <= x.index,
            decreases out@.len() - k,
        {
            k = k + 1;
        }
        let ghost pre = out@;
        out.insert(k, x);
        proof {
            assert(out@.map_values(f) =~= pre.map_values(f).insert(k as int, f(x)));
            vstd::seq_lib::to_multiset_insert(pre.map_values(f), k as int, f(x));
            vstd::seq_lib::to_multiset_build(v@.take(idx as int).map_values(f), f(v@[idx as int]));
            assert(v@.take(idx + 1).map_values(f) =~= v@.take(idx as int).map_values(f).push(
                f(v@[idx as int]),
            ));
            assert(out@.map_values(f).to_multiset() =~= v@.take(idx + 1).map_values(
                f,
            ).to_multiset());
            assert forall|a: int, b: int|
                0 <= a < b < out@.len() implies #[trigger] out@[a].index
                <= #[trigger] out@[b].index by {
                if b < k {
                    assert(out@[a] == pre[a] && out@[b] == pre[b]);
                } else if a > k {
                    assert(out@[a] == pre[a - 1] && out@[b] == pre[b - 1]);
                } else if a == k {
                    assert(out@[b] == pre[b - 1]);
                    assert(k < out@.len() - 1 ==> pre[k as int].index > x.index);
                } else if b == k {
                    assert(out@[a] == pre[a]);
                } else {
                    assert(out@[a] == pre[a] && out@[b] == pre[b - 1]);
                    assert(k < pre.len() ==> pre[k as int].index > x.index);
                }
            }
        }
        idx = idx + 1;
    }
    proof {
        assert(v@.take(v@.len() as int) =~= v@);
    }
    out
}

/// Resolves a directory listing into a frame sequence. Names that do not
/// match the frame-file pattern are silently excluded; the matching names
/// are ordered by index, which must form a gap-free range. An empty match
/// set, a too-large index and a gapped range are each a distinct error.
pub fn file_sequence_from_names(dir: String, names: &Vec<String>) -> (r: Result<
    FileSequence,
    SequenceError,
>)
    ensures
        ({
            let ns = names@.map_values(|n: String| n@);
            match r {
                Result::Ok(fs) => resolve_ok(fs, dir@, ns),
                Result::Err(e) => resolve_err(e, dir@, ns),
            }
        }),
{
    broadcast use vstd::seq_lib::group_to_multiset_ensures;

    let ghost ns = names@.map_values(|n: String| n@);
    let ghost f = |e: SequenceElement| pair_of(e);
    let mut elems: Vec<SequenceElement> = Vec::new();
    let mut i: usize = 0;
    proof {
        assert(elems@.map_values(f) =~= matched_pairs(ns.take(0)));
    }
    while i < names.len()
        invariant
            i <= names@.len(),
            ns == names@.map_values(|n: String| n@),
            f == (|e: SequenceElement| pair_of(e)),
            elems@.map_values(f) == matched_pairs(ns.take(i as int)),
            forall|j: int|
                0 <= j < i ==> !(matches_frame_name(ns[j]) && frame_index_val(ns[j])
                    > usize::MAX as nat),
        decreases names@.len() - i,
    {
        let ghost n = ns[i as int];
        proof {
            assert(n == names@[i as int]@);
            assert(ns.take(i + 1).drop_last() =~= ns.take(i as int));
            assert(ns.take(i + 1).last() == n);
        }
        match SequenceElement::from_file_name(&names[i]) {
            Result::Ok(e) => {
                elems.push(e);
                proof {
                    assert(elems@.map_values(f) =~= matched_pairs(ns.take(i + 1)));
                }
            },
            Result::Err(SequenceError::NoMatch(_)) => {
                proof {
                    assert(matched_pairs(ns.take(i + 1)) =~= matched_pairs(ns.take(i as int)));
                }
            },
            Result::Err(err) => {
                proof {
                    lemma_first_overflow_charac(ns, i as nat);
                }
                return Err(err);
            },
        }
        i = i + 1;
    }
    proof {
        assert(ns.take(ns.len() as int) =~= ns);
    }
    if elems.len() == 0 {
        return Err(SequenceError::Empty(dir));
    }
    let files = sorted_by_index_copy(&elems);
    let ghost pairs = matched_pairs(ns);
    proof {
        assert(files@.map_values(f).to_multiset() == pairs.to_multiset());
        assert(pairs.len() == files@.map_values(f).to_multiset().len());
        assert(files@.len() == files@.map_values(f).len());
    }
    let first = files[0].index;
    let last = files[files.len() - 1].index;
    proof {
        lemma_min_max_index(ns);
        lemma_pairs_extremes(files@, pairs, min_index_of(ns), max_index_of(ns));
    }
    if last - first == files.len() - 1 {
        Ok(FileSequence { dir, files })
    } else {
        Err(SequenceError::Sequence(dir))
    }
}

/// For a sorted element list whose pairs form the same multiset as
/// `pairs`, the first and last element carry the least and greatest index.
proof fn lemma_pairs_extremes(
    files: Seq<SequenceElement>,
    pairs: Seq<(nat, Seq<char>)>,
    lo: nat,
    hi: nat,
)
    requires
        files.len() > 0,
        sorted_by_index(files),
        files.map_values(|e: SequenceElement| pair_of(e)).to_multiset() == pairs.to_multiset(),
        pairs.len() > 0,
        exists|k: int| 0 <= k < pairs.len() && (#[trigger] pairs[k].0) == lo,
        forall|k: int| 0 <= k < pairs.len() ==> lo <= #[trigger] pairs[k].0,
        exists|k: int| 0 <= k < pairs.len() && (#[trigger] pairs[k].0) == hi,
        forall|k: int| 0 <= k < pairs.len() ==> #[trigger] pairs[k].0 <= hi,
    ensures
        files[0].index as nat == lo,
        files[files.len() - 1].index as nat == hi,
        files.len() == pairs.len(),
{
    broadcast use vstd::seq_lib::group_to_multiset_ensures;

    let fp = files.map_values(|e: SequenceElement| pair_of(e));
    assert(files.len() == fp.len());
    assert(fp.len() == fp.to_multiset().len());
    assert(fp.to_multiset().len() == pairs.to_multiset().len());

    let km = choose|k: int| 0 <= k < pairs.len() && (#[trigger] pairs[k].0) == lo;
    assert(pairs.contains(pairs[km]));
    assert(pairs.to_multiset().count(pairs[km]) > 0);
    assert(fp.to_multiset().count(pairs[km]) > 0);
    assert(fp.contains(pairs[km]));
    let jm = fp.lemma_contains_to_index(pairs[km]);
    assert(pair_of(files[jm]) == pairs[km]);
    assert(files[0].index <= files[jm].index);
    assert(fp.contains(fp[0]));
    assert(fp.to_multiset().count(fp[0]) > 0);
    assert(pairs.to_multiset().count(fp[0]) > 0);
    assert(pairs.contains(fp[0]));
    let k0 = pairs.lemma_contains_to_index(fp[0]);
    assert(lo <= pairs[k0].0);
    assert(pair_of(files[0]) == fp[0]);

    let kx = choose|k: int| 0 <= k < pairs.len() && (#[trigger] pairs[k].0) == hi;
    assert(pairs.contains(pairs[kx]));
    assert(pairs.to_multiset().count(pairs[kx]) > 0);
    assert(fp.to_multiset().count(pairs[kx]) > 0);
    assert(fp.contains(pairs[kx]));
    let jx = fp.lemma_contains_to_index(pairs[kx]);
    assert(pair_of(files[jx]) == pairs[kx]);
    assert(files[jx].index <= files[files.len() - 1].index);
    assert(fp.contains(fp[fp.len() - 1]));
    assert(fp.to_multiset().count(fp[fp.len() - 1]) > 0);
    assert(pairs.to_multiset().count(fp[fp.len() - 1]) > 0);
    assert(pairs.contains(fp[fp.len() - 1]));
    let k1 = pairs.lemma_contains_to_index(fp[fp.len() - 1]);
    assert(pairs[k1].0 <= hi);
    assert(pair_of(files[files.len() - 1]) == fp[fp.len() - 1]);
}

} // verus!

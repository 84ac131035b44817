//! Character-level utilities shared by the parsers and the argument
//! builders: decimal digits, digit runs, and bounded numeric parsing.

use vstd::prelude::*;
use vstd::std_specs::iter::IteratorSpec;

verus! {

/// A decimal digit `'0'..='9'`.
pub open spec fn is_digit_char(c: char) -> bool {
    '0' <= c && c <= '9'
}

/// Numeric value of a decimal digit.
pub open spec fn digit_val(c: char) -> nat
    recommends
        is_digit_char(c),
{
    (c as nat - '0' as nat) as nat
}

/// Value of a run of decimal digits, most significant first.
pub open spec fn digits_val(s: Seq<char>) -> nat
    decreases s.len(),
{
    if s.len() == 0 {
        0
    } else {
        digits_val(s.drop_last()) * 10 + digit_val(s.last())
    }
}

/// Length of the longest prefix of `s` made of decimal digits.
pub open spec fn digit_prefix_len(s: Seq<char>) -> nat
    decreases s.len(),
{
    if s.len() == 0 || !is_digit_char(s[0]) {
        0
    } else {
        1 + digit_prefix_len(s.skip(1))
    }
}

/// A word character: letter, decimal digit or underscore.
pub open spec fn is_word_char(c: char) -> bool {
    ||| ('a' <= c && c <= 'z')
    ||| ('A' <= c && c <= 'Z')
    ||| is_digit_char(c)
    ||| c == '_'
}

/// A hexadecimal digit, either case.
pub open spec fn is_hex_digit_char(c: char) -> bool {
    ||| is_digit_char(c)
    ||| ('a' <= c && c <= 'f')
    ||| ('A' <= c && c <= 'F')
}

/// A lowercase hexadecimal digit.
pub open spec fn is_lower_hex_char(c: char) -> bool {
    is_digit_char(c) || ('a' <= c && c <= 'f')
}

/// Numeric value of a hexadecimal digit.
pub open spec fn hex_val(c: char) -> nat
    recommends
        is_hex_digit_char(c),
{
    if is_digit_char(c) {
        digit_val(c)
    } else if 'a' <= c && c <= 'f' {
        (c as nat - 'a' as nat + 10) as nat
    } else {
        (c as nat - 'A' as nat + 10) as nat
    }
}

/// The decimal digit character for a value below ten.
pub open spec fn digit_char(d: nat) -> char
    recommends
        d < 10,
{
    if d == 0 {
        '0'
    } else if d == 1 {
        '1'
    } else if d == 2 {
        '2'
    } else if d == 3 {
        '3'
    } else if d == 4 {
        '4'
    } else if d == 5 {
        '5'
    } else if d == 6 {
        '6'
    } else if d == 7 {
        '7'
    } else if d == 8 {
        '8'
    } else {
        '9'
    }
}

/// The lowercase hexadecimal digit character for a value below sixteen.
pub open spec fn hex_digit_char(d: nat) -> char
    recommends
        d < 16,
{
    if d < 10 {
        digit_char(d)
    } else if d == 10 {
        'a'
    } else if d == 11 {
        'b'
    } else if d == 12 {
        'c'
    } else if d == 13 {
        'd'
    } else if d == 14 {
        'e'
    } else {
        'f'
    }
}

/// Lowercase hexadecimal rendering of a byte sequence, two digits per byte.
pub open spec fn hex_of(bytes: Seq<u8>) -> Seq<char>
    decreases bytes.len(),
{
    if bytes.len() == 0 {
        Seq::<char>::empty()
    } else {
        hex_of(bytes.drop_last()) + seq![
            hex_digit_char((bytes.last() / 16) as nat),
            hex_digit_char((bytes.last() % 16) as nat),
        ]
    }
}

/// Decimal digit characters of `n`, most significant first.
pub open spec fn dec_digits(n: nat) -> Seq<char>
    decreases n,
{
    if n < 10 {
        seq![digit_char(n)]
    } else {
        dec_digits(n / 10).push(digit_char(n % 10))
    }
}

/// Decimal rendering of an integer, with a leading minus sign when negative.
pub open spec fn dec_str(n: int) -> Seq<char> {
    if n < 0 {
        seq!['-'] + dec_digits((-n) as nat)
    } else {
        dec_digits(n as nat)
    }
}

/// Index of the first newline in `s`, or `s.len()` when there is none.
pub open spec fn first_newline(s: Seq<char>) -> nat
    decreases s.len(),
{
    if s.len() == 0 {
        0
    } else if s[0] == '\n' {
        0
    } else {
        1 + first_newline(s.skip(1))
    }
}

/// The segments of `s` delimited by newline characters. The delimiters are
/// not part of any segment; text with `k` newlines yields `k + 1` segments.
pub open spec fn split_lines(s: Seq<char>) -> Seq<Seq<char>>
    decreases s.len(),
    via split_lines_decreases
{
    let n = first_newline(s);
    if n == s.len() {
        seq![s]
    } else {
        seq![s.take(n as int)] + split_lines(s.skip(n as int + 1))
    }
}

#[via_fn]
proof fn split_lines_decreases(s: Seq<char>) {
    lemma_first_newline_le(s);
}

pub proof fn lemma_first_newline_le(s: Seq<char>)
    ensures
        first_newline(s) <= s.len(),
        forall|i: int| 0 <= i < first_newline(s) ==> s[i] != '\n',
        first_newline(s) < s.len() ==> s[first_newline(s) as int] == '\n',
    decreases s.len(),
{
    if s.len() > 0 && s[0] != '\n' {
        lemma_first_newline_le(s.skip(1));
        assert forall|i: int| 0 <= i < first_newline(s) implies s[i] != '\n' by {
            if i > 0 {
                assert(s.skip(1)[i - 1] == s[i]);
            }
        }
        if first_newline(s) < s.len() {
            assert(s.skip(1)[first_newline(s) as int - 1] == s[first_newline(s) as int]);
        }
    }
}

pub proof fn lemma_first_newline_charac(s: Seq<char>, k: nat)
    requires
        k <= s.len(),
        forall|i: int| 0 <= i < k ==> s[i] != '\n',
        k < s.len() ==> s[k as int] == '\n',
    ensures
        first_newline(s) == k,
    decreases s.len(),
{
    if s.len() > 0 && s[0] != '\n' {
        lemma_first_newline_charac(s.skip(1), (k - 1) as nat);
    }
}

pub proof fn lemma_digit_prefix_len_le(s: Seq<char>)
    ensures
        digit_prefix_len(s) <= s.len(),
        forall|i: int| 0 <= i < digit_prefix_len(s) ==> is_digit_char(s[i]),
        digit_prefix_len(s) < s.len() ==> !is_digit_char(s[digit_prefix_len(s) as int]),
    decreases s.len(),
{
    if s.len() > 0 && is_digit_char(s[0]) {
        lemma_digit_prefix_len_le(s.skip(1));
        assert forall|i: int| 0 <= i < digit_prefix_len(s) implies is_digit_char(s[i]) by {
            if i > 0 {
                assert(s.skip(1)[i - 1] == s[i]);
            }
        }
        if digit_prefix_len(s) < s.len() {
            assert(s.skip(1)[digit_prefix_len(s) as int - 1] == s[digit_prefix_len(s) as int]);
        }
    }
}

pub proof fn lemma_digit_prefix_len_charac(s: Seq<char>, k: nat)
    requires
        k <= s.len(),
        forall|i: int| 0 <= i < k ==> is_digit_char(s[i]),
        k < s.len() ==> !is_digit_char(s[k as int]),
    ensures
        digit_prefix_len(s) == k,
    decreases s.len(),
{
    if s.len() > 0 && is_digit_char(s[0]) {
        lemma_digit_prefix_len_charac(s.skip(1), (k - 1) as nat);
    }
}

/// Text of the shape an integer literal has: an optional sign followed by
/// at least one decimal digit and nothing else.
pub open spec fn int_literal_syntax(s: Seq<char>) -> bool {
    let body = if s.len() > 0 && (s[0] == '+' || s[0] == '-') {
        s.skip(1)
    } else {
        s
    };
    body.len() > 0 && digit_prefix_len(body) == body.len()
}

/// The integer an integer literal denotes.
pub open spec fn int_literal_val(s: Seq<char>) -> int {
    let body = if s.len() > 0 && (s[0] == '+' || s[0] == '-') {
        s.skip(1)
    } else {
        s
    };
    if s.len() > 0 && s[0] == '-' {
        -(digits_val(body) as int)
    } else {
        digits_val(body) as int
    }
}

/// Text that `i32`'s own parser accepts: integer-literal shape, value in
/// range.
pub open spec fn parses_as_i32(s: Seq<char>) -> bool {
    int_literal_syntax(s) && i32::MIN <= int_literal_val(s) <= i32::MAX
}

/// Reads `v[from..to]` as an `i32` literal.
pub fn parse_i32_chars(v: &Vec<char>, from: usize, to: usize) -> (r: Option<i32>)
    requires
        from <= to <= v@.len(),
    ensures
        ({
            let s = v@.subrange(from as int, to as int);
            match r {
                Option::Some(x) => parses_as_i32(s) && x == int_literal_val(s),
                Option::None => !parses_as_i32(s),
            }
        }),
{
    let ghost s = v@.subrange(from as int, to as int);
    if from == to {
        return None;
    }
    let neg = v[from] == '-';
    let signed = neg || v[from] == '+';
    let body_from = if signed {
        from + 1
    } else {
        from
    };
    let ghost body = if signed {
        s.skip(1)
    } else {
        s
    };
    proof {
        assert(body =~= v@.subrange(body_from as int, to as int));
    }
    let end = digit_run_end(v, body_from);
    if body_from >= to || end < to {
        proof {
            if body_from < to {
                lemma_digit_prefix_len_le(body);
                if int_literal_syntax(s) {
                    assert(is_digit_char(body[end - body_from]));
                    assert(body[end - body_from] == v@[end as int]);
                    assert(false);
                }
            }
        }
        return None;
    }
    proof {
        assert forall|i: int| 0 <= i < body.len() implies is_digit_char(body[i]) by {
            assert(body[i] == v@[body_from + i]);
        }
        lemma_digit_prefix_len_charac(body, body.len() as nat);
    }
    let max: u128 = if neg {
        2147483648
    } else {
        2147483647
    };
    proof {
        assert(v@.subrange(body_from as int, to as int) == body);
    }
    match parse_digits_max(v, body_from, to, max) {
        Option::Some(x) => {
            if neg {
                Some((-(x as i64)) as i32)
            } else {
                Some(x as i32)
            }
        },
        Option::None => None,
    }
}

/// A path with one more component: a separator is added unless the base
/// already ends with one or is empty.
pub open spec fn path_join(dir: Seq<char>, name: Seq<char>) -> Seq<char> {
    if dir.len() == 0 {
        name
    } else if dir.last() == '/' {
        dir + name
    } else {
        dir + seq!['/'] + name
    }
}

/// Collects the characters of a string slice into a vector, so that the
/// parsers can work positionally over `Vec<char>`.
pub fn chars_of(s: &str) -> (r: Vec<char>)
    ensures
        r@ == s@,
{
    broadcast use vstd::string::group_string_axioms;

    let mut it = s.chars();
    let mut r: Vec<char> = Vec::new();
    loop
        invariant
            it.obeys_prophetic_iter_laws(),
            it.decrease() is Some,
            r@ + it.remaining() == s@,
        ensures
            r@ == s@,
        decreases it.decrease()->0,
    {
        match it.next() {
            Some(c) => {
                r.push(c);
            },
            None => {
                break ;
            },
        }
    }
    r
}

/// Joins a directory and a file name into one path.
pub fn join_path(dir: &String, name: &String) -> (r: String)
    ensures
        r@ == path_join(dir@, name@),
{
    let dv = chars_of(dir.as_str());
    let mut s = String::new();
    s.append(dir.as_str());
    if dv.len() > 0 && dv[dv.len() - 1] != '/' {
        proof {
            reveal_strlit("/");
        }
        s.append("/");
    }
    s.append(name.as_str());
    proof {
        assert(s@ =~= path_join(dir@, name@));
    }
    s
}

/// Whether `c` is a decimal digit.
pub fn check_digit_char(c: char) -> (r: bool)
    ensures
        r == is_digit_char(c),
{
    '0' <= c && c <= '9'
}

/// Whether `c` is a lowercase hexadecimal digit.
pub fn check_lower_hex_char(c: char) -> (r: bool)
    ensures
        r == is_lower_hex_char(c),
{
    ('0' <= c && c <= '9') || ('a' <= c && c <= 'f')
}

/// Whether `c` is a word character.
pub fn check_word_char(c: char) -> (r: bool)
    ensures
        r == is_word_char(c),
{
    ('a' <= c && c <= 'z') || ('A' <= c && c <= 'Z') || ('0' <= c && c <= '9') || c == '_'
}

/// Numeric value of a decimal digit character.
pub fn digit_char_val(c: char) -> (r: u32)
    requires
        is_digit_char(c),
    ensures
        r == digit_val(c),
{
    c as u32 - '0' as u32
}

/// End of the run of decimal digits starting at `from`: the first position
/// at or after `from` that is not a digit.
pub fn digit_run_end(v: &Vec<char>, from: usize) -> (r: usize)
    requires
        from <= v@.len(),
    ensures
        from <= r <= v@.len(),
        r - from == digit_prefix_len(v@.skip(from as int)),
        forall|j: int| from <= j < r ==> is_digit_char(v@[j]),
        r < v@.len() ==> !is_digit_char(v@[r as int]),
{
    let mut i = from;
    while i < v.len() && check_digit_char(v[i])
        invariant
            from <= i <= v@.len(),
            forall|j: int| from <= j < i ==> is_digit_char(v@[j]),
        decreases v@.len() - i,
    {
        i = i + 1;
    }
    proof {
        assert forall|j: int| 0 <= j < i - from implies is_digit_char(
            v@.skip(from as int)[j],
        ) by {
            assert(v@.skip(from as int)[j] == v@[from + j]);
        }
        lemma_digit_prefix_len_charac(v@.skip(from as int), (i - from) as nat);
    }
    i
}

pub proof fn lemma_digits_val_snoc(s: Seq<char>, c: char)
    ensures
        digits_val(s.push(c)) == digits_val(s) * 10 + digit_val(c),
{
    assert(s.push(c).drop_last() =~= s);
    assert(s.push(c).last() == c);
}

/// Numeric value of the digit run `v[from..to]`, unless it exceeds `max`.
pub fn parse_digits_max(v: &Vec<char>, from: usize, to: usize, max: u128) -> (r: Option<u128>)
    requires
        from <= to <= v@.len(),
        forall|i: int| from <= i < to ==> is_digit_char(v@[i]),
        max <= u64::MAX,
    ensures
        match r {
            Some(x) => x == digits_val(v@.subrange(from as int, to as int)) && x <= max,
            None => digits_val(v@.subrange(from as int, to as int)) > max,
        },
{
    let mut i = from;
    let mut val: u128 = 0;
    let mut over: bool = false;
    while i < to
        invariant
            from <= i <= to <= v@.len(),
            forall|j: int| from <= j < to ==> is_digit_char(v@[j]),
            max <= u64::MAX,
            !over ==> val == digits_val(v@.subrange(from as int, i as int)) && val <= max,
            over ==> digits_val(v@.subrange(from as int, i as int)) > max,
        decreases to - i,
    {
        let ghost pre = v@.subrange(from as int, i as int);
        proof {
            assert(v@.subrange(from as int, i + 1) =~= pre.push(v@[i as int]));
            lemma_digits_val_snoc(pre, v@[i as int]);
        }
        if !over {
            let d = digit_char_val(v[i]);
            let next: u128 = val * 10 + d as u128;
            if next > max {
                over = true;
            } else {
                val = next;
            }
        }
        i = i + 1;
    }
    if over {
        None
    } else {
        Some(val)
    }
}

/// Appends one decimal digit character.
pub fn append_digit(s: &mut String, d: u64)
    requires
        d < 10,
    ensures
        final(s)@ == old(s)@ + seq![digit_char(d as nat)],
{
    proof {
        reveal_strlit("0");
        reveal_strlit("1");
        reveal_strlit("2");
        reveal_strlit("3");
        reveal_strlit("4");
        reveal_strlit("5");
        reveal_strlit("6");
        reveal_strlit("7");
        reveal_strlit("8");
        reveal_strlit("9");
    }
    if d == 0 {
        s.append("0");
    } else if d == 1 {
        s.append("1");
    } else if d == 2 {
        s.append("2");
    } else if d == 3 {
        s.append("3");
    } else if d == 4 {
        s.append("4");
    } else if d == 5 {
        s.append("5");
    } else if d == 6 {
        s.append("6");
    } else if d == 7 {
        s.append("7");
    } else if d == 8 {
        s.append("8");
    } else {
        s.append("9");
    }
    proof {
        assert(s@ =~= old(s)@ + seq![digit_char(d as nat)]);
    }
}

/// Appends one lowercase hexadecimal digit character.
pub fn append_lower_hex_char(s: &mut String, c: char)
    requires
        is_lower_hex_char(c),
    ensures
        final(s)@ == old(s)@ + seq![c],
{
    proof {
        reveal_strlit("0");
        reveal_strlit("1");
        reveal_strlit("2");
        reveal_strlit("3");
        reveal_strlit("4");
        reveal_strlit("5");
        reveal_strlit("6");
        reveal_strlit("7");
        reveal_strlit("8");
        reveal_strlit("9");
        reveal_strlit("a");
        reveal_strlit("b");
        reveal_strlit("c");
        reveal_strlit("d");
        reveal_strlit("e");
        reveal_strlit("f");
    }
    if c == '0' {
        s.append("0");
    } else if c == '1' {
        s.append("1");
    } else if c == '2' {
        s.append("2");
    } else if c == '3' {
        s.append("3");
    } else if c == '4' {
        s.append("4");
    } else if c == '5' {
        s.append("5");
    } else if c == '6' {
        s.append("6");
    } else if c == '7' {
        s.append("7");
    } else if c == '8' {
        s.append("8");
    } else if c == '9' {
        s.append("9");
    } else if c == 'a' {
        s.append("a");
    } else if c == 'b' {
        s.append("b");
    } else if c == 'c' {
        s.append("c");
    } else if c == 'd' {
        s.append("d");
    } else {
        if c == 'e' {
            s.append("e");
        } else {
            s.append("f");
        }
    }
    proof {
        assert(s@ =~= old(s)@ + seq![c]);
    }
}

/// Appends the decimal rendering of `n`.
pub fn append_u64(s: &mut String, n: u64)
    ensures
        final(s)@ == old(s)@ + dec_digits(n as nat),
    decreases n,
{
    if n < 10 {
        append_digit(s, n);
    } else {
        append_u64(s, n / 10);
        append_digit(s, n % 10);
        proof {
            assert(s@ =~= old(s)@ + dec_digits(n as nat));
        }
    }
}

/// Appends the decimal rendering of a signed value, minus sign included.
pub fn append_i64(s: &mut String, n: i64)
    requires
        n > i64::MIN,
    ensures
        final(s)@ == old(s)@ + dec_str(n as int),
{
    if n < 0 {
        proof {
            reveal_strlit("-");
        }
        s.append("-");
        append_u64(s, (-n) as u64);
        proof {
            assert(s@ =~= old(s)@ + dec_str(n as int));
        }
    } else {
        append_u64(s, n as u64);
    }
}

/// Decimal rendering of an unsigned value as a fresh string.
pub fn decimal_u64(n: u64) -> (r: String)
    ensures
        r@ == dec_digits(n as nat),
{
    let mut s = String::new();
    append_u64(&mut s, n);
    proof {
        assert(s@ =~= dec_digits(n as nat));
    }
    s
}

/// Decimal rendering of a signed value as a fresh string.
pub fn decimal_i64(n: i64) -> (r: String)
    requires
        n > i64::MIN,
    ensures
        r@ == dec_str(n as int),
{
    let mut s = String::new();
    append_i64(&mut s, n);
    proof {
        assert(s@ =~= dec_str(n as int));
    }
    s
}

/// Splits `v` at newline characters; the newlines are dropped and text with
/// `k` newlines yields `k + 1` lines.
pub fn split_lines_exec(v: &Vec<char>) -> (r: Vec<Vec<char>>)
    ensures
        r@.map_values(|l: Vec<char>| l@) == split_lines(v@),
{
    let mut r: Vec<Vec<char>> = Vec::new();
    let mut pos: usize = 0;
    proof {
        assert(v@.skip(0) =~= v@);
        assert(r@.map_values(|l: Vec<char>| l@) =~= Seq::<Seq<char>>::empty());
    }
    loop
        invariant_except_break
            pos <= v@.len(),
            split_lines(v@) =~= r@.map_values(|l: Vec<char>| l@) + split_lines(
                v@.skip(pos as int),
            ),
        ensures
            r@.map_values(|l: Vec<char>| l@) =~= split_lines(v@),
        decreases v@.len() - pos,
    {
        let mut n = pos;
        while n < v.len() && v[n] != '\n'
            invariant
                pos <= n <= v@.len(),
                forall|j: int| pos <= j < n ==> v@[j] != '\n',
            decreases v@.len() - n,
        {
            n = n + 1;
        }
        proof {
            assert forall|j: int| 0 <= j < n - pos implies v@.skip(pos as int)[j] != '\n' by {
                assert(v@.skip(pos as int)[j] == v@[pos + j]);
            }
            lemma_first_newline_charac(v@.skip(pos as int), (n - pos) as nat);
        }
        let mut line: Vec<char> = Vec::new();
        let mut i = pos;
        while i < n
            invariant
                pos <= i <= n <= v@.len(),
                line@ =~= v@.subrange(pos as int, i as int),
            decreases n - i,
        {
            line.push(v[i]);
            i = i + 1;
        }
        proof {
            assert(line@ =~= v@.skip(pos as int).take(n - pos));
        }
        let ghost prev = r@.map_values(|l: Vec<char>| l@);
        let ghost rest = v@.skip(pos as int);
        r.push(line);
        proof {
            assert(r@.map_values(|l: Vec<char>| l@) =~= prev.push(line@));
        }
        if n == v.len() {
            proof {
                assert(rest.take(n - pos) =~= rest);
                assert(split_lines(rest) =~= seq![rest]);
                assert(r@.map_values(|l: Vec<char>| l@) =~= prev + seq![rest]);
                assert(r@.map_values(|l: Vec<char>| l@) =~= split_lines(v@));
            }
            break ;
        }
        proof {
            assert(rest.skip(n - pos + 1) =~= v@.skip(n as int + 1));
            assert(split_lines(rest) =~= seq![rest.take(n - pos)] + split_lines(
                v@.skip(n as int + 1),
            ));
            assert(prev.push(line@) + split_lines(v@.skip(n as int + 1)) =~= prev + split_lines(
                rest,
            ));
        }
        pos = n + 1;
    }
    r
}

} // verus!

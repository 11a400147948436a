//! Small verified text utilities: decimal rendering of counters, byte-level
//! substring search, and stripping of trailing line terminators.

use vstd::prelude::*;
use vstd::string::StringExecFns;

verus! {

/// The character for one decimal digit.
pub open spec fn spec_digit_char(d: nat) -> char {
    if d == 0 {
        '0'
    } else if d == 1 {
        '1'
    } else if d == 2 {
        '2'
    } else if d == 3 {
        '3'
    } else if d == 4 {
        '4'
    } else if d == 5 {
        '5'
    } else if d == 6 {
        '6'
    } else if d == 7 {
        '7'
    } else if d == 8 {
        '8'
    } else {
        '9'
    }
}

/// The decimal rendering of a number, most significant digit first.
pub open spec fn spec_dec(n: nat) -> Seq<char>
    decreases n,
{
    if n < 10 {
        seq![spec_digit_char(n)]
    } else {
        spec_dec(n / 10).push(spec_digit_char(n % 10))
    }
}

fn digit_str(d: u64) -> (r: &'static str)
    requires
        d < 10,
    ensures
        r@ == seq![spec_digit_char(d as nat)],
{
    proof {
        reveal_strlit("0");
        reveal_strlit("1");
        reveal_strlit("2");
        reveal_strlit("3");
        reveal_strlit("4");
        reveal_strlit("5");
        reveal_strlit("6");
        reveal_strlit("7");
        reveal_strlit("8");
        reveal_strlit("9");
    }
    match d {
        0 => "0",
        1 => "1",
        2 => "2",
        3 => "3",
        4 => "4",
        5 => "5",
        6 => "6",
        7 => "7",
        8 => "8",
        _ => "9",
    }
}

/// Renders a number in decimal.
pub fn u64_to_string(n: u64) -> (r: String)
    ensures
        r@ == spec_dec(n as nat),
    decreases n,
{
    if n < 10 {
        String::from_str(digit_str(n))
    } else {
        let mut s = u64_to_string(n / 10);
        s.append(digit_str(n % 10));
        s
    }
}

/// Whether `needle` occurs in `hay` starting at index `i`.
pub open spec fn spec_contains_at(hay: Seq<u8>, needle: Seq<u8>, i: int) -> bool {
    0 <= i && i + needle.len() <= hay.len() && hay.subrange(i, i + needle.len()) == needle
}

/// Whether `needle` occurs anywhere in `hay`.
pub open spec fn spec_contains(hay: Seq<u8>, needle: Seq<u8>) -> bool {
    exists|i: int| spec_contains_at(hay, needle, i)
}

/// Byte-level substring search, the semantics of `str::contains` on the
/// underlying encodings.
pub fn contains_bytes(hay: &[u8], needle: &[u8]) -> (r: bool)
    ensures
        r == spec_contains(hay@, needle@),
{
    let n: usize = hay.len();
    let m: usize = needle.len();
    if m > n {
        proof {
            assert(forall|i: int| !spec_contains_at(hay@, needle@, i));
        }
        return false;
    }
    if m == 0 {
        proof {
            assert(hay@.subrange(0, 0) =~= needle@);
            assert(spec_contains_at(hay@, needle@, 0));
        }
        return true;
    }
    let mut i: usize = 0;
    while i <= n - m
        invariant
            1 <= m <= n,
            n == hay@.len(),
            m == needle@.len(),
            0 <= i <= n - m + 1,
            forall|k: int| 0 <= k < i ==> !spec_contains_at(hay@, needle@, k),
        decreases n - m + 1 - i,
    {
        let mut j: usize = 0;
        let mut matched: bool = true;
        while matched && j < m
            invariant
                1 <= m <= n,
                n == hay@.len(),
                m == needle@.len(),
                0 <= i <= n - m,
                0 <= j <= m,
                matched ==> forall|k: int| 0 <= k < j ==> hay@[i + k] == needle@[k],
                !matched ==> !spec_contains_at(hay@, needle@, i as int),
            decreases m - j,
        {
            if hay[i + j] != needle[j] {
                proof {
                    assert(hay@.subrange(i as int, i + m)[j as int] == hay@[i + j]);
                }
                matched = false;
            }
            j = j + 1;
        }
        if matched {
            proof {
                assert forall|k: int| 0 <= k < m implies hay@.subrange(i as int, i + m)[k]
                    == needle@[k] by {
                    assert(hay@[i + k] == needle@[k]);
                }
                assert(hay@.subrange(i as int, i + m) =~= needle@);
                assert(spec_contains_at(hay@, needle@, i as int));
            }
            return true;
        }
        i = i + 1;
    }
    proof {
        assert(forall|k: int| 0 <= k < i ==> !spec_contains_at(hay@, needle@, k));
        assert(forall|k: int| !spec_contains_at(hay@, needle@, k));
    }
    false
}

/// `bytes` with every trailing line-feed byte removed.
pub open spec fn spec_trim_nl(bytes: Seq<u8>) -> Seq<u8>
    decreases bytes.len(),
{
    if bytes.len() > 0 && bytes.last() == 10u8 {
        spec_trim_nl(bytes.drop_last())
    } else {
        bytes
    }
}

/// `bytes` with every trailing carriage-return byte removed.
pub open spec fn spec_trim_cr(bytes: Seq<u8>) -> Seq<u8>
    decreases bytes.len(),
{
    if bytes.len() > 0 && bytes.last() == 13u8 {
        spec_trim_cr(bytes.drop_last())
    } else {
        bytes
    }
}

/// `bytes` with trailing line feeds stripped, then trailing carriage returns:
/// the treatment every raw line gets before it is interpreted.
pub open spec fn spec_trim_eol(bytes: Seq<u8>) -> Seq<u8> {
    spec_trim_cr(spec_trim_nl(bytes))
}

/// Strips trailing line feeds, then trailing carriage returns.
pub fn trim_eol(line: &[u8]) -> (r: &[u8])
    ensures
        r@ == spec_trim_eol(line@),
{
    let mut end: usize = line.len();
    proof {
        assert(line@.take(line@.len() as int) =~= line@);
    }
    while end > 0 && line[end - 1] == 10u8
        invariant
            0 <= end <= line@.len(),
            spec_trim_nl(line@) == spec_trim_nl(line@.take(end as int)),
        decreases end,
    {
        proof {
            assert(line@.take(end as int).drop_last() =~= line@.take(end as int - 1));
        }
        end = end - 1;
    }
    proof {
        assert(spec_trim_nl(line@.take(end as int)) == line@.take(end as int));
    }
    let ghost nl_end: int = end as int;
    while end > 0 && line[end - 1] == 13u8
        invariant
            0 <= end <= nl_end <= line@.len(),
            spec_trim_nl(line@) == line@.take(nl_end),
            spec_trim_cr(line@.take(nl_end)) == spec_trim_cr(line@.take(end as int)),
        decreases end,
    {
        proof {
            assert(line@.take(end as int).drop_last() =~= line@.take(end as int - 1));
        }
        end = end - 1;
    }
    proof {
        assert(spec_trim_cr(line@.take(end as int)) == line@.take(end as int));
        assert(line@.take(end as int) =~= line@.subrange(0, end as int));
    }
    &line[0..end]
}

/// Whether the character counts as whitespace for trimming, matching the
/// Unicode `White_Space` property used by `str::trim`.
pub open spec fn spec_is_ws(c: char) -> bool {
    let u = c as int;
    (9 <= u <= 13) || u == 32 || u == 0x85 || u == 0xA0 || u == 0x1680 || (0x2000 <= u <= 0x200A)
        || u == 0x2028 || u == 0x2029 || u == 0x202F || u == 0x205F || u == 0x3000
}

/// Whitespace test on one character.
pub fn is_ws(c: char) -> (r: bool)
    ensures
        r == spec_is_ws(c),
{
    let u: u32 = c as u32;
    (9 <= u && u <= 13) || u == 32 || u == 0x85 || u == 0xA0 || u == 0x1680 || (0x2000 <= u && u
        <= 0x200A) || u == 0x2028 || u == 0x2029 || u == 0x202F || u == 0x205F || u == 0x3000
}

/// `s` with leading whitespace removed.
pub open spec fn spec_trim_start(s: Seq<char>) -> Seq<char>
    decreases s.len(),
{
    if s.len() > 0 && spec_is_ws(s[0]) {
        spec_trim_start(s.drop_first())
    } else {
        s
    }
}

/// `s` with trailing whitespace removed.
pub open spec fn spec_trim_end(s: Seq<char>) -> Seq<char>
    decreases s.len(),
{
    if s.len() > 0 && spec_is_ws(s.last()) {
        spec_trim_end(s.drop_last())
    } else {
        s
    }
}

/// `s` with whitespace removed at both ends, the behaviour of `str::trim`.
pub open spec fn spec_trim(s: Seq<char>) -> Seq<char> {
    spec_trim_end(spec_trim_start(s))
}

/// Strips whitespace from both ends of a string.
pub fn trim_str(s: &str) -> (r: &str)
    ensures
        r@ == spec_trim(s@),
{
    let n: usize = s.unicode_len();
    let mut a: usize = 0;
    proof {
        assert(s@.skip(0) =~= s@);
    }
    while a < n && is_ws(s.get_char(a))
        invariant
            n == s@.len(),
            0 <= a <= n,
            spec_trim_start(s@) == spec_trim_start(s@.skip(a as int)),
        decreases n - a,
    {
        proof {
            assert(s@.skip(a as int).drop_first() =~= s@.skip(a as int + 1));
            assert(s@.skip(a as int)[0] == s@[a as int]);
        }
        a = a + 1;
    }
    proof {
        assert(spec_trim_start(s@.skip(a as int)) == s@.skip(a as int));
    }
    let ghost start: int = a as int;
    let mut b: usize = n;
    while b > a && is_ws(s.get_char(b - 1))
        invariant
            n == s@.len(),
            0 <= a <= b <= n,
            start == a as int,
            spec_trim_start(s@) == s@.skip(start),
            spec_trim_end(s@.skip(start)) == spec_trim_end(s@.subrange(start, b as int)),
        decreases b,
    {
        proof {
            assert(s@.subrange(start, b as int).drop_last() =~= s@.subrange(start, b as int - 1));
            assert(s@.subrange(start, b as int).last() == s@[b - 1]);
        }
        b = b - 1;
    }
    proof {
        assert(spec_trim_end(s@.subrange(start, b as int)) == s@.subrange(start, b as int));
    }
    s.substring_char(a, b)
}

/// Case-blind equality of one character against an expected lower-case one.
pub open spec fn spec_lower_eq(a: char, b: char) -> bool {
    a == b || (65 <= a as int <= 90 && a as int + 32 == b as int)
}

/// Whether `s` equals `t` after lower-casing the ASCII letters of `s`;
/// `t` is expected to be already lower-case.
pub open spec fn spec_matches_ci(s: Seq<char>, t: Seq<char>) -> bool {
    s.len() == t.len() && forall|i: int| 0 <= i < s.len() ==> spec_lower_eq(s[i], t[i])
}

/// Compares `s` case-blind (ASCII) against a lower-case token `t`.
pub fn matches_ci(s: &str, t: &str) -> (r: bool)
    ensures
        r == spec_matches_ci(s@, t@),
{
    let n: usize = s.unicode_len();
    if n != t.unicode_len() {
        return false;
    }
    let mut i: usize = 0;
    while i < n
        invariant
            n == s@.len(),
            n == t@.len(),
            0 <= i <= n,
            forall|k: int| 0 <= k < i ==> spec_lower_eq(s@[k], t@[k]),
        decreases n - i,
    {
        let ca: u32 = s.get_char(i) as u32;
        let cb: u32 = t.get_char(i) as u32;
        if !(ca == cb || (65 <= ca && ca <= 90 && ca + 32 == cb)) {
            return false;
        }
        i = i + 1;
    }
    true
}

/// Whether every character of the sequence is a decimal digit.
pub open spec fn spec_all_digits(s: Seq<char>) -> bool {
    forall|i: int| 0 <= i < s.len() ==> spec_is_digit(s[i])
}

/// Whether the character is a decimal digit.
pub open spec fn spec_is_digit(c: char) -> bool {
    48 <= c as int <= 57
}

/// The numeric value of a digit sequence, most significant digit first.
pub open spec fn spec_digits_val(s: Seq<char>) -> nat
    decreases s.len(),
{
    if s.len() == 0 {
        0
    } else {
        spec_digits_val(s.drop_last()) * 10 + (s.last() as int - 48) as nat
    }
}

/// What `u64::from_str` accepts: an optional leading plus sign, then one or
/// more decimal digits whose value fits the type.
pub open spec fn spec_parse_u64(s: Seq<char>) -> Option<u64> {
    let digits = if s.len() > 0 && s[0] == '+' {
        s.drop_first()
    } else {
        s
    };
    if digits.len() == 0 || !spec_all_digits(digits) {
        None::<u64>
    } else if spec_digits_val(digits) > u64::MAX {
        None::<u64>
    } else {
        Some(spec_digits_val(digits) as u64)
    }
}

proof fn lemma_digits_val_grows(s: Seq<char>, a: int, b: int)
    requires
        0 <= a <= b <= s.len(),
    ensures
        spec_digits_val(s.take(a)) <= spec_digits_val(s.take(b)),
    decreases b - a,
{
    if a < b {
        lemma_digits_val_grows(s, a, b - 1);
        assert(s.take(b).drop_last() =~= s.take(b - 1));
    }
}

/// Parses a decimal unsigned number the way `u64::from_str` does.
#[verifier::loop_isolation(false)]
pub fn parse_u64_str(s: &str) -> (r: Option<u64>)
    ensures
        r == spec_parse_u64(s@),
{
    let n: usize = s.unicode_len();
    let mut start: usize = 0;
    if n > 0 && s.get_char(0) == '+' {
        start = 1;
    }
    let ghost digits: Seq<char> = if s@.len() > 0 && s@[0] == '+' {
        s@.drop_first()
    } else {
        s@
    };
    proof {
        assert(digits =~= s@.subrange(start as int, n as int));
    }
    if start >= n {
        return None;
    }
    let mut val: u64 = 0;
    let mut i: usize = start;
    while i < n
        invariant
            n == s@.len(),
            0 <= start <= i <= n,
            start < n,
            digits =~= s@.subrange(start as int, n as int),
            forall|k: int| start <= k < i ==> spec_is_digit(s@[k]),
            val == spec_digits_val(digits.take(i - start)),
        decreases n - i,
    {
        let c: u32 = s.get_char(i) as u32;
        if !(48 <= c && c <= 57) {
            proof {
                assert(!spec_all_digits(digits)) by {
                    assert(!spec_is_digit(digits[i - start]));
                }
            }
            return None;
        }
        let d: u64 = (c - 48) as u64;
        proof {
            assert(digits.take(i - start + 1).drop_last() =~= digits.take(i - start));
            assert(digits.take(i - start + 1).last() == s@[i as int]);
        }
        let next = match val.checked_mul(10) {
            Some(v) => v.checked_add(d),
            None => None,
        };
        match next {
            Some(v) => {
                val = v;
            },
            None => {
                proof {
                    assert(spec_digits_val(digits.take(i - start + 1)) > u64::MAX);
                    lemma_digits_val_grows(digits, i - start + 1, digits.len() as int);
                    assert(digits.take(digits.len() as int) =~= digits);
                    assert(spec_digits_val(digits) > u64::MAX);
                }
                return None;
            },
        }
        i = i + 1;
    }
    proof {
        assert(digits.take(digits.len() as int) =~= digits);
    }
    Some(val)
}

} // verus!

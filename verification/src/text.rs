//! Text helpers: trimming, splitting, comparison and decimal parsing.

use vstd::prelude::*;

verus! {

broadcast use vstd::string::group_string_axioms;

/// The characters that have the Unicode `White_Space` property.
pub open spec fn is_whitespace(c: char) -> bool {
    let u = c as u32;
    ||| 0x09 <= u <= 0x0D
    ||| u == 0x20
    ||| u == 0x85
    ||| u == 0xA0
    ||| u == 0x1680
    ||| 0x2000 <= u <= 0x200A
    ||| u == 0x2028
    ||| u == 0x2029
    ||| u == 0x202F
    ||| u == 0x205F
    ||| u == 0x3000
}

/// `s` without its leading whitespace.
pub open spec fn trim_start_chars(s: Seq<char>) -> Seq<char>
    decreases s.len(),
{
    if s.len() > 0 && is_whitespace(s[0]) {
        trim_start_chars(s.drop_first())
    } else {
        s
    }
}

/// `s` without its trailing whitespace.
pub open spec fn trim_end_chars(s: Seq<char>) -> Seq<char>
    decreases s.len(),
{
    if s.len() > 0 && is_whitespace(s.last()) {
        trim_end_chars(s.drop_last())
    } else {
        s
    }
}

/// `s` without leading and trailing whitespace.
pub open spec fn trimmed(s: Seq<char>) -> Seq<char> {
    trim_end_chars(trim_start_chars(s))
}

proof fn lemma_trim_start_shape(s: Seq<char>)
    ensures
        trim_start_chars(s).len() == 0 || !is_whitespace(trim_start_chars(s)[0]),
        trim_start_chars(s).len() <= s.len(),
        trim_start_chars(s) == s.subrange(s.len() - trim_start_chars(s).len(), s.len() as int),
    decreases s.len(),
{
    if s.len() > 0 && is_whitespace(s[0]) {
        let t = s.drop_first();
        lemma_trim_start_shape(t);
        let r = trim_start_chars(t);
        assert(t.subrange(t.len() - r.len(), t.len() as int) =~= s.subrange(
            s.len() - r.len(),
            s.len() as int,
        ));
    } else {
        assert(s.subrange(0, s.len() as int) =~= s);
    }
}

proof fn lemma_trim_end_shape(s: Seq<char>)
    ensures
        trim_end_chars(s).len() == 0 || !is_whitespace(trim_end_chars(s).last()),
        trim_end_chars(s).len() <= s.len(),
        trim_end_chars(s) == s.subrange(0, trim_end_chars(s).len() as int),
    decreases s.len(),
{
    if s.len() > 0 && is_whitespace(s.last()) {
        let t = s.drop_last();
        lemma_trim_end_shape(t);
        let r = trim_end_chars(t);
        assert(t.subrange(0, r.len() as int) =~= s.subrange(0, r.len() as int));
    } else {
        assert(s.subrange(0, s.len() as int) =~= s);
    }
}

/// Trimming a trimmed text changes nothing.
pub proof fn lemma_trimmed_is_trimmed(s: Seq<char>)
    ensures
        trimmed(trimmed(s)) == trimmed(s),
{
    let a = trim_start_chars(s);
    lemma_trim_start_shape(s);
    let t = trim_end_chars(a);
    lemma_trim_end_shape(a);
    if t.len() > 0 {
        assert(t[0] == a[0]);
        assert(trim_start_chars(t) == t);
        assert(trim_end_chars(t) == t);
    } else {
        assert(trim_start_chars(t) == t);
        assert(trim_end_chars(t) == t);
    }
}

/// `std::primitive::str::trim`: the slice without leading and trailing
/// whitespace, whitespace being the Unicode `White_Space` property.
#[verifier::external_body]
pub(crate) fn trim(s: &str) -> (t: &str)
    ensures
        t@ == trimmed(s@),
{
    s.trim()
}

/// `std::primitive::str::split_once` with a `,` delimiter: the parts before
/// and after the first `,`, or `None` where the string holds no `,`.
#[verifier::external_body]
pub(crate) fn split_once_comma(s: &str) -> (parts: Option<(&str, &str)>)
    ensures
        match parts {
            Some((before, after)) => {
                let i = before@.len() as int;
                &&& i < s@.len()
                &&& s@[i] == ','
                &&& before@ == s@.subrange(0, i)
                &&& after@ == s@.subrange(i + 1, s@.len() as int)
                &&& !before@.contains(',')
            },
            None => !s@.contains(','),
        },
{
    s.split_once(',')
}

/// Whether two string slices hold the same characters.
pub fn str_eq(a: &str, b: &str) -> (eq: bool)
    ensures
        eq == (a@ == b@),
{
    a.to_owned() == b.to_owned()
}

/// A new `String` holding `a` followed by `b`.
pub fn concat(a: &str, b: &str) -> (s: String)
    ensures
        s@ == a@ + b@,
{
    let mut s = a.to_owned();
    s.append(b);
    s
}

pub open spec fn is_ascii_digit(c: char) -> bool {
    '0' <= c && c <= '9'
}

/// The value of a sequence of decimal digits, most significant first.
pub open spec fn digits_value(s: Seq<char>) -> int
    decreases s.len(),
{
    if s.len() == 0 {
        0
    } else {
        digits_value(s.drop_last()) * 10 + (s.last() as int - '0' as int)
    }
}

pub open spec fn all_ascii_digits(s: Seq<char>) -> bool {
    forall|i: int| 0 <= i < s.len() ==> is_ascii_digit(#[trigger] s[i])
}

/// What `u32::from_str` accepts: an optional `+`, then one or more decimal
/// digits whose value fits in a `u32`.
pub open spec fn spec_parse_u32(s: Seq<char>) -> Option<u32> {
    let digits = if s.len() > 0 && s[0] == '+' { s.drop_first() } else { s };
    if digits.len() > 0 && all_ascii_digits(digits) && digits_value(digits) <= u32::MAX {
        Some(digits_value(digits) as u32)
    } else {
        None
    }
}

proof fn lemma_digits_value_nonneg(d: Seq<char>)
    requires
        all_ascii_digits(d),
    ensures
        digits_value(d) >= 0,
    decreases d.len(),
{
    if d.len() > 0 {
        lemma_digits_value_nonneg(d.drop_last());
    }
}

/// The value of all-digit text is at least that of any of its prefixes.
proof fn lemma_digits_value_prefix(d: Seq<char>, k: int)
    requires
        0 <= k <= d.len(),
        all_ascii_digits(d),
    ensures
        digits_value(d.subrange(0, k)) <= digits_value(d),
    decreases d.len(),
{
    if k < d.len() {
        let shorter = d.drop_last();
        assert(shorter.subrange(0, k) =~= d.subrange(0, k));
        lemma_digits_value_prefix(shorter, k);
        lemma_digits_value_nonneg(shorter);
    } else {
        assert(d.subrange(0, k) =~= d);
    }
}

/// `u32::from_str` on decimal text.
pub fn parse_u32(s: &str) -> (n: Option<u32>)
    ensures
        n == spec_parse_u32(s@),
{
    broadcast use vstd::string::is_ascii_spec_bytes;
    if !s.is_ascii() {
        proof {
            let i = choose|i: int| 0 <= i < s@.len() && !('\0' <= #[trigger] s@[i] <= '\u{7f}');
            let digits = if s@.len() > 0 && s@[0] == '+' { s@.drop_first() } else { s@ };
            if s@.len() > 0 && s@[0] == '+' {
                assert(i > 0);
                assert(digits[i - 1] == s@[i]);
                assert(!is_ascii_digit(digits[i - 1]));
            } else {
                assert(!is_ascii_digit(digits[i]));
            }
        }
        return None;
    }
    let bytes = s.as_bytes();
    let n = bytes.len();
    assert(bytes@.len() == s@.len());
    let start: usize = if n > 0 && bytes[0] == 43u8 { 1 } else { 0 };
    let ghost digits = s@.subrange(start as int, s@.len() as int);
    assert(n > 0 ==> (bytes@[0] == 43u8 <==> s@[0] == '+'));
    assert(start == 1 ==> digits =~= s@.drop_first());
    assert(start == 0 ==> digits =~= s@);
    assert(digits == (if s@.len() > 0 && s@[0] == '+' { s@.drop_first() } else { s@ }));
    if start == n {
        return None;
    }
    let mut acc: u64 = 0;
    let mut i: usize = start;
    while i < n
        invariant
            start <= i <= n,
            n == s@.len(),
            bytes@.len() == n,
            start < n,
            forall|j: int| 0 <= j < n ==> bytes@[j] == s@[j] as u8,
            vstd::utf8::is_ascii_chars(s@),
            digits == s@.subrange(start as int, n as int),
            digits == (if s@.len() > 0 && s@[0] == '+' { s@.drop_first() } else { s@ }),
            all_ascii_digits(digits.subrange(0, i - start)),
            acc == digits_value(digits.subrange(0, i - start)),
            acc <= u32::MAX,
        decreases n - i,
    {
        let b = bytes[i];
        let ghost k = i - start;
        assert(digits[k] == s@[i as int]);
        if b < 48u8 || b > 57u8 {
            proof {
                assert(!is_ascii_digit(digits[k]));
            }
            return None;
        }
        let d: u64 = (b - 48u8) as u64;
        assert(digits.subrange(0, k + 1).drop_last() =~= digits.subrange(0, k));
        assert(s@[i as int] as int - '0' as int == d);
        acc = acc * 10 + d;
        i = i + 1;
        assert(all_ascii_digits(digits.subrange(0, i - start)));
        if acc > 4294967295u64 {
            proof {
                if all_ascii_digits(digits) {
                    lemma_digits_value_prefix(digits, i - start);
                }
            }
            return None;
        }
    }
    assert(digits.subrange(0, n - start) =~= digits);
    Some(acc as u32)
}

} // verus!

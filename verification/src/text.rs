//! What the standard library's text functions compute, stated over sequences
//! of characters, and the calls into them.

use vstd::prelude::*;

verus! {

/// The characters with the Unicode property `White_Space`.
pub open spec fn is_white_space(c: char) -> bool {
    ||| '\u{0009}' <= c <= '\u{000D}'
    ||| c == '\u{0020}'
    ||| c == '\u{0085}'
    ||| c == '\u{00A0}'
    ||| c == '\u{1680}'
    ||| '\u{2000}' <= c <= '\u{200A}'
    ||| c == '\u{2028}'
    ||| c == '\u{2029}'
    ||| c == '\u{202F}'
    ||| c == '\u{205F}'
    ||| c == '\u{3000}'
}

/// `s` without its leading white space.
pub open spec fn trim_start_of(s: Seq<char>) -> Seq<char>
    decreases s.len(),
{
    if s.len() > 0 && is_white_space(s[0]) {
        trim_start_of(s.drop_first())
    } else {
        s
    }
}

/// `s` without its trailing white space.
pub open spec fn trim_end_of(s: Seq<char>) -> Seq<char>
    decreases s.len(),
{
    if s.len() > 0 && is_white_space(s.last()) {
        trim_end_of(s.drop_last())
    } else {
        s
    }
}

/// `s` without its leading and trailing white space.
pub open spec fn trimmed(s: Seq<char>) -> Seq<char> {
    trim_end_of(trim_start_of(s))
}

/// Whether `s` ends with `suffix`.
pub open spec fn ends_with(s: Seq<char>, suffix: Seq<char>) -> bool {
    s.len() >= suffix.len() && s.subrange(s.len() - suffix.len(), s.len() as int) == suffix
}

/// Whether `c` is one of the ten decimal digits.
pub open spec fn is_digit(c: char) -> bool {
    '0' <= c <= '9'
}

/// The value of a decimal digit.
pub open spec fn digit_value(c: char) -> int {
    c as int - '0' as int
}

/// Whether every character of `s` is a decimal digit.
pub open spec fn all_digits(s: Seq<char>) -> bool {
    forall|i: int| 0 <= i < s.len() ==> is_digit(#[trigger] s[i])
}

/// The number that a sequence of decimal digits writes; 0 for none.
pub open spec fn digits_value(s: Seq<char>) -> int
    decreases s.len(),
{
    if s.len() == 0 {
        0
    } else {
        digits_value(s.drop_last()) * 10 + digit_value(s.last())
    }
}

/// The number that `s` writes as an unsigned decimal of at most `max`: an
/// optional `+`, then at least one digit and nothing but digits. Anything
/// else, and a number above `max`, is no number.
pub open spec fn unsigned_decimal(s: Seq<char>, max: int) -> Option<int> {
    let digits = if s.len() > 0 && s[0] == '+' {
        s.drop_first()
    } else {
        s
    };
    if digits.len() > 0 && all_digits(digits) && digits_value(digits) <= max {
        Some(digits_value(digits))
    } else {
        None
    }
}

/// Calls `str::trim`, which returns the slice without its leading and
/// trailing white space, white space being the characters with the Unicode
/// property `White_Space`.
#[verifier::external_body]
pub(crate) fn trim_text<'a>(s: &'a str) -> (r: &'a str)
    ensures
        r@ == trimmed(s@),
{
    s.trim()
}

/// Calls `str::strip_suffix` with a string pattern, which returns the part of
/// the slice before the suffix when the slice ends with it, and nothing when
/// it does not.
#[verifier::external_body]
pub(crate) fn strip_suffix_text<'a>(s: &'a str, suffix: &str) -> (r: Option<&'a str>)
    ensures
        match r {
            Some(t) => ends_with(s@, suffix@) && t@ == s@.subrange(0, s@.len() - suffix@.len()),
            None => !ends_with(s@, suffix@),
        },
{
    s.strip_suffix(suffix)
}

/// Calls `str::parse::<usize>`, which accepts an optional `+` followed by
/// decimal digits only, and fails on an empty string, on any other character
/// and on a number that does not fit.
#[verifier::external_body]
pub(crate) fn parse_usize(s: &str) -> (r: Option<usize>)
    ensures
        match r {
            Some(n) => unsigned_decimal(s@, usize::MAX as int) == Some(n as int),
            None => unsigned_decimal(s@, usize::MAX as int) is None,
        },
{
    s.parse::<usize>().ok()
}

/// Calls `str::parse::<u64>`, which accepts an optional `+` followed by
/// decimal digits only, and fails on an empty string, on any other character
/// and on a number that does not fit.
#[verifier::external_body]
pub(crate) fn parse_u64(s: &str) -> (r: Option<u64>)
    ensures
        match r {
            Some(n) => unsigned_decimal(s@, u64::MAX as int) == Some(n as int),
            None => unsigned_decimal(s@, u64::MAX as int) is None,
        },
{
    s.parse::<u64>().ok()
}

} // verus!

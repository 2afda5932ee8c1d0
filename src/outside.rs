//! The calls that the library makes into std and outside crates.
use std::fmt::Write;
use vstd::prelude::*;
use crate::decimal::decimal_up_to;

verus! {

/// Relies on `String::push`: the character is appended at the end.
#[verifier::external_body]
pub(crate) fn push_char(s: &mut String, c: char)
    ensures
        final(s)@ == old(s)@.push(c),
{
    s.push(c)
}

/// Relies on `rand::random`: a value drawn from the thread-local generator.
/// Nothing is promised of it.
#[verifier::external_body]
pub(crate) fn random_u16() -> u16 {
    rand::random::<u16>()
}

/// Relies on `chrono::Utc::now` and `DateTime::format`: the current UTC time,
/// written out with the strftime-style `pattern`. It depends on the clock, so
/// nothing is promised of the text; a pattern that chrono cannot follow ends
/// the text early instead of failing.
#[verifier::external_body]
pub(crate) fn now_formatted(pattern: &str) -> String {
    let mut text = String::new();
    drop(write!(text, "{}", chrono::Utc::now().format(pattern)));
    text
}

/// Relies on `u8::from_str` (what `str::parse::<u8>` calls): it accepts an
/// optional `+` followed by decimal digits only, and fails when the value
/// does not fit in a byte.
#[verifier::external_body]
pub(crate) fn parse_u8(s: &str) -> (r: Option<u8>)
    ensures
        match r {
            Some(n) => decimal_up_to(s@, 255) == Some(n as int),
            None => decimal_up_to(s@, 255) is None,
        },
{
    s.parse::<u8>().ok()
}

/// Relies on `usize::from_str` (what `str::parse::<usize>` calls): it accepts
/// an optional `+` followed by decimal digits only, and fails when the value
/// does not fit.
#[verifier::external_body]
pub(crate) fn parse_usize(s: &str) -> (r: Option<usize>)
    ensures
        match r {
            Some(n) => decimal_up_to(s@, usize::MAX as int) == Some(n as int),
            None => decimal_up_to(s@, usize::MAX as int) is None,
        },
{
    s.parse::<usize>().ok()
}

/// The standard reason phrase of an HTTP status code, as http's
/// `StatusCode::canonical_reason` gives it.
pub uninterp spec fn reason_phrase(code: u16) -> Option<Seq<char>>;

/// Relies on http's `StatusCode::from_u16` and `StatusCode::canonical_reason`:
/// the phrase depends on the code alone, and a code outside 100..=999 has none.
#[verifier::external_body]
pub(crate) fn canonical_reason(code: u16) -> (r: Option<&'static str>)
    ensures
        match r {
            Some(p) => reason_phrase(code) == Some(p@),
            None => reason_phrase(code) is None,
        },
        code < 100 || code > 999 ==> r is None,
{
    match hyper::StatusCode::from_u16(code) {
        Ok(status) => status.canonical_reason(),
        Err(_) => None,
    }
}

} // verus!

//! How the response to an HTTP request is logged.
use vstd::prelude::*;
use vstd::string::*;
use crate::decimal::{decimal_text, decimal_up_to, push_decimal};
use crate::outside::{canonical_reason, parse_usize, reason_phrase};
use crate::render::Level;

verus! {

/// Successes and redirects are informational, client errors too; server
/// errors are errors.
pub open spec fn status_level(code: u16) -> Level {
    if code < 500 {
        Level::Info
    } else {
        Level::Error
    }
}

/// Green below 400, yellow for client errors, red for server errors.
pub open spec fn status_color(code: u16) -> Seq<char> {
    if code < 400 {
        "\x1b[32m"@
    } else if code < 500 {
        "\x1b[33m"@
    } else {
        "\x1b[31m"@
    }
}

/// The message of a response line: the reason phrase and a space, if there
/// is a phrase, then the colored code.
pub open spec fn status_text(code: u16, reason: Option<Seq<char>>) -> Seq<char> {
    let lead = match reason {
        Some(r) => r + " "@,
        None => Seq::empty(),
    };
    lead + status_color(code) + decimal_text(code as nat) + "\x1b[m"@
}

/// The level and message for a response with status `code`, whose reason
/// phrase is `reason`.
pub fn status_line_with(code: u16, reason: Option<&str>) -> (r: (Level, String))
    ensures
        r.0 == status_level(code),
        r.1@ == status_text(
            code,
            match reason {
                Some(p) => Some(p@),
                None => None,
            },
        ),
{
    let mut s = String::new();
    match reason {
        Some(p) => {
            s.append(p);
            s.append(" ");
        },
        None => {},
    }
    let level = if code < 400 {
        s.append("\x1b[32m");
        Level::Info
    } else if code < 500 {
        s.append("\x1b[33m");
        Level::Info
    } else {
        s.append("\x1b[31m");
        Level::Error
    };
    push_decimal(&mut s, code);
    s.append("\x1b[m");
    proof {
        let rs = match reason {
            Some(p) => Some(p@),
            None => None,
        };
        assert(s@ =~= status_text(code, rs));
    }
    (level, s)
}

/// The level and message for a response with status `code`, with the
/// standard reason phrase.
pub fn status_line(code: u16) -> (r: (Level, String))
    ensures
        r.0 == status_level(code),
        r.1@ == status_text(code, reason_phrase(code)),
{
    status_line_with(code, canonical_reason(code))
}

/// A `Content-Length` header worth showing: a decimal count above zero.
pub open spec fn shown_length(text: Seq<char>) -> Option<int> {
    match decimal_up_to(text, usize::MAX as int) {
        Some(n) => if n > 0 {
            Some(n)
        } else {
            None
        },
        None => None,
    }
}

/// The length to show for a `Content-Length` header, none when it is absent,
/// not a number, or zero.
pub fn content_length(text: Option<&str>) -> (r: Option<usize>)
    ensures
        match text {
            Some(t) => match r {
                Some(n) => shown_length(t@) == Some(n as int),
                None => shown_length(t@) is None,
            },
            None => r is None,
        },
{
    match text {
        Some(t) => match parse_usize(t) {
            Some(n) => if n > 0 {
                Some(n)
            } else {
                None
            },
            None => None,
        },
        None => None,
    }
}

} // verus!

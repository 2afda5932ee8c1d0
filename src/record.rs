//! What the library keeps of each span: captured once, when the span is
//! first seen, and never re-rendered from the span itself afterwards.
use vstd::prelude::*;
use crate::outside::{now_formatted, random_u16};

verus! {

/// The pattern of every timestamp: calendar date and time to the second.
pub const TIMESTAMP_FORMAT: &'static str = "%Y-%m-%d %H:%M:%S";

/// The record of one span.
pub struct SpanInfo {
    /// A display identifier, printed as four hexadecimal digits.
    pub id: u16,
    /// When the span was created, already formatted.
    pub date_time: String,
    /// The module path the span was declared in.
    pub target: String,
    /// The span's name.
    pub name: String,
    /// The span's attributes as name and rendered value, in declaration order.
    pub records: Vec<(String, String)>,
    /// Set until the span's header has been printed once.
    pub new: bool,
}

impl SpanInfo {
    /// A record for a span created now, with a random display identifier.
    pub fn new(target: String, name: String, records: Vec<(String, String)>) -> (r: SpanInfo)
        ensures
            r.target == target,
            r.name == name,
            r.records == records,
            r.new,
    {
        let id = random_u16();
        let date_time = now_formatted(TIMESTAMP_FORMAT);
        SpanInfo::with(id, date_time, target, name, records)
    }

    /// A record with the given display identifier and creation time.
    pub fn with(
        id: u16,
        date_time: String,
        target: String,
        name: String,
        records: Vec<(String, String)>,
    ) -> (r: SpanInfo)
        ensures
            r == (SpanInfo { id, date_time, target, name, records, new: true }),
    {
        SpanInfo { id, date_time, target, name, records, new: true }
    }
}

} // verus!

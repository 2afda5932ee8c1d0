//! The renderer's state and its three hooks: a span is created, an event is
//! emitted, a span is closed.
//!
//! The cursor names the span whose header is the last context a reader can
//! see; a chain of headers is printed from the root down only as far up as
//! that context is not already visible.
use vstd::prelude::*;
use std::collections::HashMap;
use crate::outside::now_formatted;
use crate::record::{SpanInfo, TIMESTAMP_FORMAT};
use crate::render::{Event, event_text, header_text, missing_text, push_event, push_header, push_missing};

verus! {

broadcast use vstd::std_specs::hash::group_hash_axioms;

/// A record after its header has been shown.
pub open spec fn cleared(info: SpanInfo) -> SpanInfo {
    SpanInfo { new: false, ..info }
}

/// What printing the headers for `chain` (root first, the span itself last)
/// writes, and the records afterwards. The span's own record decides first:
/// without one, only the diagnostic line is written; if it is the cursor and
/// was shown before, nothing is. Otherwise the parent's chain comes first,
/// then the span's header at depth `chain.len() - 1`. Every record that is
/// read is marked as shown.
pub open spec fn walk(spans: Map<u64, SpanInfo>, chain: Seq<u64>, cursor: u64, multi_line: bool) -> (
    Seq<char>,
    Map<u64, SpanInfo>,
)
    decreases chain.len(),
{
    if chain.len() == 0 {
        (Seq::empty(), spans)
    } else {
        let id = chain.last();
        if !spans.contains_key(id) {
            (missing_text(), spans)
        } else {
            let info = spans[id];
            let seen = spans.insert(id, cleared(info));
            if id == cursor && !info.new {
                (Seq::empty(), seen)
            } else {
                let above = walk(seen, chain.drop_last(), cursor, multi_line);
                (above.0 + header_text(info, (chain.len() - 1) as nat, multi_line), above.1)
            }
        }
    }
}

/// The records once a span is seen: a record that is already there stays as
/// it is, otherwise `info` is stored.
pub open spec fn stored(spans: Map<u64, SpanInfo>, id: u64, info: SpanInfo) -> Map<u64, SpanInfo> {
    if spans.contains_key(id) {
        spans
    } else {
        spans.insert(id, info)
    }
}

/// A span `scope.last()` is created inside `scope` (root first): what is
/// printed, the records and the cursor afterwards.
pub open spec fn creation_step(
    spans: Map<u64, SpanInfo>,
    cursor: u64,
    scope: Seq<u64>,
    info: SpanInfo,
    print_new_spans: bool,
    multi_line: bool,
) -> (Seq<char>, Map<u64, SpanInfo>, u64) {
    let id = scope.last();
    let kept = stored(spans, id, info);
    if print_new_spans {
        let w = walk(kept, scope, cursor, multi_line);
        (w.0, w.1, id)
    } else {
        (Seq::empty(), kept, cursor)
    }
}

/// An event is emitted inside `scope` (root first, empty outside any span) at
/// the time `date_time`: the headers that are not visible, then the event
/// line one level below the innermost span; the cursor then names that span.
pub open spec fn event_step(
    spans: Map<u64, SpanInfo>,
    cursor: u64,
    scope: Seq<u64>,
    event: Event,
    date_time: Seq<char>,
    multi_line: bool,
) -> (Seq<char>, Map<u64, SpanInfo>, u64) {
    let line = event_text(date_time, scope.len(), event, multi_line);
    if scope.len() == 0 {
        (line, spans, 0)
    } else {
        let w = walk(spans, scope, cursor, multi_line);
        (w.0 + line, w.1, scope.last())
    }
}

/// Span `span`, child of `parent`, is closed: its record goes, and if it held
/// the cursor the cursor moves to the parent (0 for none).
pub open spec fn close_step(spans: Map<u64, SpanInfo>, cursor: u64, span: u64, parent: Option<u64>) -> (
    Map<u64, SpanInfo>,
    u64,
) {
    let next = if cursor == span {
        match parent {
            Some(p) => p,
            None => 0,
        }
    } else {
        cursor
    };
    (spans.remove(span), next)
}

/// `after` holds the same spans as `before`, each record as it was or marked
/// as shown.
pub open spec fn settled(before: Map<u64, SpanInfo>, after: Map<u64, SpanInfo>) -> bool {
    &&& after.dom() == before.dom()
    &&& forall|k: u64|
        #[trigger] before.contains_key(k) ==> after[k] == before[k] || after[k] == cleared(before[k])
}

/// Printing a chain changes no record but to mark it as shown.
pub proof fn lemma_walk_settles(spans: Map<u64, SpanInfo>, chain: Seq<u64>, cursor: u64, multi_line: bool)
    ensures
        settled(spans, walk(spans, chain, cursor, multi_line).1),
    decreases chain.len(),
{
    if chain.len() > 0 && spans.contains_key(chain.last()) {
        let id = chain.last();
        let seen = spans.insert(id, cleared(spans[id]));
        assert(seen.dom() =~= spans.dom());
        if !(id == cursor && !spans[id].new) {
            lemma_walk_settles(seen, chain.drop_last(), cursor, multi_line);
        }
    }
}

/// Printing the chain of a span that has a record leaves that record marked
/// as shown.
pub proof fn lemma_walk_clears_target(
    spans: Map<u64, SpanInfo>,
    chain: Seq<u64>,
    cursor: u64,
    multi_line: bool,
)
    requires
        chain.len() > 0,
        spans.contains_key(chain.last()),
    ensures
        walk(spans, chain, cursor, multi_line).1.contains_key(chain.last()),
        walk(spans, chain, cursor, multi_line).1[chain.last()] == cleared(spans[chain.last()]),
{
    let id = chain.last();
    let seen = spans.insert(id, cleared(spans[id]));
    if !(id == cursor && !spans[id].new) {
        lemma_walk_settles(seen, chain.drop_last(), cursor, multi_line);
        assert(seen.contains_key(id));
    }
}

/// The renderer.
pub struct Layer {
    last_span: u64,
    spans: HashMap<u64, SpanInfo>,
    print_new_spans: bool,
    multi_line: bool,
}

impl Layer {
    /// The id of the span whose context was printed last, 0 for none.
    pub closed spec fn cursor(&self) -> u64 {
        self.last_span
    }

    /// The records of the spans that are open, by span id.
    pub closed spec fn spans(&self) -> Map<u64, SpanInfo> {
        self.spans@
    }

    /// Whether a span's headers are printed as soon as it is created.
    pub closed spec fn prints_new_spans(&self) -> bool {
        self.print_new_spans
    }

    /// Whether attributes go on lines of their own.
    pub closed spec fn is_multi_line(&self) -> bool {
        self.multi_line
    }

    /// A renderer with nothing shown yet, attributes on the header line, and
    /// spans printed only when an event needs them.
    pub fn new() -> (r: Layer)
        ensures
            r.cursor() == 0,
            r.spans() == Map::<u64, SpanInfo>::empty(),
            !r.prints_new_spans(),
            !r.is_multi_line(),
    {
        Layer { last_span: 0, spans: HashMap::new(), print_new_spans: false, multi_line: false }
    }

    /// The same renderer, printing each span when it is created or not.
    pub fn with_new_spans(self, on: bool) -> (r: Layer)
        ensures
            r.cursor() == self.cursor(),
            r.spans() == self.spans(),
            r.prints_new_spans() == on,
            r.is_multi_line() == self.is_multi_line(),
    {
        Layer { print_new_spans: on, ..self }
    }

    /// The same renderer, with attributes on lines of their own or not.
    pub fn with_multi_line(self, on: bool) -> (r: Layer)
        ensures
            r.cursor() == self.cursor(),
            r.spans() == self.spans(),
            r.prints_new_spans() == self.prints_new_spans(),
            r.is_multi_line() == on,
    {
        Layer { multi_line: on, ..self }
    }

    /// The id of the span whose context was printed last, 0 for none.
    pub fn last_span(&self) -> (r: u64)
        ensures
            r == self.cursor(),
    {
        self.last_span
    }

    /// The record of span `id`, if it is open.
    pub fn record(&self, id: u64) -> (r: Option<&SpanInfo>)
        ensures
            match r {
                Some(info) => self.spans().contains_key(id) && *info == self.spans()[id],
                None => !self.spans().contains_key(id),
            },
    {
        self.spans.get(&id)
    }

    /// Span `scope.last()` is created, nested in the rest of `scope` (root
    /// first). Its record is `info` unless it has one already; when new spans
    /// are printed, the headers that are not visible are returned and the
    /// cursor moves to it.
    pub fn on_new_span(&mut self, scope: &Vec<u64>, info: SpanInfo) -> (text: String)
        requires
            scope@.len() > 0,
        ensures
            ({
                let step = creation_step(
                    old(self).spans(),
                    old(self).cursor(),
                    scope@,
                    info,
                    old(self).prints_new_spans(),
                    old(self).is_multi_line(),
                );
                &&& text@ == step.0
                &&& final(self).spans() == step.1
                &&& final(self).cursor() == step.2
            }),
            final(self).prints_new_spans() == old(self).prints_new_spans(),
            final(self).is_multi_line() == old(self).is_multi_line(),
    {
        let id = scope[scope.len() - 1];
        if !self.spans.contains_key(&id) {
            self.spans.insert(id, info);
        }
        let mut text = String::new();
        if self.print_new_spans {
            let cursor = self.last_span;
            self.print_span(&mut text, scope, scope.len(), cursor);
            self.last_span = id;
        }
        assert(scope@.take(scope@.len() as int) =~= scope@);
        text
    }

    /// An event is emitted inside `scope` (root first, empty outside any
    /// span), stamped `date_time`. Returns the headers that are not visible
    /// and the event line; the cursor moves to the innermost span.
    pub fn on_event_at(&mut self, scope: &Vec<u64>, event: &Event, date_time: &str) -> (text: String)
        ensures
            ({
                let step = event_step(
                    old(self).spans(),
                    old(self).cursor(),
                    scope@,
                    *event,
                    date_time@,
                    old(self).is_multi_line(),
                );
                &&& text@ == step.0
                &&& final(self).spans() == step.1
                &&& final(self).cursor() == step.2
            }),
            final(self).prints_new_spans() == old(self).prints_new_spans(),
            final(self).is_multi_line() == old(self).is_multi_line(),
    {
        let mut text = String::new();
        let cursor = self.last_span;
        self.print_span(&mut text, scope, scope.len(), cursor);
        self.last_span = if scope.len() == 0 {
            0
        } else {
            scope[scope.len() - 1]
        };
        push_event(&mut text, date_time, scope.len(), event, self.multi_line);
        assert(scope@.take(scope@.len() as int) =~= scope@);
        text
    }

    /// An event is emitted inside `scope` now: as `on_event_at`, stamped with
    /// the current time.
    pub fn on_event(&mut self, scope: &Vec<u64>, event: &Event) -> (text: String)
        ensures
            exists|date_time: Seq<char>|
                {
                    let step = #[trigger] event_step(
                        old(self).spans(),
                        old(self).cursor(),
                        scope@,
                        *event,
                        date_time,
                        old(self).is_multi_line(),
                    );
                    &&& text@ == step.0
                    &&& final(self).spans() == step.1
                    &&& final(self).cursor() == step.2
                },
            final(self).prints_new_spans() == old(self).prints_new_spans(),
            final(self).is_multi_line() == old(self).is_multi_line(),
    {
        let date_time = now_formatted(TIMESTAMP_FORMAT);
        self.on_event_at(scope, event, date_time.as_str())
    }

    /// Span `span`, child of `parent`, is closed: its record is dropped, and
    /// if its header was the last context shown, the parent's becomes it.
    pub fn on_close(&mut self, span: u64, parent: Option<u64>)
        ensures
            (final(self).spans(), final(self).cursor()) == close_step(
                old(self).spans(),
                old(self).cursor(),
                span,
                parent,
            ),
            final(self).prints_new_spans() == old(self).prints_new_spans(),
            final(self).is_multi_line() == old(self).is_multi_line(),
    {
        if self.last_span == span {
            self.last_span = match parent {
                Some(p) => p,
                None => 0,
            };
        }
        self.spans.remove(&span);
    }

    /// Appends the headers for `chain[..len]` that are not visible yet.
    fn print_span(&mut self, out: &mut String, chain: &Vec<u64>, len: usize, cursor: u64)
        requires
            len <= chain@.len(),
        ensures
            final(out)@ == old(out)@ + walk(
                old(self).spans@,
                chain@.take(len as int),
                cursor,
                old(self).multi_line,
            ).0,
            final(self).spans@ == walk(
                old(self).spans@,
                chain@.take(len as int),
                cursor,
                old(self).multi_line,
            ).1,
            final(self).last_span == old(self).last_span,
            final(self).print_new_spans == old(self).print_new_spans,
            final(self).multi_line == old(self).multi_line,
        decreases len,
    {
        if len == 0 {
            return;
        }
        let id = chain[len - 1];
        let ghost chain_len = chain@.take(len as int);
        assert(chain_len.drop_last() =~= chain@.take(len - 1));
        match self.spans.remove(&id) {
            None => {
                push_missing(out);
            },
            Some(mut info) => {
                let ghost before = old(self).spans@;
                let new = info.new;
                if id == cursor && !new {
                    self.spans.insert(id, info);
                    assert(self.spans@ =~= before.insert(id, cleared(before[id])));
                    return;
                }
                let mut line = String::new();
                push_header(&mut line, &info, len - 1, self.multi_line);
                info.new = false;
                self.spans.insert(id, info);
                assert(self.spans@ =~= before.insert(id, cleared(before[id])));
                self.print_span(out, chain, len - 1, cursor);
                out.append(line.as_str());
            },
        }
    }
}

impl Default for Layer {
    fn default() -> (r: Layer)
        ensures
            r.cursor() == 0,
            r.spans() == Map::<u64, SpanInfo>::empty(),
            !r.prints_new_spans(),
            !r.is_multi_line(),
    {
        Layer::new()
    }
}

} // verus!

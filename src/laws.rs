//! What holds of the renderer across calls of its hooks.
use vstd::prelude::*;
use crate::layer::{
    cleared, close_step, creation_step, event_step, lemma_walk_clears_target, lemma_walk_settles,
    stored, walk,
};
use crate::record::SpanInfo;
use crate::render::{Event, event_text, header_text, missing_text};

verus! {

/// Two events in a row inside the same span: the second prints no header,
/// only its own line.
pub proof fn lemma_same_span_twice(
    spans: Map<u64, SpanInfo>,
    cursor: u64,
    scope: Seq<u64>,
    first: Event,
    first_at: Seq<char>,
    second: Event,
    second_at: Seq<char>,
    multi_line: bool,
)
    requires
        scope.len() > 0,
        spans.contains_key(scope.last()),
    ensures
        ({
            let one = event_step(spans, cursor, scope, first, first_at, multi_line);
            let two = event_step(one.1, one.2, scope, second, second_at, multi_line);
            two.0 == event_text(second_at, scope.len(), second, multi_line)
        }),
{
    let one = event_step(spans, cursor, scope, first, first_at, multi_line);
    lemma_walk_clears_target(spans, scope, cursor, multi_line);
    let id = scope.last();
    assert(walk(one.1, scope, id, multi_line).0 == Seq::<char>::empty());
}

/// The first event inside `c`, nested in `b`, nested in `a`, all three not
/// shown yet, prints the headers of `a`, `b` and `c` in that order, then its
/// line; a second event right after prints its line alone.
pub proof fn lemma_nested_first_event(
    spans: Map<u64, SpanInfo>,
    cursor: u64,
    a: u64,
    b: u64,
    c: u64,
    first: Event,
    first_at: Seq<char>,
    second: Event,
    second_at: Seq<char>,
    multi_line: bool,
)
    requires
        a != b,
        b != c,
        a != c,
        spans.contains_key(a) && spans[a].new,
        spans.contains_key(b) && spans[b].new,
        spans.contains_key(c) && spans[c].new,
    ensures
        ({
            let scope = seq![a, b, c];
            let one = event_step(spans, cursor, scope, first, first_at, multi_line);
            let two = event_step(one.1, one.2, scope, second, second_at, multi_line);
            &&& one.0 == header_text(spans[a], 0, multi_line) + header_text(spans[b], 1, multi_line)
                + header_text(spans[c], 2, multi_line) + event_text(first_at, 3, first, multi_line)
            &&& two.0 == event_text(second_at, 3, second, multi_line)
        }),
{
    let scope = seq![a, b, c];
    assert(scope.drop_last() =~= seq![a, b]);
    assert(seq![a, b].drop_last() =~= seq![a]);
    assert(seq![a].drop_last() =~= Seq::<u64>::empty());
    let s1 = spans.insert(c, cleared(spans[c]));
    let s2 = s1.insert(b, cleared(s1[b]));
    let s3 = s2.insert(a, cleared(s2[a]));
    assert(walk(s3, Seq::<u64>::empty(), cursor, multi_line).0 == Seq::<char>::empty());
    assert(walk(s2, seq![a], cursor, multi_line).0 =~= header_text(spans[a], 0, multi_line));
    assert(walk(s1, seq![a, b], cursor, multi_line).0 =~= header_text(spans[a], 0, multi_line)
        + header_text(spans[b], 1, multi_line));
    lemma_same_span_twice(spans, cursor, scope, first, first_at, second, second_at, multi_line);
}

/// A span whose header was shown, then displaced by an event in another
/// span, is printed again when an event comes back to it, with the
/// continuation marker: its record no longer reads as new.
pub proof fn lemma_return_is_continuation(
    spans: Map<u64, SpanInfo>,
    cursor: u64,
    here: Seq<u64>,
    elsewhere: Seq<u64>,
    e1: Event,
    t1: Seq<char>,
    e2: Event,
    t2: Seq<char>,
    e3: Event,
    t3: Seq<char>,
    multi_line: bool,
)
    requires
        here.len() > 0,
        elsewhere.len() > 0,
        elsewhere.last() != here.last(),
        spans.contains_key(here.last()),
    ensures
        ({
            let c = here.last();
            let one = event_step(spans, cursor, here, e1, t1, multi_line);
            let two = event_step(one.1, one.2, elsewhere, e2, t2, multi_line);
            let three = event_step(two.1, two.2, here, e3, t3, multi_line);
            let back = two.1.insert(c, cleared(two.1[c]));
            &&& !two.1[c].new
            &&& three.0 == walk(back, here.drop_last(), two.2, multi_line).0 + header_text(
                cleared(spans[c]),
                (here.len() - 1) as nat,
                multi_line,
            ) + event_text(t3, here.len(), e3, multi_line)
        }),
{
    let c = here.last();
    let one = event_step(spans, cursor, here, e1, t1, multi_line);
    lemma_walk_clears_target(spans, here, cursor, multi_line);
    lemma_walk_settles(one.1, elsewhere, one.2, multi_line);
    let two = event_step(one.1, one.2, elsewhere, e2, t2, multi_line);
    assert(two.1.contains_key(c));
    assert(two.1[c] == cleared(spans[c]));
}

/// Spans `a` and then `b` inside it are created and printed; closing `b`
/// hands the cursor back to `a`, so a sibling `b2` created next prints its own
/// header and not `a`'s again.
pub proof fn lemma_sibling_after_close(
    spans: Map<u64, SpanInfo>,
    cursor: u64,
    a: u64,
    b: u64,
    b2: u64,
    ia: SpanInfo,
    ib: SpanInfo,
    ib2: SpanInfo,
    multi_line: bool,
)
    requires
        a != b,
        a != b2,
        !spans.contains_key(a),
        !spans.contains_key(b),
        b2 == b || !spans.contains_key(b2),
    ensures
        ({
            let one = creation_step(spans, cursor, seq![a], ia, true, multi_line);
            let two = creation_step(one.1, one.2, seq![a, b], ib, true, multi_line);
            let closed = close_step(two.1, two.2, b, Some(a));
            let three = creation_step(closed.0, closed.1, seq![a, b2], ib2, true, multi_line);
            &&& two.2 == b
            &&& closed.1 == a
            &&& three.0 == header_text(ib2, 1, multi_line)
        }),
{
    assert(seq![a, b].drop_last() =~= seq![a]);
    assert(seq![a, b2].drop_last() =~= seq![a]);
    assert(seq![a].drop_last() =~= Seq::<u64>::empty());
    let one = creation_step(spans, cursor, seq![a], ia, true, multi_line);
    let k1 = stored(spans, a, ia);
    let seen1 = k1.insert(a, cleared(k1[a]));
    assert(walk(seen1, Seq::<u64>::empty(), cursor, multi_line).1 == seen1);
    assert(one.1 == seen1);
    let two = creation_step(one.1, one.2, seq![a, b], ib, true, multi_line);
    let k2 = stored(one.1, b, ib);
    assert(k2.contains_key(a) && !k2[a].new);
    let seen2 = k2.insert(b, cleared(k2[b]));
    assert(seen2[a] == k2[a]);
    assert(walk(seen2, seq![a], a, multi_line).1 == seen2.insert(a, cleared(seen2[a])));
    let closed = close_step(two.1, two.2, b, Some(a));
    assert(closed.0.contains_key(a) && !closed.0[a].new);
    assert(!closed.0.contains_key(b2));
    let k3 = stored(closed.0, b2, ib2);
    assert(k3[a] == closed.0[a]);
    let seen3 = k3.insert(b2, cleared(k3[b2]));
    assert(seen3[a] == closed.0[a]);
    assert(walk(seen3, seq![a], a, multi_line).0 == Seq::<char>::empty());
    assert(walk(k3, seq![a, b2], a, multi_line).0 =~= header_text(ib2, 1, multi_line));
}

/// A record marked as shown is never marked new again by any hook: creating
/// a span keeps the record it finds, and printing only clears the mark.
pub proof fn lemma_shown_stays_shown(
    spans: Map<u64, SpanInfo>,
    cursor: u64,
    id: u64,
    scope: Seq<u64>,
    info: SpanInfo,
    print_new_spans: bool,
    event: Event,
    date_time: Seq<char>,
    span: u64,
    parent: Option<u64>,
    multi_line: bool,
)
    requires
        spans.contains_key(id),
        !spans[id].new,
        scope.len() > 0,
    ensures
        ({
            let created = creation_step(spans, cursor, scope, info, print_new_spans, multi_line).1;
            created.contains_key(id) && !created[id].new
        }),
        ({
            let emitted = event_step(spans, cursor, scope, event, date_time, multi_line).1;
            emitted.contains_key(id) && !emitted[id].new
        }),
        ({
            let closed = close_step(spans, cursor, span, parent).0;
            closed.contains_key(id) ==> !closed[id].new
        }),
{
    let kept = stored(spans, scope.last(), info);
    assert(kept.contains_key(id) && kept[id] == spans[id]);
    lemma_walk_settles(kept, scope, cursor, multi_line);
    lemma_walk_settles(spans, scope, cursor, multi_line);
}

/// An event inside a span that has no record prints the diagnostic line in
/// place of the span's context, then its own line, and changes no record.
pub proof fn lemma_missing_record(
    spans: Map<u64, SpanInfo>,
    cursor: u64,
    scope: Seq<u64>,
    event: Event,
    date_time: Seq<char>,
    multi_line: bool,
)
    requires
        scope.len() > 0,
        !spans.contains_key(scope.last()),
    ensures
        ({
            let step = event_step(spans, cursor, scope, event, date_time, multi_line);
            &&& step.0 == missing_text() + event_text(date_time, scope.len(), event, multi_line)
            &&& step.1 == spans
        }),
{
}

} // verus!

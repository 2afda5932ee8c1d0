use spanlog::layer::Layer;
use spanlog::record::SpanInfo;
use spanlog::render::{Event, Level};

const TS: &str = "2024-01-02 03:04:05";

fn info(id: u16, name: &str, fields: &[(&str, &str)]) -> SpanInfo {
    SpanInfo::with(
        id,
        TS.to_string(),
        "app".to_string(),
        name.to_string(),
        fields.iter().map(|(k, v)| (k.to_string(), v.to_string())).collect(),
    )
}

fn event(level: Level, message: &str) -> Event {
    Event { level, fields: vec![("message".to_string(), message.to_string())] }
}

fn header(id: &str, name: &str, depth: usize, new: bool) -> String {
    format!(
        "\x1b[;2m[{TS}]\x1b[m {}\x1b[mapp::\x1b[37m{name}{} \x1b[37m[{id}]\x1b[36m\x1b[m\n",
        " ".repeat(depth * 2),
        if new { " " } else { "\x1b[93m^" }
    )
}

fn event_line(depth: usize, tag: &str, message: &str) -> String {
    format!("\x1b[;2m[{TS}]\x1b[m {}{tag}\x1b[m {message}\x1b[m\n", " ".repeat(depth * 2))
}

fn nested() -> Layer {
    let mut layer = Layer::new();
    assert_eq!(layer.on_new_span(&vec![1], info(0xa, "a", &[])), "");
    assert_eq!(layer.on_new_span(&vec![1, 2], info(0xb, "b", &[])), "");
    assert_eq!(layer.on_new_span(&vec![1, 2, 3], info(0xc, "c", &[])), "");
    layer
}

#[test]
fn nested_first_event_prints_three_headers() {
    let mut layer = nested();
    let out = layer.on_event_at(&vec![1, 2, 3], &event(Level::Info, "hi"), TS);
    let expected = header("000a", "a", 0, true)
        + &header("000b", "b", 1, true)
        + &header("000c", "c", 2, true)
        + &event_line(3, "\x1b[32mINFO", "hi");
    assert_eq!(out, expected);
    assert_eq!(layer.last_span(), 3);
    let again = layer.on_event_at(&vec![1, 2, 3], &event(Level::Warn, "again"), TS);
    assert_eq!(again, event_line(3, "\x1b[33mWARN", "again"));
}

#[test]
fn same_span_twice_prints_header_once() {
    let mut layer = Layer::new().with_new_spans(true);
    let first = layer.on_new_span(&vec![7], info(0x77, "s", &[]));
    assert_eq!(first, header("0077", "s", 0, true));
    let second = layer.on_event_at(&vec![7], &event(Level::Debug, "x"), TS);
    assert_eq!(second, event_line(1, "\x1b[34mDEBUG", "x"));
}

#[test]
fn displaced_span_returns_as_continuation() {
    let mut layer = nested();
    layer.on_new_span(&vec![4], info(0xd, "d", &[]));
    layer.on_event_at(&vec![1, 2, 3], &event(Level::Info, "one"), TS);
    let other = layer.on_event_at(&vec![4], &event(Level::Info, "two"), TS);
    assert_eq!(other, header("000d", "d", 0, true) + &event_line(1, "\x1b[32mINFO", "two"));
    let back = layer.on_event_at(&vec![1, 2, 3], &event(Level::Error, "three"), TS);
    let expected = header("000a", "a", 0, false)
        + &header("000b", "b", 1, false)
        + &header("000c", "c", 2, false)
        + &event_line(3, "\x1b[31mERROR", "three");
    assert_eq!(back, expected);
}

#[test]
fn closing_cursor_span_moves_cursor_to_parent() {
    let mut layer = Layer::new().with_new_spans(true);
    assert_eq!(layer.on_new_span(&vec![1], info(0xa, "a", &[])), header("000a", "a", 0, true));
    assert_eq!(layer.on_new_span(&vec![1, 2], info(0xb, "b", &[])), header("000b", "b", 1, true));
    assert_eq!(layer.last_span(), 2);
    layer.on_close(2, Some(1));
    assert_eq!(layer.last_span(), 1);
    assert!(layer.record(2).is_none());
    let sibling = layer.on_new_span(&vec![1, 5], info(0xb2, "b2", &[]));
    assert_eq!(sibling, header("00b2", "b2", 1, true));
}

#[test]
fn closing_other_span_keeps_cursor() {
    let mut layer = Layer::new().with_new_spans(true);
    layer.on_new_span(&vec![1], info(1, "a", &[]));
    layer.on_new_span(&vec![1, 2], info(2, "b", &[]));
    layer.on_new_span(&vec![1, 3], info(3, "c", &[]));
    assert_eq!(layer.last_span(), 3);
    layer.on_close(2, Some(1));
    assert_eq!(layer.last_span(), 3);
    layer.on_close(3, Some(1));
    assert_eq!(layer.last_span(), 1);
    layer.on_close(1, None);
    assert_eq!(layer.last_span(), 0);
}

#[test]
fn new_marker_shown_once() {
    let mut layer = Layer::new().with_new_spans(true);
    layer.on_new_span(&vec![1], info(1, "a", &[]));
    assert!(!layer.record(1).unwrap().new);
    layer.on_new_span(&vec![2], info(2, "b", &[]));
    let out = layer.on_event_at(&vec![1], &event(Level::Info, "m"), TS);
    assert_eq!(out, header("0001", "a", 0, false) + &event_line(1, "\x1b[32mINFO", "m"));
    // A second notice of the same span keeps the record that was there.
    let again = layer.on_new_span(&vec![1], info(9, "other", &[]));
    assert_eq!(again, "");
    assert_eq!(layer.record(1).unwrap().id, 1);
    assert!(!layer.record(1).unwrap().new);
}

#[test]
fn missing_record_prints_diagnostic() {
    let mut layer = Layer::new();
    let out = layer.on_event_at(&vec![42], &event(Level::Trace, "lost"), TS);
    assert_eq!(
        out,
        "\x1b[31mFailed to read span info\x1b[m\n".to_string()
            + &event_line(1, "\x1b[94mTRACE", "lost")
    );
    assert_eq!(layer.last_span(), 42);
}

#[test]
fn missing_ancestor_prints_diagnostic_then_child() {
    let mut layer = Layer::new();
    layer.on_new_span(&vec![1, 2], info(2, "b", &[]));
    let out = layer.on_event_at(&vec![1, 2], &event(Level::Info, "x"), TS);
    assert_eq!(
        out,
        "\x1b[31mFailed to read span info\x1b[m\n".to_string()
            + &header("0002", "b", 1, true)
            + &event_line(2, "\x1b[32mINFO", "x")
    );
}

#[test]
fn event_outside_any_span() {
    let mut layer = Layer::new();
    layer.on_new_span(&vec![1], info(1, "a", &[]));
    layer.on_event_at(&vec![1], &event(Level::Info, "in"), TS);
    let out = layer.on_event_at(&vec![], &event(Level::Info, "out"), TS);
    assert_eq!(out, event_line(0, "\x1b[32mINFO", "out"));
    assert_eq!(layer.last_span(), 0);
}

#[test]
fn fields_keep_their_order() {
    let mut layer = Layer::new().with_new_spans(true);
    let out = layer.on_new_span(&vec![1], info(0x1f, "q", &[("z", "1"), ("a", "2"), ("m", "3")]));
    assert_eq!(
        out,
        format!(
            "\x1b[;2m[{TS}]\x1b[m \x1b[mapp::\x1b[37mq  \x1b[37m[001f]\x1b[36m \x1b[2mz: \x1b[22m1 \x1b[2ma: \x1b[22m2 \x1b[2mm: \x1b[22m3\x1b[m\n"
        )
    );
}

#[test]
fn request_span_header() {
    let mut layer = Layer::new().with_new_spans(true);
    let span = info(
        0xbeef,
        "request",
        &[("request_method", "GET"), ("user", "ann"), ("request_path", "/x")],
    );
    let out = layer.on_new_span(&vec![1], span);
    assert_eq!(
        out,
        format!(
            "\x1b[;2m[{TS}]\x1b[m \x1b[37mGET\x1b[m /x\x1b[37m  \x1b[37m[beef]\x1b[36m \x1b[2muser: \x1b[22mann\x1b[m\n"
        )
    );
}

#[test]
fn lone_method_is_an_ordinary_field() {
    let mut layer = Layer::new().with_new_spans(true);
    let mut span = info(0x10, "r", &[("request_method", "PUT")]);
    span.target = String::new();
    let out = layer.on_new_span(&vec![1], span);
    assert_eq!(
        out,
        format!(
            "\x1b[;2m[{TS}]\x1b[m \x1b[m\x1b[37mr  \x1b[37m[0010]\x1b[36m \x1b[2mrequest_method: \x1b[22mPUT\x1b[m\n"
        )
    );
}

#[test]
fn multi_line_fields() {
    let mut layer = Layer::new().with_multi_line(true);
    layer.on_new_span(&vec![1], info(0xabcd, "a", &[("k", "v")]));
    let ev = Event {
        level: Level::Info,
        fields: vec![
            ("message".to_string(), "done".to_string()),
            ("n".to_string(), "4".to_string()),
        ],
    };
    let out = layer.on_event_at(&vec![1], &ev, TS);
    let expected = format!(
        "\x1b[;2m[{TS}]\x1b[m \x1b[mapp::\x1b[37ma  \x1b[37m[abcd]\x1b[36m\n{}- \x1b[2mk: \x1b[22mv\x1b[m\n\x1b[;2m[{TS}]\x1b[m   \x1b[32mINFO\x1b[m done\n{}- \x1b[36;2mn: \x1b[22m4\x1b[m\n",
        " ".repeat(22),
        " ".repeat(24)
    );
    assert_eq!(out, expected);
}

#[test]
fn event_fields_inline() {
    let mut layer = Layer::new();
    let ev = Event {
        level: Level::Warn,
        fields: vec![
            ("a".to_string(), "1".to_string()),
            ("message".to_string(), "msg".to_string()),
            ("b".to_string(), "2".to_string()),
        ],
    };
    let out = layer.on_event_at(&vec![], &ev, TS);
    assert_eq!(
        out,
        format!("\x1b[;2m[{TS}]\x1b[m \x1b[33mWARN\x1b[m msg \x1b[36;2ma: \x1b[22m1 \x1b[36;2mb: \x1b[22m2\x1b[m\n")
    );
}

#[test]
fn event_with_clock_is_stamped() {
    let mut layer = Layer::new();
    let out = layer.on_event(&vec![], &event(Level::Info, "now"));
    // "\x1b[;2m[" + "YYYY-MM-DD HH:MM:SS" + "]"
    let stamp = &out[6..25];
    assert_eq!(stamp.len(), 19);
    assert_eq!(&stamp[4..5], "-");
    assert_eq!(&stamp[10..11], " ");
    assert_eq!(&stamp[13..14], ":");
    assert!(out.ends_with("\x1b[32mINFO\x1b[m now\x1b[m\n"));
}

#[test]
fn new_record_from_clock_and_generator() {
    let r = SpanInfo::new("t".to_string(), "n".to_string(), vec![("k".to_string(), "v".to_string())]);
    assert!(r.new);
    assert_eq!(r.date_time.len(), 19);
    assert_eq!(&r.date_time[7..8], "-");
    assert_eq!(r.records, vec![("k".to_string(), "v".to_string())]);
    let ids: Vec<u16> = (0..16)
        .map(|_| SpanInfo::new(String::new(), String::new(), vec![]).id)
        .collect();
    assert!(ids.iter().any(|i| *i != ids[0]));
}

#[test]
fn hex_id_is_four_lowercase_digits() {
    let mut layer = Layer::new().with_new_spans(true);
    let out = layer.on_new_span(&vec![1], info(0x0f3, "h", &[]));
    assert!(out.contains("[00f3]"));
    let out = layer.on_new_span(&vec![2], info(0xffff, "h", &[]));
    assert!(out.contains("[ffff]"));
}

#[test]
fn default_is_new() {
    let layer = Layer::default();
    assert_eq!(layer.last_span(), 0);
    assert!(layer.record(1).is_none());
}

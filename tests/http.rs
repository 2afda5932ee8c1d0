use spanlog::http::{content_length, status_line, status_line_with};
use spanlog::render::Level;

#[test]
fn status_lines() {
    assert_eq!(status_line(200), (Level::Info, "OK \x1b[32m200\x1b[m".to_string()));
    assert_eq!(status_line(404), (Level::Info, "Not Found \x1b[33m404\x1b[m".to_string()));
    assert_eq!(
        status_line(503),
        (Level::Error, "Service Unavailable \x1b[31m503\x1b[m".to_string())
    );
    assert_eq!(status_line(599), (Level::Error, "\x1b[31m599\x1b[m".to_string()));
    assert_eq!(status_line(42), (Level::Info, "\x1b[32m42\x1b[m".to_string()));
    assert_eq!(status_line(399).0, Level::Info);
    assert_eq!(status_line(400).1, "Bad Request \x1b[33m400\x1b[m");
    assert_eq!(status_line(500).0, Level::Error);
}

#[test]
fn status_line_given_reason() {
    assert_eq!(
        status_line_with(65535, Some("Odd")),
        (Level::Error, "Odd \x1b[31m65535\x1b[m".to_string())
    );
    assert_eq!(status_line_with(7, None), (Level::Info, "\x1b[32m7\x1b[m".to_string()));
}

#[test]
fn content_lengths() {
    assert_eq!(content_length(Some("12")), Some(12));
    assert_eq!(content_length(Some("+3")), Some(3));
    assert_eq!(content_length(Some("0")), None);
    assert_eq!(content_length(Some("x")), None);
    assert_eq!(content_length(Some("")), None);
    assert_eq!(content_length(None), None);
}

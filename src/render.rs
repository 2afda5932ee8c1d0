//! The text of one rendered line: span headers, event lines and the
//! diagnostic that stands in for a span whose record is missing.
use vstd::prelude::*;
use vstd::string::*;
use crate::outside::push_char;
use crate::record::SpanInfo;

verus! {

/// The lowercase hexadecimal digit for `d` (taken modulo 16).
pub open spec fn hex_char(d: int) -> char {
    let d = d % 16;
    if d < 10 {
        ('0' as int + d) as char
    } else {
        ('a' as int + d - 10) as char
    }
}

/// A 16-bit value as exactly four lowercase hexadecimal digits.
pub open spec fn hex4(v: u16) -> Seq<char> {
    seq![
        hex_char(v as int / 4096),
        hex_char(v as int / 256),
        hex_char(v as int / 16),
        hex_char(v as int),
    ]
}

/// `n` space characters.
pub open spec fn spaces(n: nat) -> Seq<char> {
    Seq::new(n, |i: int| ' ')
}

fn hex_digit(d: u16) -> (c: char)
    requires
        d < 16,
    ensures
        c == hex_char(d as int),
{
    if d < 10 {
        (('0' as u8) + (d as u8)) as char
    } else {
        (('a' as u8) + (d as u8) - 10) as char
    }
}

/// Appends `v` as four lowercase hexadecimal digits.
pub fn push_hex4(s: &mut String, v: u16)
    ensures
        final(s)@ == old(s)@ + hex4(v),
{
    push_char(s, hex_digit(v / 4096));
    push_char(s, hex_digit((v / 256) % 16));
    push_char(s, hex_digit((v / 16) % 16));
    push_char(s, hex_digit(v % 16));
    assert(final(s)@ =~= old(s)@ + hex4(v));
}


/// `n` spaces, appended.
pub fn push_spaces(s: &mut String, n: usize)
    ensures
        final(s)@ == old(s)@ + spaces(n as nat),
{
    let ghost start = s@;
    let mut i: usize = 0;
    while i < n
        invariant
            i <= n,
            s@ == start + spaces(i as nat),
        decreases n - i,
    {
        push_char(s, ' ');
        i = i + 1;
        assert(s@ =~= start + spaces(i as nat));
    }
}

/// Two spaces per level of nesting, appended.
pub fn push_indent(s: &mut String, depth: usize)
    ensures
        final(s)@ == old(s)@ + spaces(2 * depth as nat),
{
    let ghost start = s@;
    let mut i: usize = 0;
    while i < depth
        invariant
            i <= depth,
            s@ == start + spaces(2 * i as nat),
        decreases depth - i,
    {
        s.append("  ");
        proof {
            reveal_strlit("  ");
        }
        i = i + 1;
        assert(s@ =~= start + spaces(2 * i as nat));
    }
}

/// Whether a string holds exactly the text of `lit`.
pub fn is_text(k: &String, lit: &str) -> (r: bool)
    ensures
        r == (k@ == lit@),
{
    *k == String::from_str(lit)
}

/// The severity of an event.
#[derive(Clone, Copy, Debug, PartialEq, Eq, Structural)]
pub enum Level {
    Trace,
    Debug,
    Info,
    Warn,
    Error,
}

/// The colored tag that names a level.
pub open spec fn level_tag(l: Level) -> Seq<char> {
    match l {
        Level::Trace => "\x1b[94mTRACE"@,
        Level::Debug => "\x1b[34mDEBUG"@,
        Level::Info => "\x1b[32mINFO"@,
        Level::Warn => "\x1b[33mWARN"@,
        Level::Error => "\x1b[31mERROR"@,
    }
}

fn level_tag_str(l: Level) -> (r: &'static str)
    ensures
        r@ == level_tag(l),
{
    match l {
        Level::Trace => "\x1b[94mTRACE",
        Level::Debug => "\x1b[34mDEBUG",
        Level::Info => "\x1b[32mINFO",
        Level::Warn => "\x1b[33mWARN",
        Level::Error => "\x1b[31mERROR",
    }
}

/// Which attributes a line leaves out of its list of fields.
#[derive(Clone, Copy, Debug, PartialEq, Eq, Structural)]
pub enum Omit {
    /// Every attribute is listed.
    Nothing,
    /// The method and path that a request header already shows.
    Request,
    /// The message that an event line already shows.
    Message,
}

/// Whether an attribute with name `k` is listed under `omit`.
pub open spec fn listed(k: Seq<char>, omit: Omit) -> bool {
    match omit {
        Omit::Nothing => true,
        Omit::Request => k != "request_method"@ && k != "request_path"@,
        Omit::Message => k != "message"@,
    }
}

fn is_listed(k: &String, omit: Omit) -> (r: bool)
    ensures
        r == listed(k@, omit),
{
    match omit {
        Omit::Nothing => true,
        Omit::Request => !is_text(k, "request_method") && !is_text(k, "request_path"),
        Omit::Message => !is_text(k, "message"),
    }
}

/// One attribute: after a space on the same line, or on a line of its own
/// (indented past the timestamp) when `multi_line` is set.
pub open spec fn field_text(
    f: (String, String),
    style: Seq<char>,
    multi_line: bool,
    depth: nat,
) -> Seq<char> {
    let lead = if multi_line {
        "\n"@ + spaces(2 * depth + 22) + "- "@
    } else {
        " "@
    };
    lead + style + f.0@ + ": \x1b[22m"@ + f.1@
}

/// The listed attributes, in the order in which they were given.
pub open spec fn fields_text(
    fs: Seq<(String, String)>,
    omit: Omit,
    style: Seq<char>,
    multi_line: bool,
    depth: nat,
) -> Seq<char>
    decreases fs.len(),
{
    if fs.len() == 0 {
        Seq::empty()
    } else {
        let f = fs.last();
        let rest = fields_text(fs.drop_last(), omit, style, multi_line, depth);
        if listed(f.0@, omit) {
            rest + field_text(f, style, multi_line, depth)
        } else {
            rest
        }
    }
}

/// The attributes are written in the order they were given: the text of a
/// list is the text of its first part followed by that of the rest.
pub proof fn lemma_fields_keep_order(
    first: Seq<(String, String)>,
    rest: Seq<(String, String)>,
    omit: Omit,
    style: Seq<char>,
    multi_line: bool,
    depth: nat,
)
    ensures
        fields_text(first + rest, omit, style, multi_line, depth) == fields_text(
            first,
            omit,
            style,
            multi_line,
            depth,
        ) + fields_text(rest, omit, style, multi_line, depth),
    decreases rest.len(),
{
    if rest.len() == 0 {
        assert(first + rest =~= first);
        assert(fields_text(first, omit, style, multi_line, depth) + Seq::<char>::empty()
            =~= fields_text(first, omit, style, multi_line, depth));
    } else {
        lemma_fields_keep_order(first, rest.drop_last(), omit, style, multi_line, depth);
        assert((first + rest).drop_last() =~= first + rest.drop_last());
        assert((first + rest).last() == rest.last());
        let a = fields_text(first, omit, style, multi_line, depth);
        let b = fields_text(rest.drop_last(), omit, style, multi_line, depth);
        let f = field_text(rest.last(), style, multi_line, depth);
        assert(a + b + f =~= a + (b + f));
    }
}

fn push_field(s: &mut String, f: &(String, String), style: &str, multi_line: bool, depth: usize)
    ensures
        final(s)@ == old(s)@ + field_text(*f, style@, multi_line, depth as nat),
{
    if multi_line {
        s.append("\n");
        push_indent(s, depth);
        push_spaces(s, 22);
        s.append("- ");
        assert(spaces(2 * depth as nat) + spaces(22) =~= spaces(2 * depth as nat + 22));
    } else {
        s.append(" ");
    }
    s.append(style);
    s.append(f.0.as_str());
    s.append(": \x1b[22m");
    s.append(f.1.as_str());
    assert(final(s)@ =~= old(s)@ + field_text(*f, style@, multi_line, depth as nat));
}

/// Appends the listed attributes of `fs`, in order.
pub fn push_fields(
    s: &mut String,
    fs: &Vec<(String, String)>,
    omit: Omit,
    style: &str,
    multi_line: bool,
    depth: usize,
)
    ensures
        final(s)@ == old(s)@ + fields_text(fs@, omit, style@, multi_line, depth as nat),
{
    let ghost start = s@;
    let mut i: usize = 0;
    while i < fs.len()
        invariant
            i <= fs@.len(),
            s@ == start + fields_text(fs@.take(i as int), omit, style@, multi_line, depth as nat),
        decreases fs@.len() - i,
    {
        let f = &fs[i];
        if is_listed(&f.0, omit) {
            push_field(s, f, style, multi_line, depth);
        }
        assert(fs@.take(i + 1).drop_last() =~= fs@.take(i as int));
        i = i + 1;
    }
    assert(fs@.take(fs@.len() as int) =~= fs@);
}


/// The value of the last attribute named `key`, if any.
pub open spec fn last_value(fs: Seq<(String, String)>, key: Seq<char>) -> Option<Seq<char>>
    decreases fs.len(),
{
    if fs.len() == 0 {
        None
    } else if fs.last().0@ == key {
        Some(fs.last().1@)
    } else {
        last_value(fs.drop_last(), key)
    }
}

fn find_last<'a>(fs: &'a Vec<(String, String)>, key: &str) -> (r: Option<&'a String>)
    ensures
        match r {
            Some(v) => last_value(fs@, key@) == Some(v@),
            None => last_value(fs@, key@) is None,
        },
{
    let mut found: Option<&'a String> = None;
    let mut i: usize = 0;
    while i < fs.len()
        invariant
            i <= fs@.len(),
            match found {
                Some(v) => last_value(fs@.take(i as int), key@) == Some(v@),
                None => last_value(fs@.take(i as int), key@) is None,
            },
        decreases fs@.len() - i,
    {
        if is_text(&fs[i].0, key) {
            found = Some(&fs[i].1);
        }
        assert(fs@.take(i + 1).drop_last() =~= fs@.take(i as int));
        i = i + 1;
    }
    assert(fs@.take(fs@.len() as int) =~= fs@);
    found
}

/// The dimmed timestamp that opens every line, then the indentation.
pub open spec fn stamp_text(date_time: Seq<char>, depth: nat) -> Seq<char> {
    "\x1b[;2m["@ + date_time + "]\x1b[m "@ + spaces(2 * depth)
}

fn push_stamp(s: &mut String, date_time: &str, depth: usize)
    ensures
        final(s)@ == old(s)@ + stamp_text(date_time@, depth as nat),
{
    s.append("\x1b[;2m[");
    s.append(date_time);
    s.append("]\x1b[m ");
    push_indent(s, depth);
    assert(final(s)@ =~= old(s)@ + stamp_text(date_time@, depth as nat));
}

/// The marker after a span's context: blank the first time the span is
/// shown, a caret when it comes back into view.
pub open spec fn arrow_text(new: bool) -> Seq<char> {
    if new {
        " "@
    } else {
        "\x1b[93m^"@
    }
}

/// The display identifier in brackets.
pub open spec fn id_text(id: u16) -> Seq<char> {
    " \x1b[37m["@ + hex4(id) + "]\x1b[36m"@
}

/// The `::` between module path and name, left out when either is empty.
pub open spec fn divider(target: Seq<char>, name: Seq<char>) -> Seq<char> {
    if target.len() == 0 || name.len() == 0 {
        Seq::empty()
    } else {
        "::"@
    }
}

/// The end of every header and event line.
pub open spec fn line_end() -> Seq<char> {
    "\x1b[m\n"@
}

/// A request span's context: `METHOD path`, then the attributes other than
/// those two.
pub open spec fn request_body(
    info: SpanInfo,
    method: Seq<char>,
    path: Seq<char>,
    depth: nat,
    multi_line: bool,
) -> Seq<char> {
    "\x1b[37m"@ + method + "\x1b[m "@ + path + "\x1b[37m"@ + arrow_text(info.new) + id_text(info.id)
        + fields_text(info.records@, Omit::Request, "\x1b[2m"@, multi_line, depth)
}

/// Any other span's context: `target::name`, then all its attributes.
pub open spec fn named_body(info: SpanInfo, depth: nat, multi_line: bool) -> Seq<char> {
    "\x1b[m"@ + info.target@ + divider(info.target@, info.name@) + "\x1b[37m"@ + info.name@
        + arrow_text(info.new) + id_text(info.id)
        + fields_text(info.records@, Omit::Nothing, "\x1b[2m"@, multi_line, depth)
}

/// The header line of a span at nesting `depth`. A span that carries both a
/// `request_method` and a `request_path` attribute is shown as `METHOD path`
/// and those two are not listed again; any other as `target::name`.
pub open spec fn header_text(info: SpanInfo, depth: nat, multi_line: bool) -> Seq<char> {
    let method = last_value(info.records@, "request_method"@);
    let path = last_value(info.records@, "request_path"@);
    let body = if method is Some && path is Some {
        request_body(info, method.unwrap(), path.unwrap(), depth, multi_line)
    } else {
        named_body(info, depth, multi_line)
    };
    stamp_text(info.date_time@, depth) + body + line_end()
}

fn push_tail(s: &mut String, new: bool, id: u16)
    ensures
        final(s)@ == old(s)@ + arrow_text(new) + id_text(id),
{
    if new {
        s.append(" ");
    } else {
        s.append("\x1b[93m^");
    }
    s.append(" \x1b[37m[");
    push_hex4(s, id);
    s.append("]\x1b[36m");
    assert(final(s)@ =~= old(s)@ + arrow_text(new) + id_text(id));
}

fn push_request_body(
    s: &mut String,
    info: &SpanInfo,
    method: &String,
    path: &String,
    depth: usize,
    multi_line: bool,
)
    ensures
        final(s)@ == old(s)@ + request_body(*info, method@, path@, depth as nat, multi_line),
{
    s.append("\x1b[37m");
    s.append(method.as_str());
    s.append("\x1b[m ");
    s.append(path.as_str());
    s.append("\x1b[37m");
    push_tail(s, info.new, info.id);
    push_fields(s, &info.records, Omit::Request, "\x1b[2m", multi_line, depth);
    assert(final(s)@ =~= old(s)@ + request_body(*info, method@, path@, depth as nat, multi_line));
}

fn push_named_body(s: &mut String, info: &SpanInfo, depth: usize, multi_line: bool)
    ensures
        final(s)@ == old(s)@ + named_body(*info, depth as nat, multi_line),
{
    s.append("\x1b[m");
    s.append(info.target.as_str());
    if !info.target.as_str().is_empty() && !info.name.as_str().is_empty() {
        s.append("::");
    }
    s.append("\x1b[37m");
    s.append(info.name.as_str());
    push_tail(s, info.new, info.id);
    push_fields(s, &info.records, Omit::Nothing, "\x1b[2m", multi_line, depth);
    assert(final(s)@ =~= old(s)@ + named_body(*info, depth as nat, multi_line));
}

/// Appends the header line of `info` at nesting `depth`.
pub fn push_header(s: &mut String, info: &SpanInfo, depth: usize, multi_line: bool)
    ensures
        final(s)@ == old(s)@ + header_text(*info, depth as nat, multi_line),
{
    let ghost start = s@;
    let method = find_last(&info.records, "request_method");
    let path = find_last(&info.records, "request_path");
    push_stamp(s, info.date_time.as_str(), depth);
    match (method, path) {
        (Some(m), Some(p)) => push_request_body(s, info, m, p, depth, multi_line),
        _ => push_named_body(s, info, depth, multi_line),
    }
    s.append("\x1b[m\n");
    assert(s@ =~= start + header_text(*info, depth as nat, multi_line));
}

/// The line printed in place of a header when a span has no record.
pub open spec fn missing_text() -> Seq<char> {
    "\x1b[31mFailed to read span info\x1b[m\n"@
}

/// Appends the line that stands for a span without a record.
pub fn push_missing(s: &mut String)
    ensures
        final(s)@ == old(s)@ + missing_text(),
{
    s.append("\x1b[31mFailed to read span info\x1b[m\n");
}

/// A point-in-time log record.
pub struct Event {
    pub level: Level,
    /// The attributes as name and rendered value, in declaration order; the
    /// one named `message` is the text of the event.
    pub fields: Vec<(String, String)>,
}

/// The event's message, after a space, for each attribute named `message`.
pub open spec fn message_text(fs: Seq<(String, String)>) -> Seq<char>
    decreases fs.len(),
{
    if fs.len() == 0 {
        Seq::empty()
    } else if fs.last().0@ == "message"@ {
        message_text(fs.drop_last()) + " "@ + fs.last().1@
    } else {
        message_text(fs.drop_last())
    }
}

fn push_message(s: &mut String, fs: &Vec<(String, String)>)
    ensures
        final(s)@ == old(s)@ + message_text(fs@),
{
    let ghost start = s@;
    let mut i: usize = 0;
    while i < fs.len()
        invariant
            i <= fs@.len(),
            s@ == start + message_text(fs@.take(i as int)),
        decreases fs@.len() - i,
    {
        if is_text(&fs[i].0, "message") {
            s.append(" ");
            s.append(fs[i].1.as_str());
        }
        assert(fs@.take(i + 1).drop_last() =~= fs@.take(i as int));
        assert(s@ =~= start + message_text(fs@.take(i + 1)));
        i = i + 1;
    }
    assert(fs@.take(fs@.len() as int) =~= fs@);
}

/// The line of an event at nesting `depth`, stamped `date_time`: level,
/// message, then the other attributes in order.
pub open spec fn event_text(date_time: Seq<char>, depth: nat, event: Event, multi_line: bool) -> Seq<
    char,
> {
    stamp_text(date_time, depth) + level_tag(event.level) + "\x1b[m"@ + message_text(event.fields@)
        + fields_text(event.fields@, Omit::Message, "\x1b[36;2m"@, multi_line, depth) + line_end()
}

/// Appends the line of `event` at nesting `depth`, stamped `date_time`.
pub fn push_event(s: &mut String, date_time: &str, depth: usize, event: &Event, multi_line: bool)
    ensures
        final(s)@ == old(s)@ + event_text(date_time@, depth as nat, *event, multi_line),
{
    let ghost start = s@;
    push_stamp(s, date_time, depth);
    s.append(level_tag_str(event.level));
    s.append("\x1b[m");
    push_message(s, &event.fields);
    push_fields(s, &event.fields, Omit::Message, "\x1b[36;2m", multi_line, depth);
    s.append("\x1b[m\n");
    assert(s@ =~= start + event_text(date_time@, depth as nat, *event, multi_line));
}

} // verus!

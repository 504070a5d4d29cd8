use tracing_logs::extract::{ConfigExtractor, Field, FieldValue};
use tracing_logs::render::{header, tag_for_level, line_prefix, render_lines, Level, TracingFormatter};
use tracing_logs::span::{depth_counter, span_path, span_segment, SpanProfile};
use tracing_logs::style::{BOLD, DIM, GREEN, RED, RESET, YELLOW};
use tracing_logs::text::{right_align, push_decimal, split_lines};

const TS: &str = "2024-10-19 16:45:35";

fn names(v: &[&str]) -> Vec<String> {
    v.iter().map(|s| s.to_string()).collect()
}

fn fields_of(v: &[(&str, &str)]) -> ConfigExtractor {
    let mut e = ConfigExtractor::new();
    for (n, val) in v {
        e.record_str(n, val);
    }
    e
}

fn plain_prefix(tag: &str) -> String {
    format!("{DIM}{TS}{RESET} {tag}{DIM}⣿ {RESET}")
}

#[test]
fn split_lines_three_lines() {
    assert_eq!(split_lines("line1\nline2\nline3"), names(&["line1", "line2", "line3"]));
}

#[test]
fn split_lines_empty_gives_one_line() {
    assert_eq!(split_lines(""), names(&[""]));
}

#[test]
fn split_lines_crlf_and_trailing_newline() {
    assert_eq!(split_lines("a\r\nb\n"), names(&["a", "b"]));
    assert_eq!(split_lines("a\n\nb"), names(&["a", "", "b"]));
    assert_eq!(split_lines("\n"), names(&[""]));
    assert_eq!(split_lines("x\r"), names(&["x\r"]));
}

#[test]
fn pad_and_decimal() {
    assert_eq!(right_align("ab", 5), "   ab");
    assert_eq!(right_align("abcdef", 3), "abcdef");
    let mut s = String::from("n=");
    push_decimal(&mut s, 0);
    push_decimal(&mut s, 907);
    assert_eq!(s, "n=0907");
}

#[test]
fn level_tags() {
    assert_eq!(tag_for_level(Level::Info), format!("{GREEN} INFO{RESET} "));
    assert_eq!(tag_for_level(Level::Warn), format!("{YELLOW} WARN{RESET} "));
    assert_eq!(tag_for_level(Level::Error), format!("{RED}ERROR{RESET} "));
    assert_eq!(tag_for_level(Level::Debug), "DEBUG ");
    assert_eq!(tag_for_level(Level::Trace), "TRACE ");
    assert!(Level::Trace < Level::Debug && Level::Warn < Level::Error);
}

#[test]
fn extractor_reserved_and_ordinary_fields() {
    let mut e = ConfigExtractor::new();
    e.record_str("user", "ann");
    e.record_str("message", "hello");
    e.record_str("_text_color", BOLD);
    e.record_str("_header_color", RED);
    e.record_str("_header_text", "DB");
    e.record_debug("count", "3");
    assert_eq!(e.buf, ", user = annhello, count = 3");
    assert_eq!(e.text_color.as_deref(), Some(BOLD));
    assert_eq!(e.header_color.as_deref(), Some(RED));
    assert_eq!(e.header_text.as_deref(), Some("DB"));
}

#[test]
fn extractor_debug_values() {
    let mut e = ConfigExtractor::new();
    e.record_debug("message", "\"quoted\"");
    e.record_debug("_text_color", "\"x\"");
    assert_eq!(e.buf, "\"quoted\", _text_color = \"x\"");
    assert_eq!(e.text_color, None);
}

#[test]
fn extract_from_field_list() {
    let fields = vec![
        Field { name: "message".to_string(), value: FieldValue::Str("hi".to_string()) },
        Field { name: "n".to_string(), value: FieldValue::Debug("42".to_string()) },
        Field { name: "_header_text".to_string(), value: FieldValue::Str("NET".to_string()) },
    ];
    let e = ConfigExtractor::extract(&fields);
    assert_eq!(e.buf, "hi, n = 42");
    assert_eq!(e.header_text.as_deref(), Some("NET"));
    assert_eq!(e.header_color, None);
}

#[test]
fn span_path_root_first() {
    assert_eq!(span_path(&names(&["A", "B", "C"])), "A > B > C");
    assert_eq!(span_path(&names(&["only"])), "only");
    assert_eq!(span_path(&names(&[])), "");
}

#[test]
fn span_segments() {
    assert_eq!(span_segment(SpanProfile::Path, &names(&[])), "");
    assert_eq!(span_segment(SpanProfile::Depth, &names(&[])), "");
    assert_eq!(span_segment(SpanProfile::Path, &names(&["a", "b"])), ">> a > b ");
    assert_eq!(span_segment(SpanProfile::Depth, &names(&["a", "b"])), ">> ");
}

#[test]
fn depth_counters() {
    assert_eq!(depth_counter(1), ">");
    assert_eq!(depth_counter(2), ">>");
    assert_eq!(depth_counter(3), ">>>");
    assert_eq!(depth_counter(4), ">>4");
    assert_eq!(depth_counter(12), ">>12");
}

#[test]
fn header_alignment() {
    assert_eq!(header(YELLOW, "HTTP"), format!("{YELLOW}{BOLD}      [HTTP]:{RESET} "));
    assert_eq!(header(RED, "ABCDEFGHIJK"), format!("{RED}{BOLD}[ABCDEFGHIJK]:{RESET} "));
}

#[test]
fn plain_event_has_no_header_or_text_color() {
    let e = fields_of(&[("message", "hello"), ("k", "v")]);
    let out = TracingFormatter::new().render(TS, Level::Info, &names(&[]), &e);
    let prefix = plain_prefix(&format!("{GREEN} INFO{RESET} "));
    assert_eq!(out, format!("{prefix} hello, k = v{RESET}\n"));
}

#[test]
fn headered_event_pads_continuation_lines() {
    let e = fields_of(&[("_header_color", BLUE_LIKE), ("_header_text", "CFG"), ("message", "one\ntwo\nthree")]);
    let prefix = line_prefix(TS, Level::Debug, "");
    let out = render_lines(&prefix, &e);
    let pad = " ".repeat(14);
    let head = format!("{BLUE_LIKE}{BOLD}       [CFG]:{RESET} ");
    assert_eq!(
        out,
        format!("{prefix} {head}one{RESET}\n{prefix} {pad}two{RESET}\n{prefix} {pad}three{RESET}\n")
    );
    for line in out.lines() {
        assert!(line.starts_with(&prefix));
    }
}

const BLUE_LIKE: &str = "\x1B[34m";

#[test]
fn header_and_text_color_event() {
    let e = fields_of(&[("_text_color", RED), ("_header_color", YELLOW), ("_header_text", "X"), ("message", "a\nb")]);
    let prefix = line_prefix(TS, Level::Error, "");
    let out = render_lines(&prefix, &e);
    let pad = " ".repeat(14);
    let head = format!("{YELLOW}{BOLD}         [X]:{RESET} ");
    assert_eq!(out, format!("{prefix} {head}{RED}a{RESET}\n{prefix} {pad}{RED}b{RESET}\n"));
}

#[test]
fn text_color_without_header() {
    let e = fields_of(&[("_text_color", GREEN), ("_header_text", "lonely"), ("message", "a\nb")]);
    let prefix = line_prefix(TS, Level::Info, "");
    let out = render_lines(&prefix, &e);
    assert_eq!(out, format!("{prefix} {GREEN}a{RESET}\n{prefix} {GREEN}b{RESET}\n"));
}

#[test]
fn multi_line_message_gives_three_lines() {
    let e = fields_of(&[("message", "line1\nline2\nline3")]);
    let out = TracingFormatter::new().render(TS, Level::Warn, &names(&["A"]), &e);
    assert_eq!(out.matches('\n').count(), 3);
    let prefix = line_prefix(TS, Level::Warn, ">> A ");
    for (line, text) in out.lines().zip(["line1", "line2", "line3"]) {
        assert_eq!(line, format!("{prefix} {text}{RESET}"));
    }
}

#[test]
fn empty_event_renders_one_minimal_line() {
    let e = ConfigExtractor::new();
    let out = TracingFormatter::new().render(TS, Level::Trace, &names(&[]), &e);
    assert_eq!(out, format!("{} {RESET}\n", plain_prefix("TRACE ")));
}

#[test]
fn span_path_in_prefix() {
    let e = fields_of(&[("message", "m")]);
    let out = TracingFormatter::new().render(TS, Level::Debug, &names(&["A", "B", "C"]), &e);
    assert_eq!(out, format!("{DIM}{TS}{RESET} DEBUG {DIM}>> A > B > C ⣿ {RESET} m{RESET}\n"));
    let compact = TracingFormatter::compact().render(TS, Level::Debug, &names(&["A", "B", "C", "D", "E"]), &e);
    assert_eq!(compact, format!("{DIM}{TS}{RESET} DEBUG {DIM}>>5 ⣿ {RESET} m{RESET}\n"));
}

#[test]
fn rendering_twice_is_identical() {
    let e = fields_of(&[("_header_color", RED), ("_header_text", "A"), ("message", "x\ny"), ("z", "1")]);
    let f = TracingFormatter::new();
    let spans = names(&["outer", "inner"]);
    assert_eq!(f.render(TS, Level::Error, &spans, &e), f.render(TS, Level::Error, &spans, &e));
}

#[test]
fn warn_with_http_header_example() {
    let e = fields_of(&[("_header_color", "\x1B[33m"), ("_header_text", "HTTP"), ("message", "Unable to ping host")]);
    let out = TracingFormatter::new().render(TS, Level::Warn, &names(&[]), &e);
    let expected = format!(
        "{DIM}{TS}{RESET} {YELLOW} WARN{RESET} {DIM}⣿ {RESET} {YELLOW}{BOLD}      [HTTP]:{RESET} Unable to ping host{RESET}\n"
    );
    assert_eq!(out, expected);
}

#[test]
fn format_event_stamps_local_time() {
    let e = fields_of(&[("message", "now")]);
    let out = TracingFormatter::new().format_event(Level::Info, &names(&[]), &e);
    assert!(out.starts_with(DIM));
    let stamp: Vec<char> = out[DIM.len()..].chars().take(19).collect();
    assert_eq!(stamp.len(), 19);
    for (i, c) in stamp.iter().enumerate() {
        match i {
            4 | 7 => assert_eq!(*c, '-'),
            10 => assert_eq!(*c, ' '),
            13 | 16 => assert_eq!(*c, ':'),
            _ => assert!(c.is_ascii_digit()),
        }
    }
    assert!(out.ends_with(&format!(" now{RESET}\n")));
}

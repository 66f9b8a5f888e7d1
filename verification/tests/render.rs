use doglog::level::Level;
use doglog::textfmt::build_event_title;
use doglog::textfmt::build_header;
use doglog::textfmt::build_tags;
use doglog::textfmt::indent_body;
use doglog::textfmt::render_line;

#[test]
fn header_with_module() {
    assert_eq!(
        build_header(Level::Info, "0:00:00.000", Some("one::deep")),
        "[LOG 0:00:00.000 one::deep]"
    );
}

#[test]
fn header_without_module() {
    assert_eq!(build_header(Level::Error, "1:02:03.456", None), "[ERR 1:02:03.456]");
}

#[test]
fn info_record_with_module() {
    let line = render_line(Level::Info, Some("one::deep"), "such information", 0, 0);
    // painted bold green header, one separating space, the message,
    // a single terminating newline
    assert_eq!(
        line,
        "\u{1b}[1;32m[LOG 0:00:00.000 one::deep]\u{1b}[0m such information\n"
    );
    assert!(line.contains("LOG"));
    assert!(line.contains("one::deep"));
    assert!(line.ends_with('\n'));
    assert_eq!(line.matches('\n').count(), 1);
}

#[test]
fn continuation_line_is_indented_by_the_header_width() {
    let line = render_line(Level::Warn, None, "line1\nline2", 0, 0);
    let header = "[WRN 0:00:00.000]";
    let parts: Vec<&str> = line.trim_end_matches('\n').split('\n').collect();
    assert_eq!(parts.len(), 2);
    let continuation = parts[1];
    let leading_spaces = continuation.len() - continuation.trim_start_matches(' ').len();
    // the body starts one column past the header, and so does line2
    assert_eq!(leading_spaces, header.len() + 1);
    assert_eq!(continuation.trim_start_matches(' '), "line2");
}

#[test]
fn indent_body_replaces_each_newline() {
    assert_eq!(indent_body("a\nb\nc", 5), "a\n      b\n      c");
    assert_eq!(indent_body("plain", 17), "plain");
    assert_eq!(indent_body("", 3), "");
}

#[test]
fn tags_are_level_then_module() {
    let tags = build_tags(Level::Warn, "one::deep");
    assert_eq!(tags.len(), 2);
    assert_eq!(tags[0], "level:warning");
    assert_eq!(tags[1], "module:one::deep");
}

#[test]
fn event_title_is_the_moduleless_header_then_the_module() {
    assert_eq!(
        build_event_title(Level::Debug, "0:00:01.500", "a::b"),
        "[DBG 0:00:01.500] a::b"
    );
}

#[test]
fn colors_by_level() {
    let trace = render_line(Level::Trace, None, "m", 0, 0);
    let debug = render_line(Level::Debug, None, "m", 0, 0);
    let info = render_line(Level::Info, None, "m", 0, 0);
    let warn = render_line(Level::Warn, None, "m", 0, 0);
    let error = render_line(Level::Error, None, "m", 0, 0);
    assert!(trace.starts_with("\u{1b}[1;35m"));
    assert!(debug.starts_with("\u{1b}[1;34m"));
    assert!(info.starts_with("\u{1b}[1;32m"));
    assert!(warn.starts_with("\u{1b}[1;33m"));
    assert!(error.starts_with("\u{1b}[1;31m"));
}

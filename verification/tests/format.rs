use human_panic_logger::report::{FailureRecord, SourceLocation, StackFrame, Symbol};
use human_panic_logger::report::{format_backtrace, format_log_record, format_panic};

fn record(message: Option<&str>, location: Option<(&str, u32)>) -> FailureRecord {
    FailureRecord {
        message: message.map(|m| m.to_string()),
        location: location.map(|(file, line)| SourceLocation { file: file.to_string(), line }),
    }
}

fn symbol(name: Option<&str>, source: Option<(&str, u32)>) -> Symbol {
    Symbol {
        name: name.map(|n| n.to_string()),
        filename: source.map(|(f, _)| f.to_string()),
        lineno: source.map(|(_, l)| l),
    }
}

fn count_occurrences(haystack: &str, needle: &str) -> usize {
    haystack.match_indices(needle).count()
}

#[test]
fn message_and_location_render_exactly_once() {
    let rec = record(Some("boom"), Some(("src/lib.rs", 42)));
    let out = format_panic(&rec, &Vec::new());
    assert_eq!(out, "Panic occurred in file 'src/lib.rs' at line 42\n\n   boom\n");
    assert_eq!(count_occurrences(&out, "boom"), 1);
    assert_eq!(count_occurrences(&out, "src/lib.rs"), 1);
    assert_eq!(count_occurrences(&out, "at line 42"), 1);
}

#[test]
fn missing_message_renders_unknown() {
    let rec = record(None, Some(("main.rs", 7)));
    let out = format_panic(&rec, &Vec::new());
    assert_eq!(out, "Panic occurred in file 'main.rs' at line 7\n\n   Unknown\n");
}

#[test]
fn missing_location_renders_explicit_sentence() {
    let rec = record(Some("oops"), None);
    let out = format_panic(&rec, &Vec::new());
    assert_eq!(out, "Panic location unknown.\n\n   oops\n");
}

#[test]
fn missing_both_renders_both_markers() {
    let out = format_panic(&record(None, None), &Vec::new());
    assert_eq!(out, "Panic location unknown.\n\n   Unknown\n");
}

#[test]
fn backtrace_renders_every_frame_with_increasing_indices() {
    let frames = vec![
        StackFrame { address: 0x1000, symbols: vec![symbol(Some("main"), Some(("app.src", 10)))] },
        StackFrame { address: 0xdeadbeef, symbols: vec![] },
    ];
    let out = format_backtrace(&frames);
    let expected = format!(
        "\n   0: 0x0000000000001000 - main\n{:24}at app.src:10\n   1: 0x00000000deadbeef - <unresolved>",
        ""
    );
    assert_eq!(out, expected);
    assert_eq!(count_occurrences(&out, "   0: "), 1);
    assert_eq!(count_occurrences(&out, "   1: "), 1);
    assert_eq!(out.lines().filter(|l| l.contains(": 0x")).count(), frames.len());
}

#[test]
fn unresolved_frame_renders_marker_and_no_symbol_line() {
    let frames = vec![StackFrame { address: 1, symbols: vec![] }];
    let out = format_backtrace(&frames);
    assert_eq!(out, "\n   0: 0x0000000000000001 - <unresolved>");
    assert_eq!(count_occurrences(&out, "<unresolved>"), 1);
    assert_eq!(count_occurrences(&out, "<unknown>"), 0);
    assert_eq!(count_occurrences(&out, "at "), 0);
}

#[test]
fn several_symbols_continue_on_aligned_lines() {
    let frames = vec![StackFrame {
        address: 0xabc,
        symbols: vec![symbol(Some("alpha"), None), symbol(None, Some(("x.rs", 7)))],
    }];
    let out = format_backtrace(&frames);
    let expected = format!(
        "\n   0: 0x0000000000000abc - alpha\n{:24} - <unknown>\n{:24}at x.rs:7",
        "", ""
    );
    assert_eq!(out, expected);
}

#[test]
fn symbol_without_source_omits_at_line() {
    let frames = vec![StackFrame { address: 2, symbols: vec![symbol(Some("f"), None)] }];
    let out = format_backtrace(&frames);
    assert_eq!(out, "\n   0: 0x0000000000000002 - f");
}

#[test]
fn addresses_render_as_fixed_width_hex() {
    let frames = vec![
        StackFrame { address: 0, symbols: vec![] },
        StackFrame { address: u64::MAX, symbols: vec![] },
    ];
    let out = format_backtrace(&frames);
    assert_eq!(
        out,
        "\n   0: 0x0000000000000000 - <unresolved>\n   1: 0xffffffffffffffff - <unresolved>"
    );
}

#[test]
fn frame_indices_pad_to_four_columns() {
    let mut frames = Vec::new();
    for i in 0..12 {
        frames.push(StackFrame { address: i, symbols: vec![] });
    }
    let out = format_backtrace(&frames);
    assert_eq!(count_occurrences(&out, "\n   9: "), 1);
    assert_eq!(count_occurrences(&out, "\n  10: "), 1);
    assert_eq!(count_occurrences(&out, "\n  11: "), 1);
    assert_eq!(out.lines().filter(|l| l.contains(": 0x")).count(), 12);
}

#[test]
fn formatter_is_deterministic() {
    let frames = vec![
        StackFrame { address: 0x77, symbols: vec![symbol(Some("main"), Some(("m.rs", 3)))] },
        StackFrame { address: 0x78, symbols: vec![] },
    ];
    let first = format_panic(&record(Some("twice"), Some(("a.rs", 1))), &frames);
    let second = format_panic(&record(Some("twice"), Some(("a.rs", 1))), &frames);
    assert_eq!(first, second);
}

#[test]
fn log_record_carries_severity_tag() {
    let rec = record(Some("bad"), None);
    let out = format_log_record(&rec, &Vec::new());
    assert_eq!(out, "Panic! :: Panic location unknown.\n\n   bad\n");
    assert!(out.starts_with("Panic! :: "));
}

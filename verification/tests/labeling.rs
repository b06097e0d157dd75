use ghop::mux::{
    make_line_msg, render_all, render_event, render_prefix, render_timeout_message, OutputEvent,
    StreamKind,
};
use ghop::text::u64_to_decimal;

#[test]
fn decimal_renders_single_digits() {
    assert_eq!(u64_to_decimal(0), "0");
    assert_eq!(u64_to_decimal(7), "7");
    assert_eq!(u64_to_decimal(9), "9");
}

#[test]
fn decimal_renders_multi_digit_numbers() {
    assert_eq!(u64_to_decimal(10), "10");
    assert_eq!(u64_to_decimal(124), "124");
    assert_eq!(u64_to_decimal(9876543210), "9876543210");
}

#[test]
fn stdout_lines_are_labeled_one_based() {
    let ev = OutputEvent { index: 0, stream: StreamKind::Stdout, line: "hello".to_string() };
    assert_eq!(render_event(&ev), "[1] hello");
}

#[test]
fn stderr_lines_carry_err_marker() {
    let ev = OutputEvent { index: 0, stream: StreamKind::Stderr, line: "oops".to_string() };
    assert_eq!(render_event(&ev), "[1][err] oops");
}

#[test]
fn labels_follow_command_position() {
    let a = OutputEvent { index: 1, stream: StreamKind::Stdout, line: "blue".to_string() };
    let b = OutputEvent { index: 9, stream: StreamKind::Stdout, line: "x".to_string() };
    let c = OutputEvent { index: 10, stream: StreamKind::Stderr, line: "y".to_string() };
    assert_eq!(render_event(&a), "[2] blue");
    assert_eq!(render_event(&b), "[10] x");
    assert_eq!(render_event(&c), "[11][err] y");
}

#[test]
fn prefixes_alone_match_the_line_format() {
    assert_eq!(render_prefix(0, StreamKind::Stdout), "[1] ");
    assert_eq!(render_prefix(0, StreamKind::Stderr), "[1][err] ");
    assert_eq!(render_prefix(41, StreamKind::Stdout), "[42] ");
}

#[test]
fn empty_line_still_gets_its_prefix() {
    let ev = OutputEvent { index: 2, stream: StreamKind::Stdout, line: String::new() };
    assert_eq!(render_event(&ev), "[3] ");
}

#[test]
fn timeout_message_matches_convention() {
    assert_eq!(render_timeout_message(0, 1), "[1][err] command timed out after 1s");
    assert_eq!(render_timeout_message(4, 30), "[5][err] command timed out after 30s");
}

#[test]
fn make_line_msg_keeps_its_fields() {
    let ev = make_line_msg(3, StreamKind::Stderr, "warning".to_string());
    assert_eq!(ev.index, 3);
    assert!(matches!(ev.stream, StreamKind::Stderr));
    assert_eq!(ev.line, "warning");
}

#[test]
fn concurrent_events_each_render_one_intact_line() {
    // Two commands that each emit two lines, in an interleaved completion
    // order: every rendered line is complete and labeled with its own
    // command, never a concatenation of two sources.
    let events = vec![
        OutputEvent { index: 0, stream: StreamKind::Stdout, line: "a".to_string() },
        OutputEvent { index: 1, stream: StreamKind::Stdout, line: "b".to_string() },
        OutputEvent { index: 1, stream: StreamKind::Stdout, line: "b2".to_string() },
        OutputEvent { index: 0, stream: StreamKind::Stdout, line: "a2".to_string() },
    ];
    let rendered = render_all(&events);
    assert_eq!(rendered, vec!["[1] a", "[2] b", "[2] b2", "[1] a2"]);
    for line in &rendered {
        assert_eq!(line.matches('[').count(), 1);
    }
}

use hash_interactive::command::InteractiveError;
use hash_interactive::repl::{on_read_event, quit_farewell, read_farewell, ReadAction, ReadEvent};

#[test]
fn a_read_line_is_processed() {
    match on_read_event(ReadEvent::Line(String::from("1 + 2"))) {
        ReadAction::Process(l) => assert_eq!(l, "1 + 2"),
        _ => panic!("expected the line to be processed"),
    }
}

#[test]
fn interrupt_ends_the_loop_with_a_farewell() {
    assert!(matches!(on_read_event(ReadEvent::Interrupted), ReadAction::Farewell));
    assert!(matches!(on_read_event(ReadEvent::EndOfInput), ReadAction::Farewell));
    assert_eq!(read_farewell(), "Exiting!");
}

#[test]
fn quit_farewell_text() {
    assert_eq!(quit_farewell(), "Goodbye!");
}

#[test]
fn other_read_failures_are_recoverable() {
    match on_read_event(ReadEvent::Failed(String::from("pipe closed"))) {
        ReadAction::Report(e) => {
            assert!(matches!(&e, InteractiveError::Internal(m) if m == "pipe closed"));
            assert_eq!(e.message(), "internal error: pipe closed");
        },
        _ => panic!("expected a recoverable report"),
    }
}

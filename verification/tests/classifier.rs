use hash_interactive::command::{classify, InteractiveCommand, InteractiveError};

#[test]
fn quit_short_and_long() {
    assert!(matches!(classify(":q"), Ok(InteractiveCommand::Quit)));
    assert!(matches!(classify(":quit"), Ok(InteractiveCommand::Quit)));
    assert!(matches!(classify("  :q  "), Ok(InteractiveCommand::Quit)));
}

#[test]
fn clear_short_and_long() {
    assert!(matches!(classify(":c"), Ok(InteractiveCommand::Clear)));
    assert!(matches!(classify(":clear"), Ok(InteractiveCommand::Clear)));
}

#[test]
fn version_short_and_long() {
    assert!(matches!(classify(":v"), Ok(InteractiveCommand::Version)));
    assert!(matches!(classify(":version"), Ok(InteractiveCommand::Version)));
}

#[test]
fn type_query_keeps_operand() {
    match classify(":t 1 + 2") {
        Ok(InteractiveCommand::Type(e)) => assert_eq!(e, "1 + 2"),
        _ => panic!("expected a type query"),
    }
    match classify(":type  x  ") {
        Ok(InteractiveCommand::Type(e)) => assert_eq!(e, "x"),
        _ => panic!("expected a type query"),
    }
}

#[test]
fn display_query_keeps_operand() {
    match classify(":d foo") {
        Ok(InteractiveCommand::Display(e)) => assert_eq!(e, "foo"),
        _ => panic!("expected a display query"),
    }
    match classify(":display a b") {
        Ok(InteractiveCommand::Display(e)) => assert_eq!(e, "a b"),
        _ => panic!("expected a display query"),
    }
}

#[test]
fn plain_input_is_code_unchanged() {
    match classify("1 + 2") {
        Ok(InteractiveCommand::Code(e)) => assert_eq!(e, "1 + 2"),
        _ => panic!("expected source code"),
    }
    // The payload is the whole line, not the trimmed line.
    match classify("  let x = 3; ") {
        Ok(InteractiveCommand::Code(e)) => assert_eq!(e, "  let x = 3; "),
        _ => panic!("expected source code"),
    }
}

#[test]
fn code_may_mention_colons_later() {
    match classify("a : b") {
        Ok(InteractiveCommand::Code(e)) => assert_eq!(e, "a : b"),
        _ => panic!("expected source code"),
    }
}

#[test]
fn missing_operand_is_malformed() {
    match classify(":t") {
        Err(InteractiveError::MissingOperand(t)) => assert_eq!(t, ":t"),
        _ => panic!("expected a missing-operand error"),
    }
    match classify(":type   ") {
        Err(InteractiveError::MissingOperand(t)) => assert_eq!(t, ":type"),
        _ => panic!("expected a missing-operand error"),
    }
    match classify(":d") {
        Err(InteractiveError::MissingOperand(t)) => assert_eq!(t, ":d"),
        _ => panic!("expected a missing-operand error"),
    }
    match classify(":display") {
        Err(InteractiveError::MissingOperand(t)) => assert_eq!(t, ":display"),
        _ => panic!("expected a missing-operand error"),
    }
}

#[test]
fn unknown_leading_colon_is_malformed() {
    match classify(":x foo") {
        Err(InteractiveError::UnknownCommand(t)) => assert_eq!(t, ":x foo"),
        _ => panic!("expected an unknown-command error"),
    }
    // Near misses of a recognized word are unknown, not recognized.
    assert!(matches!(classify(":types x"), Err(InteractiveError::UnknownCommand(_))));
    assert!(matches!(classify(":Q"), Err(InteractiveError::UnknownCommand(_))));
}

#[test]
fn error_messages_render() {
    match classify(":x") {
        Err(e) => assert_eq!(e.message(), "unknown command: :x"),
        _ => panic!("expected an error"),
    }
    match classify(":t") {
        Err(e) => assert_eq!(e.message(), "missing operand after: :t"),
        _ => panic!("expected an error"),
    }
}

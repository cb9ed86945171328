use tsef::{ansi_state_machine::AnsiStateMachine, State, StateMachine};

fn create_test_ansi_sequence() -> String {
    // The cyan colour code that the TypeScript compiler puts before a path
    "\u{001b}[96m".to_string()
}

fn create_ansi_line_with_path(path: &str) -> String {
    format!("\u{001b}[96m{}\u{001b}[0m:15:7 - error TS2322", path)
}

#[test]
fn test_ansi_state_machine_creation() {
    let identifier = create_test_ansi_sequence();
    let patterns = vec!["src/**/*".to_string()];
    let sm = AnsiStateMachine::new(identifier.clone(), patterns);

    assert_eq!(sm.identifier, identifier);
    assert_eq!(sm.state, State::ParseToPause);
    assert!(!sm.is_finished());
}

#[test]
fn test_ansi_state_machine_test_empty_include_list_matches_all() {
    let identifier = create_test_ansi_sequence();
    let patterns = vec![];
    let mut sm = AnsiStateMachine::new(identifier, patterns);

    // With no patterns everything matches: the filter stays in ParseToPause
    // and prints everything
    let ansi_line = create_ansi_line_with_path("src/components/Header.tsx");
    let (state, should_print) = sm.run(&ansi_line).unwrap();
    assert_eq!(*state, State::ParseToPause);
    assert!(should_print);

    let ansi_line = create_ansi_line_with_path("node_modules/@types/react/index.d.ts");
    let (state, should_print) = sm.run(&ansi_line).unwrap();
    assert_eq!(*state, State::ParseToPause);
    assert!(should_print);
}

#[test]
fn test_ansi_state_machine_test_filter_by_exact_path() {
    let identifier = create_test_ansi_sequence();
    let patterns = vec!["src/components/Header.tsx".to_string()];
    let mut sm = AnsiStateMachine::new(identifier, patterns);

    // The marker is there and the path matches: no flip
    let ansi_line = create_ansi_line_with_path("src/components/Header.tsx");
    let (state, should_print) = sm.run(&ansi_line).unwrap();
    assert_eq!(*state, State::ParseToPause);
    assert!(should_print);

    // The lines that follow keep printing
    let (state, should_print) = sm.run(&"  some error details".to_string()).unwrap();
    assert_eq!(*state, State::ParseToPause);
    assert!(should_print);
}

#[test]
fn test_ansi_state_machine_test_filter_by_glob_pattern() {
    let identifier = create_test_ansi_sequence();
    let patterns = vec!["src/**/*".to_string()];
    let mut sm = AnsiStateMachine::new(identifier, patterns);

    // A path under src/ matches: stay in ParseToPause
    let ansi_line = create_ansi_line_with_path("src/components/Header.tsx");
    let (state, should_print) = sm.run(&ansi_line).unwrap();
    assert_eq!(*state, State::ParseToPause);
    assert!(should_print);

    // node_modules does not match: flip to ParseToContinue
    let ansi_line = create_ansi_line_with_path("node_modules/@types/react/index.d.ts");
    let (state, should_print) = sm.run(&ansi_line).unwrap();
    assert_eq!(*state, State::ParseToContinue);
    assert!(!should_print);
}

#[test]
fn test_state_transitions() {
    let identifier = create_test_ansi_sequence();
    let patterns = vec!["src/components/**/*".to_string()];
    let mut sm = AnsiStateMachine::new(identifier, patterns);

    // Start in ParseToPause
    assert_eq!(sm.state, State::ParseToPause);

    // A matching path: stay in ParseToPause
    let ansi_line = create_ansi_line_with_path("src/components/Header.tsx");
    let (state, should_print) = sm.run(&ansi_line).unwrap();
    assert_eq!(*state, State::ParseToPause);
    assert!(should_print);

    // Lines without the marker stay in the same state
    let (state, should_print) = sm.run(&"  error details".to_string()).unwrap();
    assert_eq!(*state, State::ParseToPause);
    assert!(should_print);

    // A path that does not match: flip to ParseToContinue
    let ansi_line = create_ansi_line_with_path("src/utils/helpers.ts");
    let (state, should_print) = sm.run(&ansi_line).unwrap();
    assert_eq!(*state, State::ParseToContinue);
    assert!(!should_print);
}

#[test]
fn test_empty_lines_trigger_check_end() {
    let identifier = create_test_ansi_sequence();
    let patterns = vec!["src/**/*".to_string()];
    let mut sm = AnsiStateMachine::new(identifier, patterns);

    // An empty line
    let (state, should_print) = sm.run(&"".to_string()).unwrap();
    assert!(matches!(*state, State::CheckEnd(true, 1)));
    assert!(should_print);

    // Another empty line
    let (state, should_print) = sm.run(&"".to_string()).unwrap();
    assert!(matches!(*state, State::CheckEnd(true, 2)));
    assert!(should_print);
}

#[test]
fn test_end_state_detection() {
    let identifier = create_test_ansi_sequence();
    let patterns = vec!["src/**/*".to_string()];
    let mut sm = AnsiStateMachine::new(identifier, patterns);

    // The end: empty lines, then the summary
    sm.run(&"".to_string()).unwrap();
    sm.run(&"".to_string()).unwrap();

    // A line that starts with text after the empty lines ends the diagnostics
    let (state, should_print) = sm.run(&"Found 4 errors in 4 files.".to_string()).unwrap();
    assert_eq!(*state, State::End);
    assert!(should_print);

    assert!(sm.is_finished());
}

#[test]
fn test_non_ansi_lines_in_ansi_mode() {
    let identifier = create_test_ansi_sequence();
    let patterns = vec!["src/**/*".to_string()];
    let mut sm = AnsiStateMachine::new(identifier, patterns);

    // Lines without escape sequences keep the state
    let (state, should_print) = sm.run(&"some regular text".to_string()).unwrap();
    assert_eq!(*state, State::ParseToPause);
    assert!(should_print);

    // A header that does not match flips to ParseToContinue
    let ansi_line = create_ansi_line_with_path("other/file.ts");
    sm.run(&ansi_line).unwrap();

    // Now plain lines are not printed
    let (state, should_print) = sm.run(&"error details".to_string()).unwrap();
    assert_eq!(*state, State::ParseToContinue);
    assert!(!should_print);
}

#[test]
fn test_wrong_ansi_sequence_ignored() {
    let identifier = create_test_ansi_sequence();
    let patterns = vec!["src/**/*".to_string()];
    let mut sm = AnsiStateMachine::new(identifier, patterns);

    // Another escape sequence (91 instead of 96)
    let wrong_ansi_line = "\u{001b}[91msrc/components/Header.tsx\u{001b}[0m:15:7 - error";
    let (state, should_print) = sm.run(&wrong_ansi_line.to_string()).unwrap();

    // The state stays, since the sequence is not the marker
    assert_eq!(*state, State::ParseToPause);
    assert!(should_print);
}

#[test]
fn test_malformed_ansi_line() {
    let identifier = create_test_ansi_sequence();
    let patterns = vec!["src/**/*".to_string()];
    let mut sm = AnsiStateMachine::new(identifier, patterns);

    // A line with an escape sequence that is not the marker: no path is
    // looked for, the line prints as the state says
    let malformed_line = "\u{001b}[91msome red text\u{001b}[0m";
    let (state, should_print) = sm.run(&malformed_line.to_string()).unwrap();
    assert_eq!(*state, State::ParseToPause);
    assert!(should_print);
}

#[test]
fn test_end_state_prints_everything() {
    let identifier = create_test_ansi_sequence();
    let patterns = vec!["src/**/*".to_string()];
    let mut sm = AnsiStateMachine::new(identifier, patterns);

    // Go to the end state
    sm.state = State::End;

    // Everything prints there
    let (state, should_print) = sm.run(&"any line".to_string()).unwrap();
    assert_eq!(*state, State::End);
    assert!(should_print);

    let (state, should_print) = sm.run(&"another line".to_string()).unwrap();
    assert_eq!(*state, State::End);
    assert!(should_print);
}

#[test]
fn test_check_end_state_transitions() {
    let identifier = create_test_ansi_sequence();
    let patterns = vec!["src/**/*".to_string()];
    let mut sm = AnsiStateMachine::new(identifier, patterns);

    // CheckEnd that goes back to ParseToPause
    sm.state = State::CheckEnd(true, 1);

    // A line that is not empty goes back and is read as usual
    let ansi_line = create_ansi_line_with_path("src/components/Header.tsx");
    let (state, should_print) = sm.run(&ansi_line).unwrap();
    assert_eq!(*state, State::ParseToPause);
    assert!(should_print);
}

use tsef::ansi_state_machine::AnsiStateMachine;
use tsef::line_filter::LineFilter;
use tsef::session::{Action, Session, Stage};
use tsef::token::Token;
use tsef::{FilterError, State, StateMachine};

const CYAN: &str = "\u{1b}[96m";
const RESET: &str = "\u{1b}[0m";

fn header(path: &str, place: &str) -> String {
    format!("{}{}{}:{} - error TS2322: no good", CYAN, path, RESET, place)
}

fn feed_all(session: &mut Session, lines: &[String]) -> Vec<Action> {
    let mut actions = Vec::new();
    for line in lines {
        assert!(session.accepts(line));
        let action = session.feed(line).unwrap();
        actions.push(action);
        if action == Action::Stop {
            break;
        }
    }
    actions
}

fn state_of(session: &Session) -> State {
    match &session.stage {
        Stage::Filtering(LineFilter::Block(machine)) => machine.state,
        Stage::Filtering(LineFilter::Plain(machine)) => machine.state,
        Stage::Waiting(_) => panic!("no filter chosen yet"),
    }
}

#[test]
fn new_session_waits_and_succeeds() {
    let session = Session::new(vec!["src/**/*".to_string()], false);
    assert!(matches!(&session.stage, Stage::Waiting(p) if p == &vec!["src/**/*".to_string()]));
    assert!(!session.was_logged);
    assert!(!session.failed());
    assert_eq!(session.exit_code(), 0);
}

#[test]
fn no_input_succeeds_whatever_the_patterns() {
    for patterns in [vec![], vec!["src/**/*".to_string()], vec!["[broken".to_string()]] {
        for show_full in [false, true] {
            let session = Session::new(patterns.clone(), show_full);
            assert_eq!(session.exit_code(), 0);
            assert!(!session.failed());
        }
    }
}

#[test]
fn two_wanted_diagnostics_fail_the_run_and_stop_before_the_summary() {
    let lines = vec![
        header("src/a.ts", "1:1"),
        "".to_string(),
        "1 const a: number = 'x';".to_string(),
        "".to_string(),
        header("src/b.ts", "2:2"),
        "".to_string(),
        "2 const b: number = 'y';".to_string(),
        "".to_string(),
        "".to_string(),
        "Found 2 errors in 2 files.".to_string(),
        "Errors  Files".to_string(),
    ];
    let mut session = Session::new(vec!["src/**/*".to_string()], false);
    let actions = feed_all(&mut session, &lines);

    let mut expected = vec![Action::Print; 9];
    expected.push(Action::Stop);
    assert_eq!(actions, expected);
    assert_eq!(state_of(&session), State::End);
    assert!(session.failed());
    assert_eq!(session.exit_code(), 1);
}

#[test]
fn two_wanted_plain_diagnostics_fail_the_run() {
    let lines = vec![
        "src/a.ts(1,1): error TS2322: no good".to_string(),
        "src/b.ts(2,2): error TS2322: no good".to_string(),
        "Found 2 errors.".to_string(),
    ];
    let mut session = Session::new(vec!["src/**/*".to_string()], false);
    let actions = feed_all(&mut session, &lines);

    assert_eq!(actions, vec![Action::Print, Action::Print, Action::Skip]);
    assert_eq!(session.exit_code(), 1);
}

#[test]
fn one_unwanted_diagnostic_prints_nothing_and_succeeds() {
    let lines = vec![
        header("node_modules/x.ts", "1:1"),
        "".to_string(),
        "1 const a: number = 'x';".to_string(),
        "".to_string(),
    ];
    let mut session = Session::new(vec!["src/**/*".to_string()], false);
    let actions = feed_all(&mut session, &lines);

    assert_eq!(actions, vec![Action::Skip; 4]);
    assert_eq!(state_of(&session), State::CheckEnd(false, 1));
    assert!(!session.failed());
    assert_eq!(session.exit_code(), 0);
}

#[test]
fn one_unwanted_plain_diagnostic_prints_nothing_and_succeeds() {
    let lines = vec!["node_modules/x.ts(1,1): error TS2322: no good".to_string()];
    let mut session = Session::new(vec!["src/**/*".to_string()], false);
    let actions = feed_all(&mut session, &lines);

    assert_eq!(actions, vec![Action::Skip]);
    assert_eq!(session.exit_code(), 0);
}

#[test]
fn summary_is_printed_when_asked_for_but_not_logged() {
    let lines = vec![
        header("node_modules/x.ts", "1:1"),
        "".to_string(),
        "".to_string(),
        "Found 1 error in 1 file.".to_string(),
        "more summary".to_string(),
    ];
    let mut session = Session::new(vec!["src/**/*".to_string()], true);
    let actions = feed_all(&mut session, &lines);

    assert_eq!(
        actions,
        vec![Action::Skip, Action::Skip, Action::Skip, Action::Print, Action::Print]
    );
    assert_eq!(state_of(&session), State::End);
    // Only the summary was printed: no wanted diagnostic, so the run succeeds
    assert_eq!(session.exit_code(), 0);
}

#[test]
fn stop_is_repeated_after_the_end() {
    let lines = vec!["".to_string(), "".to_string(), "Found 0 errors.".to_string()];
    let mut session = Session::new(vec![], false);
    // The first line is empty: the plain filter is chosen and never ends
    let actions = feed_all(&mut session, &lines);
    assert_eq!(actions, vec![Action::Print; 3]);
    assert!(matches!(&session.stage, Stage::Filtering(LineFilter::Plain(_))));

    let mut session = Session::new(vec![], false);
    session.stage = Stage::Filtering(LineFilter::Block(AnsiStateMachine::new(
        CYAN.to_string(),
        vec![],
    )));
    let actions = feed_all(&mut session, &lines);
    assert_eq!(actions, vec![Action::Print, Action::Print, Action::Stop]);
    assert_eq!(session.feed(&"anything".to_string()), Ok(Action::Stop));
    assert_eq!(session.feed(&"".to_string()), Ok(Action::Stop));
    assert_eq!(state_of(&session), State::End);
}

#[test]
fn first_line_chooses_the_filter() {
    let mut session = Session::new(vec![], false);
    session.feed(&header("src/a.ts", "1:1")).unwrap();
    match &session.stage {
        Stage::Filtering(LineFilter::Block(machine)) => {
            assert_eq!(machine.identifier, CYAN);
            assert_eq!(machine.state, State::ParseToPause);
        }
        _ => panic!("the block filter was expected"),
    }

    let mut session = Session::new(vec![], false);
    session.feed(&"src/a.ts(1,1): error".to_string()).unwrap();
    assert!(matches!(&session.stage, Stage::Filtering(LineFilter::Plain(_))));

    // Another escape sequence at the start becomes the marker
    let mut session = Session::new(vec![], false);
    session.feed(&"\u{1b}[91mred\u{1b}[0m".to_string()).unwrap();
    match &session.stage {
        Stage::Filtering(LineFilter::Block(machine)) => {
            assert_eq!(machine.identifier, "\u{1b}[91m")
        }
        _ => panic!("the block filter was expected"),
    }
}

#[test]
fn select_goes_by_the_first_token() {
    let filter = LineFilter::select(&header("src/a.ts", "1:1"), vec!["a".to_string()]);
    match filter {
        LineFilter::Block(machine) => {
            assert_eq!(machine.identifier, CYAN);
            assert_eq!(machine.patterns, vec!["a".to_string()]);
        }
        LineFilter::Plain(_) => panic!("the block filter was expected"),
    }
    assert!(matches!(
        LineFilter::select(&"plain".to_string(), vec![]),
        LineFilter::Plain(_)
    ));
    assert!(matches!(LineFilter::select(&"".to_string(), vec![]), LineFilter::Plain(_)));
    // An escape character that opens no known sequence is text
    assert!(matches!(
        LineFilter::select(&"\u{1b}xyz".to_string(), vec![]),
        LineFilter::Plain(_)
    ));

    let tokens = vec![Token::Escape("X".to_string()), Token::Text("y".to_string())];
    let filter = LineFilter::from_tokens(&tokens, vec!["p".to_string()]);
    match &filter {
        LineFilter::Block(machine) => assert_eq!(machine.identifier, "X"),
        LineFilter::Plain(_) => panic!("the block filter was expected"),
    }
    assert_eq!(filter.into_patterns(), vec!["p".to_string()]);
    let filter = LineFilter::from_tokens(&vec![Token::Text("y".to_string())], vec![]);
    assert!(matches!(filter, LineFilter::Plain(_)));
    let filter = LineFilter::from_tokens(&vec![], vec![]);
    assert!(matches!(filter, LineFilter::Plain(_)));
}

#[test]
fn line_filter_runs_the_chosen_filter() {
    let mut filter = LineFilter::select(&header("src/a.ts", "1:1"), vec!["src/**/*".to_string()]);
    assert!(!filter.is_finished());
    let (state, print) = filter.run(&header("lib/a.ts", "1:1")).unwrap();
    assert_eq!((*state, print), (State::ParseToContinue, false));
    let (state, print) = filter.run(&header("src/a.ts", "1:1")).unwrap();
    assert_eq!((*state, print), (State::ParseToPause, true));
    filter.run(&"".to_string()).unwrap();
    filter.run(&"".to_string()).unwrap();
    let (state, print) = filter.run(&"Found 2 errors.".to_string()).unwrap();
    assert_eq!((*state, print), (State::End, true));
    assert!(filter.is_finished());

    let mut filter = LineFilter::select(&"plain".to_string(), vec!["src/**/*".to_string()]);
    let (state, print) = filter.run(&"src/a.ts(1,1): error".to_string()).unwrap();
    assert_eq!((*state, print), (State::ParseToPause, true));
    let (state, print) = filter.run(&"lib/a.ts(1,1): error".to_string()).unwrap();
    assert_eq!((*state, print), (State::ParseToPause, false));
    assert!(!filter.is_finished());
}

#[test]
fn invalid_pattern_is_reported_on_the_first_line_and_leaves_the_session() {
    // The first pattern would match, the second does not compile
    let patterns = vec!["src/**/*".to_string(), "a**b".to_string()];
    let mut session = Session::new(patterns.clone(), false);
    let outcome = session.feed(&"src/a.ts(1,1): error".to_string());
    assert_eq!(outcome, Err(FilterError::InvalidPattern));
    assert!(matches!(&session.stage, Stage::Waiting(p) if p == &patterns));
    assert!(!session.was_logged);
}

#[test]
fn malformed_header_is_reported_and_leaves_the_session() {
    let mut session = Session::new(vec!["src/**/*".to_string()], false);
    // The marker with nothing after it
    let outcome = session.feed(&CYAN.to_string());
    assert_eq!(outcome, Err(FilterError::MalformedDiagnostic));
    assert!(matches!(&session.stage, Stage::Waiting(_)));

    session.feed(&header("src/a.ts", "1:1")).unwrap();
    // The marker followed by another escape sequence
    let outcome = session.feed(&format!("{}{}", CYAN, RESET));
    assert_eq!(outcome, Err(FilterError::MalformedDiagnostic));
    assert_eq!(state_of(&session), State::ParseToPause);
    assert!(session.was_logged);
}

#[test]
fn feed_tokens_goes_by_the_tokens_given() {
    let mut session = Session::new(vec![], false);
    let tokens = vec![Token::Escape("M".to_string()), Token::Text("src/a.ts".to_string())];
    assert_eq!(session.feed_tokens(&"line".to_string(), &tokens), Ok(Action::Print));
    match &session.stage {
        Stage::Filtering(LineFilter::Block(machine)) => assert_eq!(machine.identifier, "M"),
        _ => panic!("the block filter was expected"),
    }
    assert!(session.was_logged);
    let tokens = vec![Token::Escape("M".to_string())];
    assert_eq!(
        session.feed_tokens(&"line".to_string(), &tokens),
        Err(FilterError::MalformedDiagnostic)
    );
}

#[test]
fn accepts_refuses_only_a_full_count() {
    let mut session = Session::new(vec![], false);
    assert!(session.accepts(&"".to_string()));
    let mut machine = AnsiStateMachine::new(CYAN.to_string(), vec![]);
    machine.state = State::CheckEnd(true, u64::MAX);
    session.stage = Stage::Filtering(LineFilter::Block(machine));
    assert!(!session.accepts(&"".to_string()));
    assert!(session.accepts(&"text".to_string()));
    assert_eq!(session.feed(&"text".to_string()), Ok(Action::Stop));

    let mut machine = AnsiStateMachine::new(CYAN.to_string(), vec![]);
    machine.state = State::CheckEnd(true, u64::MAX - 1);
    session.stage = Stage::Filtering(LineFilter::Block(machine));
    assert!(session.accepts(&"".to_string()));
    assert_eq!(session.feed(&"".to_string()), Ok(Action::Print));
    assert_eq!(state_of(&session), State::CheckEnd(true, u64::MAX));
}

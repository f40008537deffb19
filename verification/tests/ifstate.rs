use hemtt::error::CodedError;
use hemtt::error::Error;
use hemtt::ifstate::IfState;
use hemtt::ifstate::IfStates;
use hemtt::reporting::Position;
use hemtt::reporting::Token;

fn tok(symbol: &str, start: usize) -> Token {
    Token::new(
        symbol.to_string(),
        Position::new("config.cpp".to_string(), start, start + symbol.len()),
    )
}

#[test]
fn empty_stack_is_reading() {
    let ifs = IfStates::new();
    assert!(ifs.reading());
}

#[test]
fn balanced_run_empties_the_stack() {
    // #if A ... #if B ... #else ... #endif ... #endif
    let mut ifs = IfStates::new();
    ifs.push_if(tok("A", 0), true);
    assert!(ifs.reading());
    ifs.push_if(tok("B", 10), false);
    assert!(!ifs.reading());
    assert!(ifs.flip(tok("else", 20)).is_ok());
    assert!(ifs.reading());
    assert!(ifs.pop().is_some());
    assert!(ifs.reading());
    assert!(ifs.pop().is_some());
    assert!(ifs.reading());
    assert!(ifs.pop().is_none());
}

#[test]
fn passing_region_suppresses_descendants() {
    let mut ifs = IfStates::new();
    ifs.push_if(tok("A", 0), false);
    assert!(!ifs.reading());
    // regions nested under a suppressed one are suppressed whatever their
    // own condition says
    ifs.push_if(tok("B", 10), true);
    assert!(!ifs.reading());
    ifs.push_if(tok("C", 20), true);
    assert!(!ifs.reading());
    ifs.pop();
    ifs.pop();
    ifs.pop();
    assert!(ifs.reading());
}

#[test]
fn flip_swaps_branches() {
    // a false condition starts emitting on #else
    let mut ifs = IfStates::new();
    ifs.push_if(tok("A", 0), false);
    assert!(ifs.flip(tok("else", 10)).is_ok());
    assert!(ifs.reading());
    let top = ifs.pop();
    assert!(matches!(top, Some(IfState::ReadingElse(t)) if t.symbol().as_str() == "A"));

    // a true condition stops emitting on #else
    let mut ifs = IfStates::new();
    ifs.push_if(tok("A", 0), true);
    assert!(ifs.flip(tok("else", 10)).is_ok());
    assert!(!ifs.reading());
    let top = ifs.pop();
    assert!(matches!(top, Some(IfState::PassingElse(t)) if t.symbol().as_str() == "A"));
}

#[test]
fn double_else_is_a_coded_error() {
    // #if A → #else → #else must fail on the second #else, carrying both
    // #else tokens and the opening #if token
    let mut ifs = IfStates::new();
    ifs.push_if(tok("A", 0), true);
    assert!(ifs.flip(tok("else_one", 10)).is_ok());
    let err = ifs.flip(tok("else_two", 20));
    match err {
        Err(Error::Code(CodedError::DoubleElse(d))) => {
            assert_eq!(d.token.symbol().as_str(), "else_two");
            assert_eq!(d.previous.symbol().as_str(), "else_one");
            assert_eq!(d.opening.symbol().as_str(), "A");
        },
        _ => panic!("expected a double-else error"),
    }
}

#[test]
fn flip_under_suppressed_ancestor_still_records_the_else() {
    let mut ifs = IfStates::new();
    ifs.push_if(tok("A", 0), false);
    ifs.push_if(tok("B", 10), true);
    assert!(!ifs.reading());
    // the ancestor suppresses; the flip is a no-op on the stack ...
    assert!(ifs.flip(tok("else_one", 20)).is_ok());
    assert!(!ifs.reading());
    // ... but a second #else for the same region still errors
    let err = ifs.flip(tok("else_two", 30));
    match err {
        Err(Error::Code(CodedError::DoubleElse(d))) => {
            assert_eq!(d.token.symbol().as_str(), "else_two");
            assert_eq!(d.previous.symbol().as_str(), "else_one");
            assert_eq!(d.opening.symbol().as_str(), "B");
        },
        _ => panic!("expected a double-else error"),
    }
    // the top-of-stack variant was left unchanged by the suppressed flip
    let top = ifs.pop();
    assert!(matches!(top, Some(IfState::ReadingIf(t)) if t.symbol().as_str() == "B"));
}

#[test]
fn unterminated_if_leaves_the_stack_for_the_caller() {
    // #if A with no matching #endif: the stack stays non-empty, holding
    // the frame with #if A's token; the caller surfaces it as
    // end-of-input-during-if
    let mut ifs = IfStates::new();
    ifs.push_if(tok("A", 0), true);
    let leftover = ifs.pop().expect("one unterminated region");
    let token = match leftover {
        IfState::ReadingIf(t) => t,
        other => panic!("expected the #if frame, got {other:?}"),
    };
    assert_eq!(token.symbol().as_str(), "A");
    assert!(ifs.pop().is_none());

    let err = hemtt::codes::pe18_eoi_ifstate::EoiIfState::code(token);
    match err {
        Error::Code(CodedError::EoiIfState(c)) => assert_eq!(c.token.symbol().as_str(), "A"),
        _ => panic!("expected the end-of-input code"),
    }
}

#[test]
fn stray_endif_is_a_none_pop() {
    let mut ifs = IfStates::new();
    assert!(ifs.pop().is_none());
    ifs.push_if(tok("A", 0), true);
    assert!(ifs.pop().is_some());
    assert!(ifs.pop().is_none());
}

#[test]
fn push_and_default_match_new() {
    let mut ifs = IfStates::default();
    assert!(ifs.reading());
    // a context-suppressed frame pushed directly suppresses like any
    // other passing frame ...
    ifs.push(IfState::PassingChild(tok("A", 0)));
    assert!(!ifs.reading());
    // ... and an #else leaves it context-suppressed
    assert!(ifs.flip(tok("else", 10)).is_ok());
    assert!(!ifs.reading());
    let top = ifs.pop();
    assert!(matches!(top, Some(IfState::PassingChild(t)) if t.symbol().as_str() == "A"));
}

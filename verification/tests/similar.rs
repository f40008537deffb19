use hemtt::codes::pe19_pragma_unknown::PragmaUnknown;
use hemtt::reporting::Code;
use hemtt::reporting::Position;
use hemtt::reporting::Token;
use hemtt::similar::similar_values;

fn tok(symbol: &str) -> Token {
    Token::new(
        symbol.to_string(),
        Position::new("config.cpp".to_string(), 0, symbol.len()),
    )
}

#[test]
fn near_matches_are_found() {
    let values = vec!["suppress"];
    assert_eq!(similar_values("suppress", &values), vec!["suppress"]);
    assert_eq!(similar_values("suppres", &values), vec!["suppress"]);
    assert_eq!(similar_values("supress", &values), vec!["suppress"]);
    assert_eq!(similar_values("Suppres", &values), vec!["suppress"]);
}

#[test]
fn far_values_are_not_offered() {
    let values = vec!["suppress"];
    assert!(similar_values("foobar", &values).is_empty());
    assert!(similar_values("", &values).is_empty());
    assert!(similar_values("suppandmore", &values).is_empty());
}

#[test]
fn candidates_come_nearest_first_and_capped() {
    let values = vec!["abce", "zzzzzzzz", "abcd", "bbcd"];
    // exact match first, then distance one, then distance two
    assert_eq!(similar_values("abcd", &values), vec!["abcd", "abce", "bbcd"]);
    // at most three are offered even when more qualify
    let many = vec!["abcd", "abce", "abcf", "abcg", "abch"];
    assert_eq!(similar_values("abcd", &many), vec!["abcd", "abce", "abcf"]);
}

#[test]
fn distance_three_is_in_and_four_is_out() {
    let values = vec!["abc"];
    assert_eq!(similar_values("", &values), vec!["abc"]);
    let longer = vec!["abcd"];
    assert!(similar_values("", &longer).is_empty());
}

#[test]
fn pragma_close_to_known_command_gets_help_and_suggestion() {
    let code = PragmaUnknown::new(tok("suppres"));
    assert_eq!(code.ident(), "PE19");
    assert_eq!(code.message(), "unknown `suppres` pragma command");
    assert_eq!(code.label_message(), "unknown #pragma command");
    assert_eq!(code.help().as_deref(), Some("did you mean `suppress`?"));
    assert_eq!(code.suggestion().as_deref(), Some("suppress"));
}

#[test]
fn pragma_far_from_known_commands_gets_neither() {
    let code = PragmaUnknown::new(tok("foobar"));
    assert_eq!(code.message(), "unknown `foobar` pragma command");
    assert_eq!(code.help(), None);
    assert_eq!(code.suggestion(), None);
}

#[test]
fn pragma_diagnostic_carries_the_guidance() {
    let code = PragmaUnknown::new(tok("suppers"));
    let diag = code.diagnostic().expect("token present");
    assert_eq!(diag.ident.as_str(), "PE19");
    assert_eq!(diag.labels.len(), 1);
    assert_eq!(diag.labels[0].message.as_deref(), Some("unknown #pragma command"));
}

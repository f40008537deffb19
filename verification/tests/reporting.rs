use hemtt::codes::bcle3_workshop_mod_not_found::WorkshopModNotFound;
use hemtt::codes::pe14_include_unexpected_suffix::IncludeUnexpectedSuffix;
use hemtt::codes::pe17_double_else::DoubleElse;
use hemtt::codes::pe18_eoi_ifstate::EoiIfState;
use hemtt::error::CodedError;
use hemtt::error::Error;
use hemtt::reporting::Code;
use hemtt::reporting::Diagnostic;
use hemtt::reporting::Label;
use hemtt::reporting::Position;
use hemtt::reporting::Severity;
use hemtt::reporting::Token;
use hemtt::reporting::text::get_offset;

fn tok(symbol: &str, start: usize) -> Token {
    Token::new(
        symbol.to_string(),
        Position::new("config.cpp".to_string(), start, start + symbol.len()),
    )
}

#[test]
fn diagnostic_label_round_trips_token_and_message() {
    // a code with a token yields a primary label carrying label_message()
    // at token().position()
    let code = IncludeUnexpectedSuffix::new(tok("tail", 7));
    let diag = code.diagnostic().expect("token present, so a diagnostic");
    assert_eq!(diag.ident.as_str(), "PE14");
    assert_eq!(diag.message, code.message());
    assert_eq!(diag.severity, Severity::Error);
    assert_eq!(diag.labels.len(), 1);
    assert!(diag.labels[0].primary);
    assert_eq!(&diag.labels[0].position, code.token().unwrap().position());
    assert_eq!(diag.labels[0].message.as_deref(), Some(code.label_message().as_str()));
}

#[test]
fn include_suffix_texts() {
    let code = IncludeUnexpectedSuffix::new(tok("tail", 7));
    assert_eq!(code.ident(), "PE14");
    assert_eq!(code.message(), "unexpected tokens after include");
    assert_eq!(code.label_message(), "unexpected tokens after include");
    assert_eq!(code.help().as_deref(), Some("expected a newline after include"));
    assert_eq!(code.note(), None);
    assert_eq!(code.suggestion(), None);
}

#[test]
fn eoi_ifstate_is_anchored_at_the_unterminated_if() {
    let code = EoiIfState::new(tok("A", 3));
    assert_eq!(code.ident(), "PE18");
    assert_eq!(code.message(), "end of input reached while reading an #if directive");
    assert_eq!(code.label_message(), "last #if directive");
    let diag = code.diagnostic().expect("a diagnostic");
    assert_eq!(diag.labels.len(), 1);
    assert_eq!(diag.labels[0].position, Position::new("config.cpp".to_string(), 3, 4));
    assert_eq!(diag.labels[0].message.as_deref(), Some("last #if directive"));
}

#[test]
fn double_else_expands_to_three_labels() {
    let code = DoubleElse::new(tok("else_two", 30), tok("else_one", 20), tok("A", 0));
    let diag = code.diagnostic().expect("a diagnostic");
    assert_eq!(diag.ident.as_str(), "PE17");
    assert_eq!(diag.labels.len(), 3);
    assert!(diag.labels[0].primary);
    assert_eq!(diag.labels[0].position, *code.token.position());
    assert!(!diag.labels[1].primary);
    assert_eq!(diag.labels[1].position, *code.previous.position());
    assert!(!diag.labels[2].primary);
    assert_eq!(diag.labels[2].position, *code.opening.position());
}

#[test]
fn workshop_mod_not_found_degrades_to_a_label_free_diagnostic() {
    let code = WorkshopModNotFound::new("123456".to_string());
    assert!(code.token().is_none());
    assert_eq!(code.ident(), "BCLE2");
    assert_eq!(code.message(), "Arma 3 workshop mod `123456` not found.");
    let diag = code.diagnostic().expect("overridden to a simple diagnostic");
    assert_eq!(diag.ident.as_str(), "BCLE2");
    assert!(diag.labels.is_empty());
}

#[test]
fn get_code_distinguishes_coded_and_opaque_failures() {
    let coded = EoiIfState::code(tok("A", 0));
    assert!(coded.get_code().is_some());
    let io = Error::Io("file vanished".to_string());
    assert!(io.get_code().is_none());
    let workspace = Error::Workspace("unresolved include".to_string());
    assert!(workspace.get_code().is_none());
}

#[test]
fn coded_error_dispatches_to_the_held_code() {
    let err = WorkshopModNotFound::code("42".to_string());
    assert_eq!(err.ident(), "BCLE2");
    let err = match EoiIfState::code(tok("A", 0)) {
        Error::Code(c) => c,
        _ => unreachable!(),
    };
    assert_eq!(err.ident(), "PE18");
    assert!(matches!(err, CodedError::EoiIfState(_)));
}

#[test]
fn offsets_count_lines_and_columns() {
    let content = "ab\ncd\nef".as_bytes().to_vec();
    assert_eq!(get_offset(&content, 0, 0), 0);
    assert_eq!(get_offset(&content, 0, 1), 1);
    assert_eq!(get_offset(&content, 1, 0), 3);
    assert_eq!(get_offset(&content, 1, 1), 4);
    assert_eq!(get_offset(&content, 2, 1), 7);
}

#[test]
fn offsets_past_the_last_line_cover_the_whole_text() {
    let content = "ab\ncd".as_bytes().to_vec();
    assert_eq!(get_offset(&content, 5, 2), 6);
    let trailing = "ab\n".as_bytes().to_vec();
    assert_eq!(get_offset(&trailing, 5, 2), 3);
    let empty: Vec<u8> = Vec::new();
    assert_eq!(get_offset(&empty, 3, 9), 0);
}

#[test]
fn diagnostic_builders_accumulate() {
    let diag = Diagnostic::new("PE00", "message".to_string())
        .with_label(Label::primary(Position::new("a.cpp".to_string(), 1, 2)))
        .with_label(
            Label::secondary(Position::new("b.cpp".to_string(), 3, 4))
                .with_message("related".to_string()),
        )
        .set_severity(Severity::Warning)
        .with_note("a note".to_string())
        .with_help("some help".to_string())
        .with_suggestion("try this".to_string());
    assert_eq!(diag.ident.as_str(), "PE00");
    assert_eq!(diag.message.as_str(), "message");
    assert_eq!(diag.severity, Severity::Warning);
    assert_eq!(diag.labels.len(), 2);
    assert!(diag.labels[0].primary);
    assert!(!diag.labels[1].primary);
    assert_eq!(diag.labels[1].message.as_deref(), Some("related"));
    assert_eq!(diag.notes, vec!["a note".to_string()]);
    assert_eq!(diag.help, vec!["some help".to_string()]);
    assert_eq!(diag.suggestions, vec!["try this".to_string()]);
}

//! Raised when a second `#else` is seen for the same `#if` before the
//! matching `#endif`. Carries all three tokens involved — the offending
//! `#else`, the earlier `#else`, and the directive that opened the region —
//! so the diagnostic can label each of them.

use vstd::prelude::*;

use crate::error::Error;
use crate::reporting::code::Code;
use crate::reporting::code::default_diagnostic;
use crate::reporting::diagnostic::Diagnostic;
use crate::reporting::diagnostic::Label;
use crate::reporting::severity::Severity;
use crate::reporting::token::Token;

verus! {

/// A second `#else` for one `#if` region.
pub struct DoubleElse {
    /// The offending second `#else`.
    pub token: Token,
    /// The `#else` that was already consumed for the region.
    pub previous: Token,
    /// The directive that opened the region.
    pub opening: Token,
}

impl Code for DoubleElse {
    open spec fn spec_token(&self) -> Option<Token> {
        Some(self.token)
    }

    open spec fn spec_ident(&self) -> Seq<char> {
        "PE17"@
    }

    open spec fn spec_message(&self) -> Seq<char> {
        "multiple #else directives in one #if block"@
    }

    open spec fn spec_label_message(&self) -> Seq<char> {
        "second #else directive"@
    }

    open spec fn spec_severity(&self) -> Severity {
        Severity::Error
    }

    open spec fn spec_help(&self) -> Option<Seq<char>> {
        Some("an #if block can hold at most one #else"@)
    }

    open spec fn spec_note(&self) -> Option<Seq<char>> {
        None
    }

    open spec fn spec_suggestion(&self) -> Option<Seq<char>> {
        None
    }

    fn token(&self) -> (r: Option<&Token>) {
        Some(&self.token)
    }

    fn ident(&self) -> (r: &'static str) {
        "PE17"
    }

    fn message(&self) -> (r: String) {
        "multiple #else directives in one #if block".to_owned()
    }

    fn label_message(&self) -> (r: String) {
        "second #else directive".to_owned()
    }

    fn severity(&self) -> (r: Severity) {
        Severity::Error
    }

    fn help(&self) -> (r: Option<String>) {
        Some("an #if block can hold at most one #else".to_owned())
    }

    fn note(&self) -> (r: Option<String>) {
        None
    }

    fn suggestion(&self) -> (r: Option<String>) {
        None
    }

    fn diagnostic(&self) -> (r: Option<Diagnostic>) {
        match default_diagnostic(
            self.token(),
            self.ident(),
            self.message(),
            self.label_message(),
            self.severity(),
            self.note(),
            self.help(),
            self.suggestion(),
        ) {
            Some(d) => Some(self.expand_diagnostic(d)),
            None => None,
        }
    }

    /// Adds the two related positions to the default single-label
    /// diagnostic: the first `#else` and the opening directive.
    fn expand_diagnostic(&self, diag: Diagnostic) -> (r: Diagnostic) {
        diag.with_label(
            Label::secondary(self.previous.position().clone()).with_message(
                "first #else directive".to_owned(),
            ),
        ).with_label(
            Label::secondary(self.opening.position().clone()).with_message(
                "opening directive".to_owned(),
            ),
        )
    }
}

impl DoubleElse {
    pub fn new(token: Token, previous: Token, opening: Token) -> (r: Self)
        ensures
            r.token == token,
            r.previous == previous,
            r.opening == opening,
    {
        Self { token, previous, opening }
    }

    /// Wrap the three tokens of a double `#else` into the error this crate
    /// reports.
    pub fn code(token: Token, previous: Token, opening: Token) -> (r: Error)
        ensures
            r matches Error::Code(c) && c matches crate::error::CodedError::DoubleElse(s)
                && s.token == token && s.previous == previous && s.opening == opening,
    {
        Error::Code(crate::error::CodedError::DoubleElse(Self::new(token, previous, opening)))
    }
}

} // verus!

//! Raised when the end of input is reached while an `#if` region is still
//! open. Anchored at the token of the unterminated `#if` itself, not at the
//! end of input.

use vstd::prelude::*;

use crate::error::Error;
use crate::reporting::code::Code;
use crate::reporting::code::default_diagnostic;
use crate::reporting::diagnostic::Diagnostic;
use crate::reporting::severity::Severity;
use crate::reporting::token::Token;

verus! {

/// The end of input was reached while reading an `#if` region.
pub struct EoiIfState {
    /// The token of the last unterminated `#if`.
    pub token: Token,
}

impl Code for EoiIfState {
    open spec fn spec_token(&self) -> Option<Token> {
        Some(self.token)
    }

    open spec fn spec_ident(&self) -> Seq<char> {
        "PE18"@
    }

    open spec fn spec_message(&self) -> Seq<char> {
        "end of input reached while reading an #if directive"@
    }

    open spec fn spec_label_message(&self) -> Seq<char> {
        "last #if directive"@
    }

    open spec fn spec_severity(&self) -> Severity {
        Severity::Error
    }

    open spec fn spec_help(&self) -> Option<Seq<char>> {
        None
    }

    open spec fn spec_note(&self) -> Option<Seq<char>> {
        None
    }

    open spec fn spec_suggestion(&self) -> Option<Seq<char>> {
        None
    }

    fn token(&self) -> (r: Option<&Token>) {
        Some(&self.token)
    }

    fn ident(&self) -> (r: &'static str) {
        "PE18"
    }

    fn message(&self) -> (r: String) {
        "end of input reached while reading an #if directive".to_owned()
    }

    fn label_message(&self) -> (r: String) {
        "last #if directive".to_owned()
    }

    fn severity(&self) -> (r: Severity) {
        Severity::Error
    }

    fn help(&self) -> (r: Option<String>) {
        None
    }

    fn note(&self) -> (r: Option<String>) {
        None
    }

    fn suggestion(&self) -> (r: Option<String>) {
        None
    }

    fn diagnostic(&self) -> (r: Option<Diagnostic>) {
        match default_diagnostic(
            self.token(),
            self.ident(),
            self.message(),
            self.label_message(),
            self.severity(),
            self.note(),
            self.help(),
            self.suggestion(),
        ) {
            Some(d) => Some(self.expand_diagnostic(d)),
            None => None,
        }
    }

    fn expand_diagnostic(&self, diag: Diagnostic) -> (r: Diagnostic) {
        diag
    }
}

impl EoiIfState {
    pub fn new(token: Token) -> (r: Self)
        ensures
            r.token == token,
    {
        Self { token }
    }

    /// Wrap the unterminated `#if` token into the error this crate reports.
    pub fn code(token: Token) -> (r: Error)
        ensures
            r matches Error::Code(c) && c matches crate::error::CodedError::EoiIfState(s)
                && s.token == token,
    {
        Error::Code(crate::error::CodedError::EoiIfState(Self::new(token)))
    }
}

} // verus!

//! Raised when tokens remain on the same logical line after a recognized
//! `#include "path"` or `#include <path>` form.

use vstd::prelude::*;

use crate::error::Error;
use crate::reporting::code::Code;
use crate::reporting::code::default_diagnostic;
use crate::reporting::diagnostic::Diagnostic;
use crate::reporting::severity::Severity;
use crate::reporting::token::Token;

verus! {

/// Unexpected token after an `#include`.
pub struct IncludeUnexpectedSuffix {
    /// The token that was found where a newline was expected.
    pub token: Token,
}

impl Code for IncludeUnexpectedSuffix {
    open spec fn spec_token(&self) -> Option<Token> {
        Some(self.token)
    }

    open spec fn spec_ident(&self) -> Seq<char> {
        "PE14"@
    }

    open spec fn spec_message(&self) -> Seq<char> {
        "unexpected tokens after include"@
    }

    open spec fn spec_label_message(&self) -> Seq<char> {
        self.spec_message()
    }

    open spec fn spec_severity(&self) -> Severity {
        Severity::Error
    }

    open spec fn spec_help(&self) -> Option<Seq<char>> {
        Some("expected a newline after include"@)
    }

    open spec fn spec_note(&self) -> Option<Seq<char>> {
        None
    }

    open spec fn spec_suggestion(&self) -> Option<Seq<char>> {
        None
    }

    fn token(&self) -> (r: Option<&Token>) {
        Some(&self.token)
    }

    fn ident(&self) -> (r: &'static str) {
        "PE14"
    }

    fn message(&self) -> (r: String) {
        "unexpected tokens after include".to_owned()
    }

    fn label_message(&self) -> (r: String) {
        self.message()
    }

    fn severity(&self) -> (r: Severity) {
        Severity::Error
    }

    fn help(&self) -> (r: Option<String>) {
        Some("expected a newline after include".to_owned())
    }

    fn note(&self) -> (r: Option<String>) {
        None
    }

    fn suggestion(&self) -> (r: Option<String>) {
        None
    }

    fn diagnostic(&self) -> (r: Option<Diagnostic>) {
        match default_diagnostic(
            self.token(),
            self.ident(),
            self.message(),
            self.label_message(),
            self.severity(),
            self.note(),
            self.help(),
            self.suggestion(),
        ) {
            Some(d) => Some(self.expand_diagnostic(d)),
            None => None,
        }
    }

    fn expand_diagnostic(&self, diag: Diagnostic) -> (r: Diagnostic) {
        diag
    }
}

impl IncludeUnexpectedSuffix {
    pub fn new(token: Token) -> (r: Self)
        ensures
            r.token == token,
    {
        Self { token }
    }

    /// Wrap the unexpected token into the error this crate reports.
    pub fn code(token: Token) -> (r: Error)
        ensures
            r matches Error::Code(c) && c matches crate::error::CodedError::IncludeUnexpectedSuffix(s)
                && s.token == token,
    {
        Error::Code(crate::error::CodedError::IncludeUnexpectedSuffix(Self::new(token)))
    }
}

} // verus!

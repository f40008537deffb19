//! Raised by the launcher when a configured workshop mod is not present on
//! disk. Carries no token: the failure has no source position, so its
//! diagnostic is the simple, label-free form.

use vstd::prelude::*;

use crate::reporting::code::Code;
use crate::reporting::code::simple_diagnostic;
use crate::reporting::diagnostic::Diagnostic;
use crate::reporting::severity::Severity;
use crate::reporting::token::Token;

verus! {

/// A workshop mod named by the configuration was not found.
pub struct WorkshopModNotFound {
    /// The identifier of the missing mod.
    pub id: String,
}

impl Code for WorkshopModNotFound {
    open spec fn spec_token(&self) -> Option<Token> {
        None
    }

    open spec fn spec_ident(&self) -> Seq<char> {
        "BCLE2"@
    }

    open spec fn spec_message(&self) -> Seq<char> {
        "Arma 3 workshop mod `"@ + self.id@ + "` not found."@
    }

    open spec fn spec_label_message(&self) -> Seq<char> {
        self.spec_message()
    }

    open spec fn spec_severity(&self) -> Severity {
        Severity::Error
    }

    open spec fn spec_help(&self) -> Option<Seq<char>> {
        Some(
            "HEMTT does not subscribe to mods, you must subscribe in Steam and allow it to download."@,
        )
    }

    open spec fn spec_note(&self) -> Option<Seq<char>> {
        None
    }

    open spec fn spec_suggestion(&self) -> Option<Seq<char>> {
        None
    }

    fn token(&self) -> (r: Option<&Token>) {
        None
    }

    fn ident(&self) -> (r: &'static str) {
        "BCLE2"
    }

    fn message(&self) -> (r: String) {
        let mut m = "Arma 3 workshop mod `".to_owned();
        m.append(self.id.as_str());
        m.append("` not found.");
        m
    }

    fn label_message(&self) -> (r: String) {
        self.message()
    }

    fn severity(&self) -> (r: Severity) {
        Severity::Error
    }

    fn help(&self) -> (r: Option<String>) {
        Some(
            "HEMTT does not subscribe to mods, you must subscribe in Steam and allow it to download.".to_owned(),
        )
    }

    fn note(&self) -> (r: Option<String>) {
        None
    }

    fn suggestion(&self) -> (r: Option<String>) {
        None
    }

    fn diagnostic(&self) -> (r: Option<Diagnostic>) {
        Some(
            simple_diagnostic(
                self.ident(),
                self.message(),
                self.severity(),
                self.note(),
                self.help(),
                self.suggestion(),
            ),
        )
    }

    fn expand_diagnostic(&self, diag: Diagnostic) -> (r: Diagnostic) {
        diag
    }
}

impl WorkshopModNotFound {
    pub fn new(id: String) -> (r: Self)
        ensures
            r.id == id,
    {
        Self { id }
    }

    /// Wrap the missing mod's identifier into a coded error.
    pub fn code(id: String) -> (r: crate::error::CodedError)
        ensures
            r matches crate::error::CodedError::WorkshopModNotFound(s) && s.id == id,
    {
        crate::error::CodedError::WorkshopModNotFound(Self::new(id))
    }
}

} // verus!

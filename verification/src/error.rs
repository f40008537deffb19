//! The failure sum of the preprocessing pipeline: every coded,
//! source-anchored fault on one side, and lower-level infrastructure
//! failures — I/O, workspace resolution — wrapped as opaque messages on the
//! other. Only coded faults can produce a diagnostic.

use vstd::prelude::*;

use crate::codes::bcle3_workshop_mod_not_found::WorkshopModNotFound;
use crate::codes::pe14_include_unexpected_suffix::IncludeUnexpectedSuffix;
use crate::codes::pe17_double_else::DoubleElse;
use crate::codes::pe18_eoi_ifstate::EoiIfState;
use crate::codes::pe19_pragma_unknown::PragmaUnknown;
use crate::reporting::code::Code;
use crate::reporting::diagnostic::Diagnostic;
use crate::reporting::severity::Severity;
use crate::reporting::token::Token;

verus! {

/// One of the coded faults this crate can raise. Every variant implements
/// the [`Code`] contract; this sum dispatches to whichever is held.
pub enum CodedError {
    /// A second `#else` for one `#if` region.
    DoubleElse(DoubleElse),
    /// Unexpected tokens after an `#include`.
    IncludeUnexpectedSuffix(IncludeUnexpectedSuffix),
    /// End of input while an `#if` region was still open.
    EoiIfState(EoiIfState),
    /// An unknown `#pragma` command.
    PragmaUnknown(PragmaUnknown),
    /// A configured workshop mod that is not present.
    WorkshopModNotFound(WorkshopModNotFound),
}

impl Code for CodedError {
    open spec fn spec_token(&self) -> Option<Token> {
        match self {
            CodedError::DoubleElse(c) => c.spec_token(),
            CodedError::IncludeUnexpectedSuffix(c) => c.spec_token(),
            CodedError::EoiIfState(c) => c.spec_token(),
            CodedError::PragmaUnknown(c) => c.spec_token(),
            CodedError::WorkshopModNotFound(c) => c.spec_token(),
        }
    }

    open spec fn spec_ident(&self) -> Seq<char> {
        match self {
            CodedError::DoubleElse(c) => c.spec_ident(),
            CodedError::IncludeUnexpectedSuffix(c) => c.spec_ident(),
            CodedError::EoiIfState(c) => c.spec_ident(),
            CodedError::PragmaUnknown(c) => c.spec_ident(),
            CodedError::WorkshopModNotFound(c) => c.spec_ident(),
        }
    }

    open spec fn spec_message(&self) -> Seq<char> {
        match self {
            CodedError::DoubleElse(c) => c.spec_message(),
            CodedError::IncludeUnexpectedSuffix(c) => c.spec_message(),
            CodedError::EoiIfState(c) => c.spec_message(),
            CodedError::PragmaUnknown(c) => c.spec_message(),
            CodedError::WorkshopModNotFound(c) => c.spec_message(),
        }
    }

    open spec fn spec_label_message(&self) -> Seq<char> {
        match self {
            CodedError::DoubleElse(c) => c.spec_label_message(),
            CodedError::IncludeUnexpectedSuffix(c) => c.spec_label_message(),
            CodedError::EoiIfState(c) => c.spec_label_message(),
            CodedError::PragmaUnknown(c) => c.spec_label_message(),
            CodedError::WorkshopModNotFound(c) => c.spec_label_message(),
        }
    }

    open spec fn spec_severity(&self) -> Severity {
        match self {
            CodedError::DoubleElse(c) => c.spec_severity(),
            CodedError::IncludeUnexpectedSuffix(c) => c.spec_severity(),
            CodedError::EoiIfState(c) => c.spec_severity(),
            CodedError::PragmaUnknown(c) => c.spec_severity(),
            CodedError::WorkshopModNotFound(c) => c.spec_severity(),
        }
    }

    open spec fn spec_help(&self) -> Option<Seq<char>> {
        match self {
            CodedError::DoubleElse(c) => c.spec_help(),
            CodedError::IncludeUnexpectedSuffix(c) => c.spec_help(),
            CodedError::EoiIfState(c) => c.spec_help(),
            CodedError::PragmaUnknown(c) => c.spec_help(),
            CodedError::WorkshopModNotFound(c) => c.spec_help(),
        }
    }

    open spec fn spec_note(&self) -> Option<Seq<char>> {
        match self {
            CodedError::DoubleElse(c) => c.spec_note(),
            CodedError::IncludeUnexpectedSuffix(c) => c.spec_note(),
            CodedError::EoiIfState(c) => c.spec_note(),
            CodedError::PragmaUnknown(c) => c.spec_note(),
            CodedError::WorkshopModNotFound(c) => c.spec_note(),
        }
    }

    open spec fn spec_suggestion(&self) -> Option<Seq<char>> {
        match self {
            CodedError::DoubleElse(c) => c.spec_suggestion(),
            CodedError::IncludeUnexpectedSuffix(c) => c.spec_suggestion(),
            CodedError::EoiIfState(c) => c.spec_suggestion(),
            CodedError::PragmaUnknown(c) => c.spec_suggestion(),
            CodedError::WorkshopModNotFound(c) => c.spec_suggestion(),
        }
    }

    fn token(&self) -> (r: Option<&Token>) {
        match self {
            CodedError::DoubleElse(c) => c.token(),
            CodedError::IncludeUnexpectedSuffix(c) => c.token(),
            CodedError::EoiIfState(c) => c.token(),
            CodedError::PragmaUnknown(c) => c.token(),
            CodedError::WorkshopModNotFound(c) => c.token(),
        }
    }

    fn ident(&self) -> (r: &'static str) {
        match self {
            CodedError::DoubleElse(c) => c.ident(),
            CodedError::IncludeUnexpectedSuffix(c) => c.ident(),
            CodedError::EoiIfState(c) => c.ident(),
            CodedError::PragmaUnknown(c) => c.ident(),
            CodedError::WorkshopModNotFound(c) => c.ident(),
        }
    }

    fn message(&self) -> (r: String) {
        match self {
            CodedError::DoubleElse(c) => c.message(),
            CodedError::IncludeUnexpectedSuffix(c) => c.message(),
            CodedError::EoiIfState(c) => c.message(),
            CodedError::PragmaUnknown(c) => c.message(),
            CodedError::WorkshopModNotFound(c) => c.message(),
        }
    }

    fn label_message(&self) -> (r: String) {
        match self {
            CodedError::DoubleElse(c) => c.label_message(),
            CodedError::IncludeUnexpectedSuffix(c) => c.label_message(),
            CodedError::EoiIfState(c) => c.label_message(),
            CodedError::PragmaUnknown(c) => c.label_message(),
            CodedError::WorkshopModNotFound(c) => c.label_message(),
        }
    }

    fn severity(&self) -> (r: Severity) {
        match self {
            CodedError::DoubleElse(c) => c.severity(),
            CodedError::IncludeUnexpectedSuffix(c) => c.severity(),
            CodedError::EoiIfState(c) => c.severity(),
            CodedError::PragmaUnknown(c) => c.severity(),
            CodedError::WorkshopModNotFound(c) => c.severity(),
        }
    }

    fn help(&self) -> (r: Option<String>) {
        match self {
            CodedError::DoubleElse(c) => c.help(),
            CodedError::IncludeUnexpectedSuffix(c) => c.help(),
            CodedError::EoiIfState(c) => c.help(),
            CodedError::PragmaUnknown(c) => c.help(),
            CodedError::WorkshopModNotFound(c) => c.help(),
        }
    }

    fn note(&self) -> (r: Option<String>) {
        match self {
            CodedError::DoubleElse(c) => c.note(),
            CodedError::IncludeUnexpectedSuffix(c) => c.note(),
            CodedError::EoiIfState(c) => c.note(),
            CodedError::PragmaUnknown(c) => c.note(),
            CodedError::WorkshopModNotFound(c) => c.note(),
        }
    }

    fn suggestion(&self) -> (r: Option<String>) {
        match self {
            CodedError::DoubleElse(c) => c.suggestion(),
            CodedError::IncludeUnexpectedSuffix(c) => c.suggestion(),
            CodedError::EoiIfState(c) => c.suggestion(),
            CodedError::PragmaUnknown(c) => c.suggestion(),
            CodedError::WorkshopModNotFound(c) => c.suggestion(),
        }
    }

    fn diagnostic(&self) -> (r: Option<Diagnostic>) {
        match self {
            CodedError::DoubleElse(c) => c.diagnostic(),
            CodedError::IncludeUnexpectedSuffix(c) => c.diagnostic(),
            CodedError::EoiIfState(c) => c.diagnostic(),
            CodedError::PragmaUnknown(c) => c.diagnostic(),
            CodedError::WorkshopModNotFound(c) => c.diagnostic(),
        }
    }

    fn expand_diagnostic(&self, diag: Diagnostic) -> (r: Diagnostic) {
        match self {
            CodedError::DoubleElse(c) => c.expand_diagnostic(diag),
            CodedError::IncludeUnexpectedSuffix(c) => c.expand_diagnostic(diag),
            CodedError::EoiIfState(c) => c.expand_diagnostic(diag),
            CodedError::PragmaUnknown(c) => c.expand_diagnostic(diag),
            CodedError::WorkshopModNotFound(c) => c.expand_diagnostic(diag),
        }
    }
}

/// Errors that can occur during preprocessing.
pub enum Error {
    /// A coded, source-anchored fault.
    Code(CodedError),
    /// An I/O failure, reported as an opaque message.
    Io(String),
    /// A workspace resolution failure, reported as an opaque message.
    Workspace(String),
}

impl Error {
    /// The coded fault inside this error, if it carries one: I/O and
    /// workspace failures carry none.
    pub fn get_code(&self) -> (r: Option<&CodedError>)
        ensures
            match self {
                Error::Code(c) => r == Some(c),
                Error::Io(_) => r is None,
                Error::Workspace(_) => r is None,
            },
    {
        match self {
            Error::Code(c) => Some(c),
            Error::Io(_) => None,
            Error::Workspace(_) => None,
        }
    }
}

} // verus!

//! A renderer-agnostic report of one fault: a stable identifier, a message,
//! labeled source spans and optional guidance. Built once per detected
//! fault and immutable afterwards; rendering to a terminal or editor is the
//! business of whatever consumes the value.

use vstd::prelude::*;

use crate::reporting::severity::Severity;
use crate::reporting::token::Position;

verus! {

/// One labeled source span of a diagnostic. The primary label points at
/// the fault itself; secondary labels add related positions.
#[derive(Debug, PartialEq, Eq)]
pub struct Label {
    /// Whether this is the primary label of its diagnostic.
    pub primary: bool,
    /// The source span the label points at.
    pub position: Position,
    /// Text attached to the span, if any.
    pub message: Option<String>,
}

impl Label {
    /// A primary label: the span the diagnostic is chiefly about.
    pub fn primary(position: Position) -> (r: Label)
        ensures
            r.primary == true,
            r.position == position,
            r.message is None,
    {
        Label { primary: true, position, message: None }
    }

    /// A secondary label: a related span shown alongside the primary one.
    pub fn secondary(position: Position) -> (r: Label)
        ensures
            r.primary == false,
            r.position == position,
            r.message is None,
    {
        Label { primary: false, position, message: None }
    }

    /// Attach text to the labeled span.
    pub fn with_message(self, message: String) -> (r: Label)
        ensures
            r.primary == self.primary,
            r.position == self.position,
            r.message == Some(message),
    {
        Label { message: Some(message), ..self }
    }
}

impl Clone for Label {
    fn clone(&self) -> (r: Self)
        ensures
            r == *self,
    {
        Label {
            primary: self.primary,
            position: self.position.clone(),
            message: match &self.message {
                Some(m) => Some(m.clone()),
                None => None,
            },
        }
    }
}

/// A structured, renderer-agnostic report of one fault.
#[derive(Debug, PartialEq, Eq)]
pub struct Diagnostic {
    /// The stable machine-readable identifier of the code.
    pub ident: String,
    /// The primary human-readable explanation.
    pub message: String,
    /// How serious the fault is.
    pub severity: Severity,
    /// Labeled source spans, the primary one first when present.
    pub labels: Vec<Label>,
    /// Additional context, one entry per note.
    pub notes: Vec<String>,
    /// Guidance on how to resolve the fault.
    pub help: Vec<String>,
    /// Replacement text a tool could apply verbatim.
    pub suggestions: Vec<String>,
}

impl Diagnostic {
    /// A fresh diagnostic with the given identifier and message, severity
    /// `Error`, and no labels or guidance yet.
    pub fn new(ident: &str, message: String) -> (r: Diagnostic)
        ensures
            r.ident@ == ident@,
            r.message == message,
            r.severity == Severity::Error,
            r.labels@ =~= Seq::<Label>::empty(),
            r.notes@ =~= Seq::<String>::empty(),
            r.help@ =~= Seq::<String>::empty(),
            r.suggestions@ =~= Seq::<String>::empty(),
    {
        Diagnostic {
            ident: ident.to_owned(),
            message,
            severity: Severity::Error,
            labels: Vec::new(),
            notes: Vec::new(),
            help: Vec::new(),
            suggestions: Vec::new(),
        }
    }

    /// Append a labeled source span.
    pub fn with_label(self, label: Label) -> (r: Diagnostic)
        ensures
            r.labels@ == self.labels@.push(label),
            r.ident == self.ident,
            r.message == self.message,
            r.severity == self.severity,
            r.notes == self.notes,
            r.help == self.help,
            r.suggestions == self.suggestions,
    {
        let mut d = self;
        d.labels.push(label);
        d
    }

    /// Replace the severity.
    pub fn set_severity(self, severity: Severity) -> (r: Diagnostic)
        ensures
            r.severity == severity,
            r.ident == self.ident,
            r.message == self.message,
            r.labels == self.labels,
            r.notes == self.notes,
            r.help == self.help,
            r.suggestions == self.suggestions,
    {
        let mut d = self;
        d.severity = severity;
        d
    }

    /// Append a note.
    pub fn with_note(self, note: String) -> (r: Diagnostic)
        ensures
            r.notes@ == self.notes@.push(note),
            r.ident == self.ident,
            r.message == self.message,
            r.severity == self.severity,
            r.labels == self.labels,
            r.help == self.help,
            r.suggestions == self.suggestions,
    {
        let mut d = self;
        d.notes.push(note);
        d
    }

    /// Append a help entry.
    pub fn with_help(self, help: String) -> (r: Diagnostic)
        ensures
            r.help@ == self.help@.push(help),
            r.ident == self.ident,
            r.message == self.message,
            r.severity == self.severity,
            r.labels == self.labels,
            r.notes == self.notes,
            r.suggestions == self.suggestions,
    {
        let mut d = self;
        d.help.push(help);
        d
    }

    /// Append a suggestion.
    pub fn with_suggestion(self, suggestion: String) -> (r: Diagnostic)
        ensures
            r.suggestions@ == self.suggestions@.push(suggestion),
            r.ident == self.ident,
            r.message == self.message,
            r.severity == self.severity,
            r.labels == self.labels,
            r.notes == self.notes,
            r.help == self.help,
    {
        let mut d = self;
        d.suggestions.push(suggestion);
        d
    }
}

} // verus!

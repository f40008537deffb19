//! The capability contract every coded error or warning implements: a
//! stable identifier, a message, a severity, optional guidance, and a
//! derived diagnostic. The contract is open on purpose: new failure kinds
//! are added across independent layers of the toolchain without touching a
//! central type.

use vstd::prelude::*;

use crate::reporting::diagnostic::Diagnostic;
use crate::reporting::diagnostic::Label;
use crate::reporting::severity::Severity;
use crate::reporting::token::Token;

verus! {

/// Whether an optional produced string carries exactly the optional text a
/// specification calls for.
pub open spec fn option_string_is(r: Option<String>, s: Option<Seq<char>>) -> bool {
    match (r, s) {
        (Some(x), Some(y)) => x@ == y,
        (None, None) => true,
        _ => false,
    }
}

/// Whether `r` extends `diag` without disturbing it: the identity, message
/// and severity are kept, and every label of `diag` stands unchanged at its
/// index; only further labels may be added.
pub open spec fn expand_extends(diag: Diagnostic, r: Diagnostic) -> bool {
    &&& r.ident == diag.ident
    &&& r.message == diag.message
    &&& r.severity == diag.severity
    &&& r.labels@.len() >= diag.labels@.len()
    &&& forall|i: int| 0 <= i < diag.labels@.len() ==> r.labels@[i] == diag.labels@[i]
}

/// A coded error or warning.
pub trait Code {
    /// The token the code is anchored at, if any.
    spec fn spec_token(&self) -> Option<Token>;

    /// The stable machine-readable identifier.
    spec fn spec_ident(&self) -> Seq<char>;

    /// The primary human-readable explanation.
    spec fn spec_message(&self) -> Seq<char>;

    /// The text attached to the source-span label.
    spec fn spec_label_message(&self) -> Seq<char>;

    /// How serious the code is.
    spec fn spec_severity(&self) -> Severity;

    /// The help message, if any.
    spec fn spec_help(&self) -> Option<Seq<char>>;

    /// The note, if any.
    spec fn spec_note(&self) -> Option<Seq<char>>;

    /// The code suggestion, if any.
    spec fn spec_suggestion(&self) -> Option<Seq<char>>;

    /// The token of the code.
    fn token(&self) -> (r: Option<&Token>)
        ensures
            match r {
                Some(t) => self.spec_token() == Some(*t),
                None => self.spec_token() is None,
            },
    ;

    /// The code identifier.
    fn ident(&self) -> (r: &'static str)
        ensures
            r@ == self.spec_ident(),
    ;

    /// Message explaining the error.
    fn message(&self) -> (r: String)
        ensures
            r@ == self.spec_message(),
    ;

    /// Message explaining the error, applied to the label.
    fn label_message(&self) -> (r: String)
        ensures
            r@ == self.spec_label_message(),
    ;

    /// Severity of the error.
    fn severity(&self) -> (r: Severity)
        ensures
            r == self.spec_severity(),
    ;

    /// Help message, if any.
    fn help(&self) -> (r: Option<String>)
        ensures
            option_string_is(r, self.spec_help()),
    ;

    /// Note, if any.
    fn note(&self) -> (r: Option<String>)
        ensures
            option_string_is(r, self.spec_note()),
    ;

    /// Code suggestion, if any.
    fn suggestion(&self) -> (r: Option<String>)
        ensures
            option_string_is(r, self.spec_suggestion()),
    ;

    /// A diagnostic for a terminal or editor, whenever the code can be
    /// anchored to a source position. Whenever the code carries a token,
    /// the diagnostic exists, repeats the code's identity, message and
    /// severity, and its first label is primary, anchored at the token's
    /// position and carrying the code's label message.
    fn diagnostic(&self) -> (r: Option<Diagnostic>)
        ensures
            match self.spec_token() {
                Some(t) => match r {
                    Some(d) => {
                        &&& d.ident@ == self.spec_ident()
                        &&& d.message@ == self.spec_message()
                        &&& d.severity == self.spec_severity()
                        &&& d.labels@.len() >= 1
                        &&& d.labels@[0].primary == true
                        &&& d.labels@[0].position == t.position
                        &&& option_string_is(d.labels@[0].message, Some(self.spec_label_message()))
                    },
                    None => false,
                },
                None => true,
            },
    ;

    /// Expand the default diagnostic with additional information.
    fn expand_diagnostic(&self, diag: Diagnostic) -> (r: Diagnostic)
        ensures
            expand_extends(diag, r),
    ;
}

/// Build the conventional diagnostic from a code's parts: one primary
/// label at the code's token carrying the label message, plus any note,
/// help and suggestion. `None` when there is no token to anchor to. A code
/// passes its own accessors here and then applies its own expansion.
pub fn default_diagnostic(
    token: Option<&Token>,
    ident: &'static str,
    message: String,
    label_message: String,
    severity: Severity,
    note: Option<String>,
    help: Option<String>,
    suggestion: Option<String>,
) -> (r: Option<Diagnostic>)
    ensures
        match token {
            Some(t) => match r {
                Some(d) => {
                    &&& d.ident@ == ident@
                    &&& d.message == message
                    &&& d.severity == severity
                    &&& d.labels@.len() == 1
                    &&& d.labels@[0].primary == true
                    &&& d.labels@[0].position == t.position
                    &&& d.labels@[0].message == Some(label_message)
                },
                None => false,
            },
            None => r is None,
        },
{
    let token_pos = match token {
        Some(t) => t.position().clone(),
        None => {
            return None;
        },
    };
    let mut diag = Diagnostic::new(ident, message).with_label(
        Label::primary(token_pos).with_message(label_message),
    ).set_severity(severity);
    if let Some(note) = note {
        diag = diag.with_note(note);
    }
    if let Some(help) = help {
        diag = diag.with_help(help);
    }
    if let Some(suggestion) = suggestion {
        diag = diag.with_suggestion(suggestion);
    }
    Some(diag)
}

/// Build the label-free diagnostic from a code's parts: identity, message,
/// severity and guidance only; for codes without a source position.
pub fn simple_diagnostic(
    ident: &'static str,
    message: String,
    severity: Severity,
    note: Option<String>,
    help: Option<String>,
    suggestion: Option<String>,
) -> (r: Diagnostic)
    ensures
        r.ident@ == ident@,
        r.message == message,
        r.severity == severity,
        r.labels@.len() == 0,
{
    let mut diag = Diagnostic::new(ident, message).set_severity(severity);
    if let Some(note) = note {
        diag = diag.with_note(note);
    }
    if let Some(help) = help {
        diag = diag.with_help(help);
    }
    if let Some(suggestion) = suggestion {
        diag = diag.with_suggestion(suggestion);
    }
    diag
}

} // verus!

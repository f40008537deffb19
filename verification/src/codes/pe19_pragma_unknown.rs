//! Raised when a `#pragma` directive names a command outside the known
//! set. When the unknown command is within a small edit distance of a known
//! one, the help proposes it and the suggestion carries the best candidate
//! verbatim; a command far from every known command gets neither.

use vstd::prelude::*;

use crate::error::Error;
use crate::reporting::code::Code;
use crate::reporting::code::default_diagnostic;
use crate::reporting::diagnostic::Diagnostic;
use crate::reporting::severity::Severity;
use crate::reporting::token::Token;
use crate::similar::similar_values;
use crate::similar::spec_similar_values;

verus! {

/// The `#pragma` commands the preprocessor knows.
pub open spec fn known_pragmas() -> Seq<&'static str> {
    seq!["suppress"]
}

/// The candidate commands offered for a mistyped one, nearest first.
pub open spec fn similar_pragmas(symbol: Seq<char>) -> Seq<&'static str> {
    spec_similar_values(symbol, known_pragmas())
}

/// The candidates rendered as a backquoted, comma-separated list.
pub open spec fn quoted_list(sims: Seq<&str>) -> Seq<char>
    decreases sims.len(),
{
    if sims.len() == 0 {
        Seq::empty()
    } else {
        let init = quoted_list(sims.drop_last());
        let sep: Seq<char> = if sims.len() == 1 {
            Seq::empty()
        } else {
            ", "@
        };
        init + sep + "`"@ + sims.last()@ + "`"@
    }
}

/// An unknown `#pragma` command.
pub struct PragmaUnknown {
    /// The token of the unknown command.
    pub token: Token,
}

impl Code for PragmaUnknown {
    open spec fn spec_token(&self) -> Option<Token> {
        Some(self.token)
    }

    open spec fn spec_ident(&self) -> Seq<char> {
        "PE19"@
    }

    open spec fn spec_message(&self) -> Seq<char> {
        "unknown `"@ + self.token.symbol@ + "` pragma command"@
    }

    open spec fn spec_label_message(&self) -> Seq<char> {
        "unknown #pragma command"@
    }

    open spec fn spec_severity(&self) -> Severity {
        Severity::Error
    }

    open spec fn spec_help(&self) -> Option<Seq<char>> {
        let sims = similar_pragmas(self.token.symbol@);
        if sims.len() == 0 {
            None
        } else {
            Some("did you mean "@ + quoted_list(sims) + "?"@)
        }
    }

    open spec fn spec_note(&self) -> Option<Seq<char>> {
        None
    }

    open spec fn spec_suggestion(&self) -> Option<Seq<char>> {
        let sims = similar_pragmas(self.token.symbol@);
        if sims.len() == 0 {
            None
        } else {
            Some(sims[0]@)
        }
    }

    fn token(&self) -> (r: Option<&Token>) {
        Some(&self.token)
    }

    fn ident(&self) -> (r: &'static str) {
        "PE19"
    }

    fn message(&self) -> (r: String) {
        let mut m = "unknown `".to_owned();
        m.append(self.token.symbol.as_str());
        m.append("` pragma command");
        m
    }

    fn label_message(&self) -> (r: String) {
        "unknown #pragma command".to_owned()
    }

    fn severity(&self) -> (r: Severity) {
        Severity::Error
    }

    fn help(&self) -> (r: Option<String>) {
        let values: Vec<&str> = vec!["suppress"];
        proof {
            assert(values@ =~= known_pragmas());
        }
        let sims = similar_values(self.token.symbol.as_str(), &values);
        if sims.len() == 0 {
            None
        } else {
            let mut m = "did you mean ".to_owned();
            let mut k: usize = 0;
            while k < sims.len()
                invariant
                    k <= sims@.len(),
                    sims@ == similar_pragmas(self.token.symbol@),
                    m@ == "did you mean "@ + quoted_list(sims@.take(k as int)),
                decreases sims@.len() - k,
            {
                if k > 0 {
                    m.append(", ");
                }
                m.append("`");
                m.append(sims[k]);
                m.append("`");
                proof {
                    assert(sims@.take(k as int + 1).drop_last() =~= sims@.take(k as int));
                    assert(sims@.take(k as int + 1).last() == sims@[k as int]);
                    assert(m@ =~= "did you mean "@ + quoted_list(sims@.take(k as int + 1)));
                }
                k = k + 1;
            }
            m.append("?");
            proof {
                assert(sims@.take(sims@.len() as int) =~= sims@);
                assert(m@ =~= "did you mean "@ + quoted_list(sims@) + "?"@);
            }
            Some(m)
        }
    }

    fn note(&self) -> (r: Option<String>) {
        None
    }

    fn suggestion(&self) -> (r: Option<String>) {
        let values: Vec<&str> = vec!["suppress"];
        proof {
            assert(values@ =~= known_pragmas());
        }
        let sims = similar_values(self.token.symbol.as_str(), &values);
        if sims.len() == 0 {
            None
        } else {
            Some(sims[0].to_owned())
        }
    }

    fn diagnostic(&self) -> (r: Option<Diagnostic>) {
        match default_diagnostic(
            self.token(),
            self.ident(),
            self.message(),
            self.label_message(),
            self.severity(),
            self.note(),
            self.help(),
            self.suggestion(),
        ) {
            Some(d) => Some(self.expand_diagnostic(d)),
            None => None,
        }
    }

    fn expand_diagnostic(&self, diag: Diagnostic) -> (r: Diagnostic) {
        diag
    }
}

impl PragmaUnknown {
    pub fn new(token: Token) -> (r: Self)
        ensures
            r.token == token,
    {
        Self { token }
    }

    /// Wrap the unknown command's token into the error this crate reports.
    pub fn code(token: Token) -> (r: Error)
        ensures
            r matches Error::Code(c) && c matches crate::error::CodedError::PragmaUnknown(s)
                && s.token == token,
    {
        Error::Code(crate::error::CodedError::PragmaUnknown(Self::new(token)))
    }
}

} // verus!

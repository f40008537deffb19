//! The conditional-compilation state machine. It tracks nested
//! `#if`/`#else` regions as a stack and answers, token by token, whether
//! text at the current position is emitted (`reading`) or suppressed
//! (`passing`). The only malformation it detects itself is a second
//! `#else` for one region; a stray `#endif` (`pop` of an empty stack) and
//! an unterminated `#if` (a non-empty stack at end of input) are the
//! caller's to surface.

pub mod laws;

use vstd::prelude::*;

use crate::codes::pe17_double_else::DoubleElse;
use crate::error::CodedError;
use crate::error::Error;
use crate::reporting::token::Token;

verus! {

/// Status of one open conditional region. Each variant carries the token
/// of the directive that created it, for error attribution.
#[derive(Debug, PartialEq, Eq)]
pub enum IfState {
    /// The condition was true; the region's text is emitted.
    ReadingIf(Token),
    /// The condition was false; the region's own text is suppressed.
    PassingIf(Token),
    /// The matching `#if` was false, so the `#else` branch is emitted.
    ReadingElse(Token),
    /// The matching `#if` was true, so the `#else` branch is suppressed.
    PassingElse(Token),
    /// The region is nested inside an already-suppressed ancestor; its own
    /// condition is irrelevant for emission.
    PassingChild(Token),
}

impl IfState {
    /// Whether this region's own state lets text through: only the two
    /// `Reading` variants do.
    pub open spec fn spec_reading(&self) -> bool {
        match self {
            IfState::ReadingIf(_) | IfState::ReadingElse(_) => true,
            IfState::PassingIf(_) | IfState::PassingElse(_) | IfState::PassingChild(_) => false,
        }
    }

    /// The token of the directive that created this state.
    pub open spec fn spec_token(&self) -> Token {
        match self {
            IfState::ReadingIf(t) => *t,
            IfState::PassingIf(t) => *t,
            IfState::ReadingElse(t) => *t,
            IfState::PassingElse(t) => *t,
            IfState::PassingChild(t) => *t,
        }
    }

    /// Whether text of a region in this state is emitted, considering this
    /// region alone.
    pub fn reading(&self) -> (r: bool)
        ensures
            r == self.spec_reading(),
    {
        match self {
            IfState::ReadingIf(_) | IfState::ReadingElse(_) => true,
            IfState::PassingIf(_) | IfState::PassingElse(_) | IfState::PassingChild(_) => false,
        }
    }

    /// The token of the directive that created this state.
    pub fn token(&self) -> (r: &Token)
        ensures
            *r == self.spec_token(),
    {
        match self {
            IfState::ReadingIf(t) => t,
            IfState::PassingIf(t) => t,
            IfState::ReadingElse(t) => t,
            IfState::PassingElse(t) => t,
            IfState::PassingChild(t) => t,
        }
    }
}

impl Clone for IfState {
    fn clone(&self) -> (r: Self)
        ensures
            r == *self,
    {
        match self {
            IfState::ReadingIf(t) => IfState::ReadingIf(t.clone()),
            IfState::PassingIf(t) => IfState::PassingIf(t.clone()),
            IfState::ReadingElse(t) => IfState::ReadingElse(t.clone()),
            IfState::PassingElse(t) => IfState::PassingElse(t.clone()),
            IfState::PassingChild(t) => IfState::PassingChild(t.clone()),
        }
    }
}

/// The abstract state of the directive machine: the open regions,
/// innermost last, and the token of the `#else` already consumed for the
/// current region, if any.
#[verifier::ext_equal]
pub struct Machine {
    /// The open conditional regions, innermost last.
    pub stack: Seq<IfState>,
    /// The `#else` already consumed for the current region, if any.
    pub did_else: Option<Token>,
}

/// Whether every open region lets text through; with no open region at
/// all, text is emitted.
pub open spec fn seq_reading(s: Seq<IfState>) -> bool {
    forall|i: int| 0 <= i < s.len() ==> s[i].spec_reading()
}

/// What `push_if` does: push the frame the condition calls for and forget
/// any recorded `#else`.
pub open spec fn push_if_spec(m: Machine, token: Token, state: bool) -> Machine {
    Machine {
        stack: m.stack.push(
            if state {
                IfState::ReadingIf(token)
            } else {
                IfState::PassingIf(token)
            },
        ),
        did_else: None,
    }
}

/// What `pop` does: drop the innermost region, if any, and forget any
/// recorded `#else`.
pub open spec fn pop_spec(m: Machine) -> Machine {
    Machine {
        stack: if m.stack.len() == 0 {
            m.stack
        } else {
            m.stack.drop_last()
        },
        did_else: None,
    }
}

/// How an `#else` transforms the innermost region when every strict
/// ancestor is reading: a false condition starts emitting, a true one
/// stops, a context-suppressed region stays so, and a region already in
/// its `#else` branch is dropped without replacement.
pub open spec fn flip_top(s: IfState) -> Option<IfState> {
    match s {
        IfState::PassingChild(t) => Some(IfState::PassingChild(t)),
        IfState::PassingIf(t) => Some(IfState::ReadingElse(t)),
        IfState::ReadingIf(t) => Some(IfState::PassingElse(t)),
        IfState::ReadingElse(_) | IfState::PassingElse(_) => None,
    }
}

/// What a successful `#else` does to the stack: when suppression, if any,
/// comes only from the innermost region's own condition, that region is
/// replaced according to `flip_top`; when an ancestor already suppresses,
/// the stack is left as it is.
pub open spec fn flip_stack(s: Seq<IfState>) -> Seq<IfState>
    recommends
        s.len() >= 1,
{
    if seq_reading(s.drop_last()) {
        match flip_top(s.last()) {
            Some(n) => s.drop_last().push(n),
            None => s.drop_last(),
        }
    } else {
        s
    }
}

/// What a successful `#else` does: transform the stack and record the
/// `#else` token, so that a further `#else` for the same region errors.
pub open spec fn flip_ok_spec(m: Machine, token: Token) -> Machine {
    Machine { stack: flip_stack(m.stack), did_else: Some(token) }
}

/// The stack of open conditional regions of one preprocessing run,
/// together with the `#else` already consumed for the current region.
/// Created empty — top level, always reading — and mutated by one
/// `push_if`, `pop` or `flip` per directive.
pub struct IfStates {
    stack: Vec<IfState>,
    did_else: Option<Token>,
}

impl View for IfStates {
    type V = Machine;

    closed spec fn view(&self) -> Machine {
        Machine { stack: self.stack@, did_else: self.did_else }
    }
}

impl IfStates {
    /// The empty stack: top level, nothing suppressed.
    pub fn new() -> (r: IfStates)
        ensures
            r@.stack.len() == 0,
            r@.did_else is None,
    {
        IfStates { stack: Vec::new(), did_else: None }
    }

    /// Whether text at the current position is actually emitted: true at
    /// top level and whenever every open region is reading; one suppressed
    /// ancestor poisons emission for all of its descendants.
    pub fn reading(&self) -> (r: bool)
        ensures
            r == seq_reading(self@.stack),
    {
        let mut i: usize = 0;
        while i < self.stack.len()
            invariant
                i <= self.stack@.len(),
                forall|k: int| 0 <= k < i ==> self.stack@[k].spec_reading(),
            decreases self.stack@.len() - i,
        {
            if !self.stack[i].reading() {
                return false;
            }
            i = i + 1;
        }
        true
    }

    /// Push a region state, forgetting any recorded `#else`.
    pub fn push(&mut self, s: IfState)
        ensures
            final(self)@ == (Machine { stack: old(self)@.stack.push(s), did_else: None }),
    {
        self.did_else = None;
        self.stack.push(s);
    }

    /// Enter the region of an `#if` with the given condition. The pushed
    /// frame records only this region's own condition; suppression by an
    /// ancestor is derived lazily by `reading`.
    pub fn push_if(&mut self, token: Token, state: bool)
        ensures
            final(self)@ == push_if_spec(old(self)@, token, state),
    {
        self.did_else = None;
        if state {
            self.push(IfState::ReadingIf(token));
        } else {
            self.push(IfState::PassingIf(token));
        }
    }

    /// Leave the innermost region on `#endif`, forgetting any recorded
    /// `#else`. `None` signals a stray `#endif`, which the caller reports.
    pub fn pop(&mut self) -> (r: Option<IfState>)
        ensures
            final(self)@ == pop_spec(old(self)@),
            r == (if old(self)@.stack.len() == 0 {
                None::<IfState>
            } else {
                Some(old(self)@.stack.last())
            }),
    {
        self.did_else = None;
        let r = self.stack.pop();
        proof {
            if old(self)@.stack.len() > 0 {
                assert(old(self)@.stack.subrange(0, old(self)@.stack.len() - 1) =~= old(
                    self,
                )@.stack.drop_last());
            }
        }
        r
    }

    /// Consume an `#else` for the innermost region. Fails exactly when an
    /// `#else` was already consumed for it, with a coded error carrying
    /// the new token, the previous `#else` and the region's opening
    /// directive; otherwise the stack is transformed as `flip_ok_spec`
    /// says and the `#else` is recorded. There must be an open region: an
    /// `#else` at top level is the caller's to detect, like a stray
    /// `#endif`.
    pub fn flip(&mut self, token: Token) -> (r: Result<(), Error>)
        requires
            old(self)@.stack.len() >= 1,
        ensures
            match r {
                Ok(()) => {
                    &&& old(self)@.did_else is None
                    &&& final(self)@ == flip_ok_spec(old(self)@, token)
                },
                Err(e) => {
                    &&& old(self)@.did_else matches Some(prev) && e matches Error::Code(c)
                        && c matches CodedError::DoubleElse(d) && d.token == token && d.previous
                        == prev && d.opening == old(self)@.stack.last().spec_token()
                    &&& final(self)@.stack == old(self)@.stack
                    &&& final(self)@.did_else is None
                },
            },
    {
        if let Some(previous) = self.did_else.take() {
            let opening = self.stack[self.stack.len() - 1].token().clone();
            return Err(DoubleElse::code(token, previous, opening));
        }
        let n = self.stack.len();
        let mut ancestors_reading = true;
        let mut i: usize = 0;
        while i < n - 1
            invariant
                n == self.stack@.len(),
                n >= 1,
                i <= n - 1,
                ancestors_reading == (forall|k: int|
                    0 <= k < i ==> self.stack@[k].spec_reading()),
            decreases n - 1 - i,
        {
            if !self.stack[i].reading() {
                ancestors_reading = false;
            }
            i = i + 1;
        }
        proof {
            let s = old(self)@.stack;
            assert forall|k: int| 0 <= k < n - 1 implies s.drop_last()[k] == s[k] by {}
            assert(ancestors_reading == seq_reading(s.drop_last()));
        }
        if ancestors_reading {
            if let Some(top) = self.pop() {
                match top {
                    IfState::PassingChild(t) => self.push(IfState::PassingChild(t)),
                    IfState::PassingIf(t) => self.push(IfState::ReadingElse(t)),
                    IfState::ReadingIf(t) => self.push(IfState::PassingElse(t)),
                    IfState::ReadingElse(_) | IfState::PassingElse(_) => {},
                }
            }
        }
        self.did_else = Some(token);
        Ok(())
    }
}

impl Default for IfStates {
    /// The empty stack, as `new` builds it.
    fn default() -> (r: IfStates)
        ensures
            r@.stack.len() == 0,
            r@.did_else is None,
    {
        IfStates::new()
    }
}

} // verus!

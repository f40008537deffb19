//! The guarantees of the directive machine, stated over the abstract
//! `Machine` that the executable operations are specified against: what a
//! whole run over a properly balanced document does, and how `#else`
//! behaves under suppressed ancestors.

use vstd::prelude::*;

use crate::ifstate::IfState;
use crate::ifstate::Machine;
use crate::ifstate::flip_ok_spec;
use crate::ifstate::flip_top;
use crate::ifstate::pop_spec;
use crate::ifstate::push_if_spec;
use crate::ifstate::seq_reading;
use crate::reporting::token::Token;

verus! {

/// One directive event, as the machine consumes it.
pub enum Ev {
    /// `#if` with its token and the value of its condition.
    If(Token, bool),
    /// `#else` with its token.
    Else(Token),
    /// `#endif`.
    Endif,
}

/// One step of the machine: `#if` pushes, `#endif` pops, and `#else`
/// transforms the innermost region. `None` means the `#else` is not
/// accepted: a second `#else` for the region (the machine's coded error),
/// or no open region at all (outside `flip`'s contract).
pub open spec fn step(m: Machine, e: Ev) -> Option<Machine> {
    match e {
        Ev::If(t, c) => Some(push_if_spec(m, t, c)),
        Ev::Endif => Some(pop_spec(m)),
        Ev::Else(t) => {
            if m.did_else is Some || m.stack.len() == 0 {
                None
            } else {
                Some(flip_ok_spec(m, t))
            }
        },
    }
}

/// The machine run over a whole sequence of directive events.
pub open spec fn run(m: Machine, evs: Seq<Ev>) -> Option<Machine>
    decreases evs.len(),
{
    if evs.len() == 0 {
        Some(m)
    } else {
        match step(m, evs[0]) {
            Some(m2) => run(m2, evs.skip(1)),
            None => None,
        }
    }
}

/// A run over concatenated events is the run over the first part chained
/// into the run over the second.
pub proof fn lemma_run_concat(m: Machine, s: Seq<Ev>, t: Seq<Ev>)
    ensures
        run(m, s + t) == (match run(m, s) {
            Some(m2) => run(m2, t),
            None => None::<Machine>,
        }),
    decreases s.len(),
{
    if s.len() == 0 {
        assert(s + t =~= t);
    } else {
        assert((s + t)[0] == s[0]);
        assert((s + t).skip(1) =~= s.skip(1) + t);
        match step(m, s[0]) {
            Some(m2) => {
                lemma_run_concat(m2, s.skip(1), t);
            },
            None => {},
        }
    }
}

/// A run over one event is exactly one step.
pub proof fn lemma_run_single(m: Machine, e: Ev)
    ensures
        run(m, seq![e]) == step(m, e),
{
    let s = seq![e];
    assert(s[0] == e);
    assert(s.skip(1) =~= Seq::<Ev>::empty());
    match step(m, e) {
        Some(m2) => {
            assert(run(m2, s.skip(1)) == Some(m2));
        },
        None => {},
    }
}

/// A properly balanced arrangement of conditional directives: nothing,
/// two balanced arrangements in sequence, or one `#if` region — with at
/// most one `#else` — around balanced bodies.
pub enum Doc {
    /// No directives.
    Empty,
    /// One balanced arrangement followed by another.
    Cat(Box<Doc>, Box<Doc>),
    /// `#if` with its token and condition, the balanced body before any
    /// `#else`, the optional `#else` with its token and balanced body,
    /// and the closing `#endif`.
    If(Token, bool, Box<Doc>, Option<(Token, Box<Doc>)>),
}

/// The directive events a balanced document produces, in source order.
pub open spec fn events(d: Doc) -> Seq<Ev>
    decreases d,
{
    match d {
        Doc::Empty => Seq::empty(),
        Doc::Cat(a, b) => events(*a) + events(*b),
        Doc::If(t, c, body, els) => seq![Ev::If(t, c)] + events(*body) + (match els {
            Some((et, ebody)) => seq![Ev::Else(et)] + events(*ebody),
            None => Seq::<Ev>::empty(),
        }) + seq![Ev::Endif],
    }
}

/// Processing a balanced document never fails and restores the stack that
/// was there before it; when the document is not empty, the run also ends
/// with no `#else` on record.
pub proof fn lemma_doc_preserves(d: Doc, m: Machine)
    ensures
        run(m, events(d)) matches Some(m2) && m2.stack == m.stack && (events(d).len() == 0 ==> m2
            == m) && (events(d).len() > 0 ==> m2.did_else is None),
    decreases d,
{
    match d {
        Doc::Empty => {
        },
        Doc::Cat(a, b) => {
            lemma_run_concat(m, events(*a), events(*b));
            lemma_doc_preserves(*a, m);
            let m1 = run(m, events(*a))->Some_0;
            lemma_doc_preserves(*b, m1);
        },
        Doc::If(t, c, body, els) => {
            let e0 = seq![Ev::If(t, c)];
            let eb = events(*body);
            let eel = match els {
                Some((et, ebody)) => seq![Ev::Else(et)] + events(*ebody),
                None => Seq::<Ev>::empty(),
            };
            let e3 = seq![Ev::Endif];
            assert(events(d) == e0 + eb + eel + e3);
            lemma_run_concat(m, e0 + eb + eel, e3);
            lemma_run_concat(m, e0 + eb, eel);
            lemma_run_concat(m, e0, eb);

            let ma = push_if_spec(m, t, c);
            lemma_run_single(m, Ev::If(t, c));
            assert(run(m, e0) == Some(ma));
            assert(ma.stack.drop_last() =~= m.stack);

            lemma_doc_preserves(*body, ma);
            let mb = run(ma, eb)->Some_0;
            assert(mb.did_else is None);
            assert(mb.stack == ma.stack);

            let mc = match els {
                Some((et, ebody)) => {
                    lemma_run_concat(mb, seq![Ev::Else(et)], events(*ebody));
                    let mf = flip_ok_spec(mb, et);
                    lemma_run_single(mb, Ev::Else(et));
                    assert(run(mb, seq![Ev::Else(et)]) == Some(mf));
                    assert(mf.stack.drop_last() =~= m.stack) by {
                        assert(mb.stack.drop_last() =~= m.stack);
                        if seq_reading(mb.stack.drop_last()) {
                            match flip_top(mb.stack.last()) {
                                Some(n) => {
                                    assert(mf.stack == mb.stack.drop_last().push(n));
                                    assert(mf.stack.drop_last() =~= mb.stack.drop_last());
                                },
                                None => {},
                            }
                        }
                    };
                    assert(mf.stack.len() == m.stack.len() + 1) by {
                        if seq_reading(mb.stack.drop_last()) {
                            assert(mb.stack.last() == ma.stack.last());
                            assert(flip_top(mb.stack.last()) is Some);
                        }
                    };
                    lemma_doc_preserves(*ebody, mf);
                    let me = run(mf, events(*ebody))->Some_0;
                    me
                },
                None => mb,
            };
            assert(run(m, e0 + eb + eel) == Some(mc));
            assert(mc.stack.len() == m.stack.len() + 1);
            assert(mc.stack.drop_last() =~= m.stack);
            let md = pop_spec(mc);
            lemma_run_single(mc, Ev::Endif);
            assert(run(mc, e3) == Some(md));
            assert(md.stack == m.stack);
            assert(events(d).len() > 0);
        },
    }
}

/// For every properly balanced arrangement of `#if`/`#else`/`#endif`
/// directives, processing from top level succeeds, ends with an empty
/// stack, and leaves text at top level emitted.
pub proof fn lemma_balanced_leaves_top_level(d: Doc)
    ensures
        ({
            let start = Machine { stack: Seq::empty(), did_else: None };
            run(start, events(d)) matches Some(m) && m.stack.len() == 0 && seq_reading(m.stack)
        }),
{
    let start = Machine { stack: Seq::empty(), did_else: None };
    lemma_doc_preserves(d, start);
}

/// One suppressed region anywhere in the stack poisons emission: text is
/// read only when every open region is a `Reading` variant.
pub proof fn lemma_suppressed_frame_blocks_reading(s: Seq<IfState>, i: int)
    requires
        0 <= i < s.len(),
        !s[i].spec_reading(),
    ensures
        !seq_reading(s),
{
}

/// When no ancestor suppresses, `#else` swaps the branch of the innermost
/// region: a region whose condition was false starts emitting, one whose
/// condition was true stops.
pub proof fn lemma_flip_swaps_branch(m: Machine, token: Token)
    requires
        m.stack.len() >= 1,
        seq_reading(m.stack.drop_last()),
    ensures
        m.stack.last() matches IfState::PassingIf(t) ==> flip_ok_spec(m, token).stack
            == m.stack.drop_last().push(IfState::ReadingElse(t)),
        m.stack.last() matches IfState::ReadingIf(t) ==> flip_ok_spec(m, token).stack
            == m.stack.drop_last().push(IfState::PassingElse(t)),
{
}

/// When an ancestor already suppresses the innermost region, `#else`
/// leaves the stack exactly as it is — but still records the `#else`, so
/// a second one for the same region is refused.
pub proof fn lemma_flip_under_suppressed_ancestor(m: Machine, t1: Token, t2: Token)
    requires
        m.stack.len() >= 1,
        m.did_else is None,
        !seq_reading(m.stack.drop_last()),
    ensures
        flip_ok_spec(m, t1).stack == m.stack,
        flip_ok_spec(m, t1).did_else == Some(t1),
        step(flip_ok_spec(m, t1), Ev::Else(t2)) is None,
{
}

} // verus!

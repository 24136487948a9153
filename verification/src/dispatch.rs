//! The dispatcher: what a try construct does with the outcome of its try
//! block.

use crate::carrier::{Signal, Thrown};
use crate::construct::{
    lemma_first_match_is, lemma_first_match_none, lemma_some_declares_has_first, Construct, Shape,
};
use vstd::prelude::*;

verus! {

/// How an intercepted run of a body ended: with a value, or by unwinding.
pub enum Interception<T, P, F> {
    Completed(T),
    Unwound(Signal<P, F>),
}

/// What the construct does next. A payload or fault that a clause receives is
/// moved out to it; a signal that no clause takes is handed back whole, to be
/// raised again.
pub enum Resolution<T, P, F> {
    /// The try block completed; its value is the construct's result.
    Value(T),
    /// The typed clause at `clause` receives the payload.
    Typed { clause: usize, payload: P },
    /// The clause for every thrown value receives the payload.
    CatchAll { payload: P },
    /// The clause for genuine faults receives the fault.
    CatchPanic { fault: F },
    /// No clause takes the signal.
    Reraise(Signal<P, F>),
}

impl Shape {
    /// What the construct does with a carrier: the first typed clause declared
    /// for the payload's type receives the payload; failing that, the clause
    /// for every thrown value; failing that, the carrier is raised again.
    pub open spec fn resolve_carrier<T, P, F>(self, thrown: Thrown<P>) -> Resolution<T, P, F> {
        match self.first_match(thrown.type_id) {
            Some(i) => Resolution::Typed { clause: i as usize, payload: thrown.source },
            None => if self.catch_all {
                Resolution::CatchAll { payload: thrown.source }
            } else {
                Resolution::Reraise(Signal::Carrier(thrown))
            },
        }
    }

    /// What the construct does with a genuine fault: the clause for faults
    /// receives it, or it is raised again.
    pub open spec fn resolve_fault<T, P, F>(self, fault: F) -> Resolution<T, P, F> {
        if self.catch_panic {
            Resolution::CatchPanic { fault }
        } else {
            Resolution::Reraise(Signal::Fault(fault))
        }
    }

    /// What the construct does with the outcome of its try block.
    pub open spec fn resolve<T, P, F>(self, outcome: Interception<T, P, F>) -> Resolution<T, P, F> {
        match outcome {
            Interception::Completed(value) => Resolution::Value(value),
            Interception::Unwound(Signal::Carrier(thrown)) => self.resolve_carrier(thrown),
            Interception::Unwound(Signal::Fault(fault)) => self.resolve_fault(fault),
        }
    }
}

impl Construct {
    /// Decides what the construct does with the outcome of its try block.
    pub fn resolve<T, P, F>(&self, outcome: Interception<T, P, F>) -> (r: Resolution<T, P, F>)
        ensures
            r == self@.resolve(outcome),
    {
        match outcome {
            Interception::Completed(value) => Resolution::Value(value),
            Interception::Unwound(signal) => self.dispatch(signal),
        }
    }

    /// Decides what the construct does with an intercepted unwind.
    pub fn dispatch<T, P, F>(&self, signal: Signal<P, F>) -> (r: Resolution<T, P, F>)
        ensures
            r == self@.resolve(Interception::<T, P, F>::Unwound(signal)),
    {
        match signal {
            Signal::Fault(fault) => {
                if self.has_catch_panic() {
                    Resolution::CatchPanic { fault }
                } else {
                    Resolution::Reraise(Signal::Fault(fault))
                }
            },
            Signal::Carrier(thrown) => {
                match self.first_match(&thrown.type_id) {
                    Some(clause) => Resolution::Typed { clause, payload: thrown.source },
                    None => {
                        if self.has_catch_all() {
                            Resolution::CatchAll { payload: thrown.source }
                        } else {
                            Resolution::Reraise(Signal::Carrier(thrown))
                        }
                    },
                }
            },
        }
    }
}

/// Typed clauses are tried in declaration order and the first one declared for
/// the payload's type wins: a typed clause receives the payload exactly when it
/// is declared for the payload's type and no clause before it is. No later
/// clause receives it, whether or not it is declared for the same type.
pub proof fn lemma_first_declared_clause_wins<T, P, F>(shape: Shape, thrown: Thrown<P>, i: int)
    requires
        shape.typed.len() <= usize::MAX,
        0 <= i < shape.typed.len(),
    ensures
        shape.resolve(Interception::<T, P, F>::Unwound(Signal::Carrier(thrown)))
            == (Resolution::<T, P, F>::Typed { clause: i as usize, payload: thrown.source })
            <==> shape.first_declaring(i, thrown.type_id),
{
    let tag = thrown.type_id;
    if shape.first_declaring(i, tag) {
        lemma_first_match_is(shape, tag, i);
    } else if let Some(k) = shape.first_match(tag) {
        assert(shape.first_declaring(k, tag));
    }
}

/// The clause for every thrown value receives the payload exactly when the
/// signal is a carrier, the clause is present, and no typed clause is declared
/// for the payload's type.
pub proof fn lemma_catch_all_iff_no_typed_match<T, P, F>(
    shape: Shape,
    outcome: Interception<T, P, F>,
)
    ensures
        shape.resolve(outcome) is CatchAll <==> (outcome matches Interception::Unwound(
            Signal::Carrier(thrown),
        ) && shape.catch_all && !shape.some_declares(thrown.type_id)),
        shape.resolve(outcome) matches Resolution::CatchAll { payload } ==> (
        outcome matches Interception::Unwound(Signal::Carrier(thrown)) && payload
            == thrown.source),
{
    if let Interception::Unwound(Signal::Carrier(thrown)) = outcome {
        let tag = thrown.type_id;
        if shape.some_declares(tag) {
            let i = choose|i: int| shape.declares(i, tag);
            lemma_some_declares_has_first(shape, tag, i);
        } else {
            lemma_first_match_none(shape, tag);
        }
    }
}

/// The clause for genuine faults receives control exactly when the signal is a
/// fault and the clause is present; it never receives a carrier.
pub proof fn lemma_catch_panic_iff_fault<T, P, F>(shape: Shape, outcome: Interception<T, P, F>)
    ensures
        shape.resolve(outcome) is CatchPanic <==> (outcome matches Interception::Unwound(
            Signal::Fault(_),
        ) && shape.catch_panic),
        shape.resolve(outcome) matches Resolution::CatchPanic { fault } ==> outcome
            == Interception::<T, P, F>::Unwound(Signal::Fault(fault)),
{
}

/// A thrown value met by a typed clause for its type comes back as it was
/// thrown: some typed clause receives the very payload that the carrier held.
pub proof fn lemma_payload_round_trip<T, P, F>(shape: Shape, thrown: Thrown<P>, i: int)
    requires
        shape.declares(i, thrown.type_id),
    ensures
        shape.resolve(Interception::<T, P, F>::Unwound(Signal::Carrier(thrown)))
            matches Resolution::Typed { clause, payload } && payload == thrown.source,
{
    lemma_some_declares_has_first(shape, thrown.type_id, i);
}

/// A signal that no clause takes is raised again as it was intercepted: the
/// same fault, or the same carrier with its payload, type and context.
pub proof fn lemma_reraise_unchanged<T, P, F>(shape: Shape, outcome: Interception<T, P, F>)
    ensures
        shape.resolve(outcome) matches Resolution::Reraise(signal) ==> outcome
            == Interception::<T, P, F>::Unwound(signal),
        shape.resolve(outcome) is Reraise <==> (match outcome {
            Interception::Completed(_) => false,
            Interception::Unwound(Signal::Fault(_)) => !shape.catch_panic,
            Interception::Unwound(Signal::Carrier(thrown)) => !shape.catch_all
                && !shape.some_declares(thrown.type_id),
        }),
{
    if let Interception::Unwound(Signal::Carrier(thrown)) = outcome {
        let tag = thrown.type_id;
        if shape.some_declares(tag) {
            let i = choose|i: int| shape.declares(i, tag);
            lemma_some_declares_has_first(shape, tag, i);
        } else {
            lemma_first_match_none(shape, tag);
        }
    }
}

} // verus!

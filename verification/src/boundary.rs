//! The boundary driver: the outermost point of containment, where a carrier
//! that nothing caught becomes a fatal failure and a genuine fault passes
//! through.

use crate::carrier::{backtrace_text, Signal, Thrown};
use crate::dispatch::Interception;
use vstd::prelude::*;
use vstd::string::StringExecFns;

verus! {

/// What the boundary does with the outcome of the body that it wraps.
pub enum Verdict<T, F> {
    /// The body completed; its value is handed on unchanged.
    Return(T),
    /// A carrier reached the boundary unhandled; fail for good, with this
    /// message.
    Fatal(String),
    /// A genuine fault reached the boundary; raise it again as it is.
    Resume(F),
}

/// The text of the fatal failure for a payload of the declared type
/// `descriptor`, thrown in the execution context `context`.
pub open spec fn escalation_text(descriptor: Seq<char>, context: Seq<char>) -> Seq<char> {
    "unhandled exception "@ + descriptor + " at "@ + context
}

/// Whether `message` is the text of the fatal failure for a payload of the
/// declared type `descriptor`, whatever the context.
pub open spec fn escalates(message: Seq<char>, descriptor: Seq<char>) -> bool {
    exists|context: Seq<char>| message == escalation_text(descriptor, context)
}

/// Writes the text of the fatal failure for an unhandled payload.
pub fn escalation_message(descriptor: &str, context: &str) -> (r: String)
    ensures
        r@ == escalation_text(descriptor@, context@),
{
    let mut message = String::from_str("unhandled exception ");
    message.append(descriptor);
    message.append(" at ");
    message.append(context);
    message
}

impl<P> Thrown<P> {
    /// The text of the fatal failure that this carrier becomes at a boundary:
    /// it names the payload's declared type and holds the captured context.
    pub fn escalation(&self) -> (r: String)
        ensures
            escalates(r@, self.type_descriptor@),
    {
        let context = backtrace_text(&self.backtrace);
        let message = escalation_message(self.type_descriptor, context.as_str());
        assert(message@ == escalation_text(self.type_descriptor@, context@));
        message
    }
}

/// Decides what the boundary does with the outcome of one run of the body
/// that it wraps; for a body that runs in steps, of one step. A value is
/// returned unchanged, a genuine fault is raised again unchanged, and a
/// carrier becomes a fatal failure whose message names the payload's declared
/// type.
pub fn throw_driver<T, P, F>(outcome: Interception<T, P, F>) -> (r: Verdict<T, F>)
    ensures
        match outcome {
            Interception::Completed(value) => r == Verdict::<T, F>::Return(value),
            Interception::Unwound(Signal::Fault(fault)) => r == Verdict::<T, F>::Resume(fault),
            Interception::Unwound(Signal::Carrier(thrown)) => r matches Verdict::Fatal(message)
                && escalates(message@, thrown.type_descriptor@),
        },
{
    match outcome {
        Interception::Completed(value) => Verdict::Return(value),
        Interception::Unwound(Signal::Fault(fault)) => Verdict::Resume(fault),
        Interception::Unwound(Signal::Carrier(thrown)) => Verdict::Fatal(thrown.escalation()),
    }
}

} // verus!

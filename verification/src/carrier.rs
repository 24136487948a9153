//! The carrier that rides an unwind, and the signal an interception observes.

use std::any::TypeId;
use std::backtrace::Backtrace;
use vstd::prelude::*;

verus! {

/// `std::any::TypeId`, the runtime identity of a type. Opaque here: it is only
/// carried and compared.
#[verifier::external_type_specification]
#[verifier::external_body]
pub struct ExTypeId(TypeId);

/// `std::backtrace::Backtrace`, the execution context captured at a throw.
/// Opaque here: it is only carried, and rendered for a diagnostic.
#[verifier::external_type_specification]
#[verifier::external_body]
pub struct ExBacktrace(Backtrace);

/// The carrier of a thrown value.
///
/// `source` is the payload, whatever form the caller keeps it in; the dispatch
/// logic never looks inside it and only ever moves it. `type_id` is the runtime
/// identity of the payload's declared type, by which catch clauses are matched.
/// `type_descriptor` and `backtrace` serve diagnostics only.
pub struct Thrown<P> {
    pub source: P,
    pub type_id: TypeId,
    pub type_descriptor: &'static str,
    pub backtrace: Backtrace,
}

/// What an interception of an unwind observes: a carrier made by a throw, or
/// any other payload, which stands for a genuine fault.
pub enum Signal<P, F> {
    Carrier(Thrown<P>),
    Fault(F),
}

/// Calls `TypeId`'s `==`. Two type identities compare equal exactly when they
/// are the same identity; the contract claims no more than that.
#[verifier::external_body]
pub(crate) fn same_type(a: &TypeId, b: &TypeId) -> (r: bool)
    ensures
        r == (*a == *b),
{
    a == b
}

/// Calls `Backtrace`'s `to_string`. What the text holds depends on the machine
/// and on how the process was built and started, so nothing is claimed of it.
#[verifier::external_body]
pub(crate) fn backtrace_text(trace: &Backtrace) -> (r: String) {
    trace.to_string()
}

impl<P> Thrown<P> {
    /// Assembles a carrier from its four parts, each kept as given.
    pub fn new(
        source: P,
        type_id: TypeId,
        type_descriptor: &'static str,
        backtrace: Backtrace,
    ) -> (r: Self)
        ensures
            r.source == source,
            r.type_id == type_id,
            r.type_descriptor == type_descriptor,
            r.backtrace == backtrace,
    {
        Thrown { source, type_id, type_descriptor, backtrace }
    }

    /// Whether the payload's declared type is `declared`. The carrier is left
    /// as it is: probing is not extraction.
    pub fn is_type(&self, declared: &TypeId) -> (r: bool)
        ensures
            r == (self.type_id == *declared),
    {
        same_type(&self.type_id, declared)
    }

    /// Moves the payload out and discards the rest of the carrier.
    pub fn into_source(self) -> (r: P)
        ensures
            r == self.source,
    {
        self.source
    }
}

impl<P, F> Signal<P, F> {
    /// Whether the signal is a carrier, that is a deliberate throw.
    pub fn is_carrier(&self) -> (r: bool)
        ensures
            r == (self is Carrier),
    {
        match self {
            Signal::Carrier(_) => true,
            Signal::Fault(_) => false,
        }
    }
}

} // verus!

//! The order of what a try construct runs once the outcome of its try block
//! is known, and the place of the finally block in it.

use crate::construct::{Construct, Shape};
use crate::dispatch::Resolution;
use vstd::prelude::*;

verus! {

/// A clause that can receive control.
#[derive(Debug, Clone, Copy, PartialEq, Eq, Structural)]
pub enum Handler {
    /// The typed clause at this place in declaration order.
    Typed(usize),
    /// The clause for every thrown value.
    CatchAll,
    /// The clause for genuine faults.
    CatchPanic,
}

/// The path by which control leaves the construct.
#[derive(Debug, Clone, Copy, PartialEq, Eq, Structural)]
pub enum Route {
    /// The try block completed.
    Completed,
    /// A clause received control and its value is the result.
    Handled(Handler),
    /// No clause took the signal and it is raised again.
    Reraised,
}

/// One thing that the construct runs or does.
#[derive(Debug, Clone, Copy, PartialEq, Eq, Structural)]
pub enum Step {
    /// Run the body of a clause.
    Handle(Handler),
    /// Run the body of the finally block.
    Finally,
    /// Leave with the result.
    Return,
    /// Leave by raising the signal again.
    Reraise,
}

/// The path that a resolution stands for.
pub open spec fn route_of<T, P, F>(resolution: Resolution<T, P, F>) -> Route {
    match resolution {
        Resolution::Value(_) => Route::Completed,
        Resolution::Typed { clause, payload } => Route::Handled(Handler::Typed(clause)),
        Resolution::CatchAll { payload } => Route::Handled(Handler::CatchAll),
        Resolution::CatchPanic { fault } => Route::Handled(Handler::CatchPanic),
        Resolution::Reraise(_) => Route::Reraised,
    }
}

/// The step by which control leaves on a path.
pub open spec fn exit_of(route: Route) -> Step {
    match route {
        Route::Reraised => Step::Reraise,
        _ => Step::Return,
    }
}

impl Shape {
    /// What runs after the try block, in order: the clause that received
    /// control, if one did; then the finally block, if there is one; then the
    /// exit.
    pub open spec fn schedule(self, route: Route) -> Seq<Step> {
        let handling = match route {
            Route::Handled(handler) => seq![Step::Handle(handler)],
            _ => Seq::<Step>::empty(),
        };
        let cleanup = if self.finally {
            seq![Step::Finally]
        } else {
            Seq::<Step>::empty()
        };
        handling + cleanup + seq![exit_of(route)]
    }
}

/// How often the finally block runs in a sequence of steps.
pub open spec fn finally_runs(steps: Seq<Step>) -> nat
    decreases steps.len(),
{
    if steps.len() == 0 {
        0
    } else {
        finally_runs(steps.drop_last()) + if steps.last() == Step::Finally {
            1nat
        } else {
            0nat
        }
    }
}

impl<T, P, F> Resolution<T, P, F> {
    /// The path that this resolution stands for.
    pub fn route(&self) -> (r: Route)
        ensures
            r == route_of(*self),
    {
        match self {
            Resolution::Value(_) => Route::Completed,
            Resolution::Typed { clause, .. } => Route::Handled(Handler::Typed(*clause)),
            Resolution::CatchAll { .. } => Route::Handled(Handler::CatchAll),
            Resolution::CatchPanic { .. } => Route::Handled(Handler::CatchPanic),
            Resolution::Reraise(_) => Route::Reraised,
        }
    }
}

impl Construct {
    /// Lists what the construct runs after its try block on the given path.
    pub fn schedule(&self, route: Route) -> (r: Vec<Step>)
        ensures
            r@ == self@.schedule(route),
    {
        let mut steps: Vec<Step> = Vec::new();
        if let Route::Handled(handler) = route {
            steps.push(Step::Handle(handler));
        }
        if self.has_finally() {
            steps.push(Step::Finally);
        }
        match route {
            Route::Reraised => steps.push(Step::Reraise),
            _ => steps.push(Step::Return),
        }
        assert(steps@ =~= self@.schedule(route));
        steps
    }
}

/// Where a finally block is present its body runs exactly once on every path
/// out of the construct: when the try block completed, when a clause
/// completed, and when the signal is raised again. It runs after everything
/// that decides the outcome and directly before control leaves. Where none is
/// present nothing of the kind runs.
pub proof fn lemma_finally_runs_once(shape: Shape, route: Route)
    ensures
        finally_runs(shape.schedule(route)) == (if shape.finally {
            1nat
        } else {
            0nat
        }),
        shape.schedule(route).len() >= 1,
        shape.schedule(route).last() == exit_of(route),
        forall|i: int|
            0 <= i < shape.schedule(route).len() - 1 ==> shape.schedule(route)[i] != Step::Return
                && shape.schedule(route)[i] != Step::Reraise,
        shape.finally ==> shape.schedule(route).len() >= 2 && shape.schedule(route)[
            shape.schedule(route).len() - 2
        ] == Step::Finally,
{
    let steps = shape.schedule(route);
    let exit = exit_of(route);
    assert(steps.last() == exit);
    assert(exit != Step::Finally);
    let before = steps.drop_last();
    assert(finally_runs(steps) == finally_runs(before));
    let handling = match route {
        Route::Handled(handler) => seq![Step::Handle(handler)],
        _ => Seq::<Step>::empty(),
    };
    if shape.finally {
        assert(before =~= handling + seq![Step::Finally]);
        assert(before.last() == Step::Finally);
        assert(before.drop_last() =~= handling);
        assert(finally_runs(before) == finally_runs(handling) + 1);
    } else {
        assert(before =~= handling);
    }
    if handling.len() == 0 {
        assert(finally_runs(handling) == 0);
    } else {
        assert(handling.drop_last() =~= Seq::<Step>::empty());
        assert(finally_runs(handling.drop_last()) == 0);
        assert(handling.last() != Step::Finally);
        assert(finally_runs(handling) == 0);
    }
}

} // verus!

//! Structured exception handling on top of unwinding: the rules by which a
//! try construct dispatches what it intercepts, by which a boundary contains
//! what nothing caught, and by which a definition is put under a boundary.
//!
//! Nothing here unwinds. The caller intercepts, hands over what it observed,
//! and carries out what comes back.

pub mod boundary;
pub mod carrier;
pub mod construct;
pub mod dispatch;
pub mod guard;
pub mod schedule;

pub use boundary::{escalation_message, throw_driver, Verdict};
pub use carrier::{Signal, Thrown};
pub use construct::{Construct, ShapeError};
pub use dispatch::{Interception, Resolution};
pub use guard::{
    closure_throw_guard, guard_closure, guard_item, throw_guard, throw_guard_body, wrap_closure,
    wrap_func, Closure, FnOrClosure, Function, GuardError,
};
pub use schedule::{Handler, Route, Step};

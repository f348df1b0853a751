//! Values that a handler can ask for, each taken from the execution record
//! and the shared user state of one tick.
use std::time::Duration;
use vstd::prelude::*;

use crate::context::StateMachineContext;

verus! {

/// A value that can be produced from the execution record and the shared
/// user state. Extraction always succeeds.
pub trait FromContext<S>: Sized {
    /// Whether `value` is what extraction may give for `context` and
    /// `user_context`.
    spec fn extracts(context: StateMachineContext, user_context: S, value: Self) -> bool;

    fn from_context(context: &StateMachineContext, user_context: &S) -> (r: Self)
        ensures
            Self::extracts(*context, *user_context, r),
    ;
}

/// The tick interval alone.
pub struct TickRate(pub Duration);

/// A clone of the shared user state.
pub struct State<S>(pub S);

impl<S> FromContext<S> for StateMachineContext {
    open spec fn extracts(context: StateMachineContext, user_context: S, value: Self) -> bool {
        value == context
    }

    fn from_context(context: &StateMachineContext, _user_context: &S) -> (r: Self) {
        context.snapshot()
    }
}

impl<S> FromContext<S> for TickRate {
    open spec fn extracts(context: StateMachineContext, user_context: S, value: Self) -> bool {
        value.0 == context.tick_rate
    }

    fn from_context(context: &StateMachineContext, _user_context: &S) -> (r: Self) {
        TickRate(context.tick_rate)
    }
}

impl<S: Clone> FromContext<S> for State<S> {
    open spec fn extracts(context: StateMachineContext, user_context: S, value: Self) -> bool {
        cloned(user_context, value.0)
    }

    fn from_context(_context: &StateMachineContext, user_context: &S) -> (r: Self) {
        State(user_context.clone())
    }
}

} // verus!

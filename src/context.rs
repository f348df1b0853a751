//! The record of one execution: its tick interval, its current and initial
//! state, and where it stands in its lifecycle.
use std::time::Duration;
use vstd::prelude::*;

verus! {

/// The control state of a machine.
#[derive(Clone, Copy, Debug, PartialEq, Eq, Structural)]
pub enum LifeCycle {
    /// Each tick runs the handler of the current state.
    Running,
    /// Ticks pass without running any handler.
    Paused,
    /// The next tick resets the current state to the initial one and ends the loop.
    Stopped,
    /// A tick found no handler for the current state; the loop that found it ended.
    Faulted,
}

/// What the handlers and the observers see of an execution.
#[derive(Clone, Debug)]
pub struct StateMachineContext {
    pub tick_rate: Duration,
    pub current_state: String,
    pub initial_state: String,
    pub life_cycle: LifeCycle,
}

impl StateMachineContext {
    /// This record with its lifecycle set to `life_cycle`.
    pub open spec fn with_life_cycle(self, life_cycle: LifeCycle) -> Self {
        StateMachineContext { life_cycle, ..self }
    }

    /// This record once a handler has named `next` as the state to run next.
    pub open spec fn dispatched(self, next: String) -> Self {
        StateMachineContext { current_state: next, ..self }
    }

    /// Whether a tick that finds this record ends the loop. `registered`
    /// says whether the current state has a handler.
    pub open spec fn tick_finishes(self, registered: bool) -> bool {
        match self.life_cycle {
            LifeCycle::Stopped | LifeCycle::Faulted => true,
            LifeCycle::Running => !registered,
            LifeCycle::Paused => false,
        }
    }

    /// Whether a tick that finds this record runs the handler of the
    /// current state.
    pub open spec fn tick_dispatches(self, registered: bool) -> bool {
        self.life_cycle == LifeCycle::Running && registered
    }

    /// This record after a tick has looked at it, before any handler runs:
    /// a stopped record goes back to its initial state, a running one whose
    /// current state has no handler becomes faulted, any other stays as it is.
    pub open spec fn after_tick(self, registered: bool) -> Self {
        match self.life_cycle {
            LifeCycle::Stopped => StateMachineContext { current_state: self.initial_state, ..self },
            LifeCycle::Running => if registered {
                self
            } else {
                self.with_life_cycle(LifeCycle::Faulted)
            },
            _ => self,
        }
    }

    /// A stopped record that starts in `initial_state`.
    pub fn new(tick_rate: Duration, initial_state: String) -> (r: Self)
        ensures
            r.tick_rate == tick_rate,
            r.current_state == initial_state,
            r.initial_state == initial_state,
            r.life_cycle == LifeCycle::Stopped,
    {
        StateMachineContext {
            tick_rate,
            current_state: initial_state.clone(),
            initial_state,
            life_cycle: LifeCycle::Stopped,
        }
    }

    /// A copy of this record.
    pub fn snapshot(&self) -> (r: Self)
        ensures
            r == *self,
    {
        StateMachineContext {
            tick_rate: self.tick_rate,
            current_state: self.current_state.clone(),
            initial_state: self.initial_state.clone(),
            life_cycle: self.life_cycle,
        }
    }
}

} // verus!

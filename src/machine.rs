//! The machine: its registry, its execution record, the shared user state,
//! and whether a loop drives it. The lifecycle controller and the steps of
//! the loop are methods here; the host sleeps between ticks.
use std::time::Duration;
use vstd::prelude::*;

use crate::callback::{Callback, StoredCallback};
use crate::context::{LifeCycle, StateMachineContext};
use crate::registry::HandlerRegistry;

verus! {

/// What the loop does once a tick has looked at the record.
#[derive(Clone, Copy, Debug, PartialEq, Eq, Structural)]
pub enum TickAction {
    /// Run no handler; sleep one tick and look again.
    Wait,
    /// Run the handler of the current state, then sleep one tick.
    Dispatch,
    /// End the loop.
    Finish,
}

/// The abstract state of a machine.
pub struct StateMachineView<S, H> {
    pub handlers: Map<Seq<char>, H>,
    pub context: StateMachineContext,
    pub user_context: S,
    /// Whether a loop drives the machine.
    pub loop_attached: bool,
}

impl<S, H> StateMachineView<S, H> {
    /// Whether the current state has a handler.
    pub open spec fn registered(self) -> bool {
        self.handlers.contains_key(self.context.current_state@)
    }

    /// This machine with its lifecycle set to `life_cycle`.
    pub open spec fn with_life_cycle(self, life_cycle: LifeCycle) -> Self {
        StateMachineView { context: self.context.with_life_cycle(life_cycle), ..self }
    }

    /// Whether the machine is faulted, which nothing undoes.
    pub open spec fn faulted(self) -> bool {
        self.context.life_cycle == LifeCycle::Faulted
    }

    /// This machine once the controller has asked for `life_cycle`: a
    /// faulted machine stays as it is.
    pub open spec fn controlled(self, life_cycle: LifeCycle) -> Self {
        if self.faulted() {
            self
        } else {
            self.with_life_cycle(life_cycle)
        }
    }

    /// This machine once `run` has been called: running, with a loop
    /// attached, unless it is faulted.
    pub open spec fn started(self) -> Self {
        if self.faulted() {
            self
        } else {
            StateMachineView {
                context: self.context.with_life_cycle(LifeCycle::Running),
                loop_attached: true,
                ..self
            }
        }
    }

    /// This machine once its loop has failed: faulted, with no loop.
    pub open spec fn loop_failed(self) -> Self {
        StateMachineView {
            context: self.context.with_life_cycle(LifeCycle::Faulted),
            loop_attached: false,
            ..self
        }
    }

    /// What the next tick does.
    pub open spec fn tick_action(self) -> TickAction {
        if self.context.tick_finishes(self.registered()) {
            TickAction::Finish
        } else if self.context.tick_dispatches(self.registered()) {
            TickAction::Dispatch
        } else {
            TickAction::Wait
        }
    }

    /// This machine once a tick has looked at it, before any handler runs.
    /// A tick that finishes detaches the loop.
    pub open spec fn after_tick(self) -> Self {
        StateMachineView {
            context: self.context.after_tick(self.registered()),
            loop_attached: self.loop_attached && self.tick_action() != TickAction::Finish,
            ..self
        }
    }

    /// This machine once the handler of the current state has named `next`.
    pub open spec fn dispatched(self, next: String) -> Self {
        StateMachineView { context: self.context.dispatched(next), ..self }
    }
}

/// Once the loop observes a stop, the current state is the initial one
/// again, the loop ends and is detached, whatever the machine was doing,
/// unless it had faulted.
pub proof fn lemma_stop_then_tick_resets<S, H>(m: StateMachineView<S, H>)
    requires
        !m.faulted(),
    ensures
        m.controlled(LifeCycle::Stopped).tick_action() == TickAction::Finish,
        m.controlled(LifeCycle::Stopped).after_tick().context.current_state
            == m.context.initial_state,
        !m.controlled(LifeCycle::Stopped).after_tick().loop_attached,
{
}

/// Pausing a paused machine changes nothing; a machine that was not
/// faulted stays paused.
pub proof fn lemma_pause_twice<S, H>(m: StateMachineView<S, H>)
    ensures
        m.controlled(LifeCycle::Paused).controlled(LifeCycle::Paused) == m.controlled(
            LifeCycle::Paused,
        ),
        !m.faulted() ==> m.controlled(LifeCycle::Paused).controlled(
            LifeCycle::Paused,
        ).context.life_cycle == LifeCycle::Paused,
{
}

/// Pausing a running machine and resuming it gives back the same machine,
/// also where a tick passed in between: a tick of a paused machine runs no
/// handler and changes nothing. So dispatch goes on from the state it was
/// paused on, with nothing skipped or repeated.
pub proof fn lemma_pause_resume_round_trip<S, H>(m: StateMachineView<S, H>)
    requires
        m.context.life_cycle == LifeCycle::Running,
    ensures
        m.controlled(LifeCycle::Paused).tick_action() == TickAction::Wait,
        m.controlled(LifeCycle::Paused).after_tick() == m.controlled(LifeCycle::Paused),
        m.controlled(LifeCycle::Paused).controlled(LifeCycle::Running) == m,
        m.controlled(LifeCycle::Paused).after_tick().controlled(LifeCycle::Running) == m,
{
}

/// Where a handler of a running machine names a state that has no handler,
/// the next tick faults the machine and ends its loop, leaving the current
/// state as the handler named it.
pub proof fn lemma_unknown_state_faults<S, H>(m: StateMachineView<S, H>, next: String)
    requires
        m.context.life_cycle == LifeCycle::Running,
        !m.handlers.contains_key(next@),
    ensures
        m.dispatched(next).tick_action() == TickAction::Finish,
        m.dispatched(next).after_tick().context.life_cycle == LifeCycle::Faulted,
        m.dispatched(next).after_tick().context.current_state == next,
        !m.dispatched(next).after_tick().loop_attached,
{
}

/// A machine of user state `S` whose handlers are of type `H`.
pub struct StateMachine<S, H> {
    handlers: HandlerRegistry<H>,
    tick_rate: Duration,
    context: StateMachineContext,
    user_context: S,
    loop_attached: bool,
}

impl<S, H> View for StateMachine<S, H> {
    type V = StateMachineView<S, H>;

    closed spec fn view(&self) -> StateMachineView<S, H> {
        StateMachineView {
            handlers: self.handlers@,
            context: self.context,
            user_context: self.user_context,
            loop_attached: self.loop_attached,
        }
    }
}

impl<S, H> StateMachine<S, H> {
    /// The registry is well formed and the tick interval is the record's.
    pub closed spec fn wf(&self) -> bool {
        &&& self.handlers.wf()
        &&& self.tick_rate == self.context.tick_rate
    }

    /// A stopped machine, with no loop, that starts in `initial_state`.
    pub fn new(
        handlers: HandlerRegistry<H>,
        tick_rate: Duration,
        initial_state: String,
        user_context: S,
    ) -> (r: Self)
        requires
            handlers.wf(),
        ensures
            r.wf(),
            r@ == (StateMachineView {
                handlers: handlers@,
                context: StateMachineContext {
                    tick_rate,
                    current_state: initial_state,
                    initial_state,
                    life_cycle: LifeCycle::Stopped,
                },
                user_context,
                loop_attached: false,
            }),
    {
        StateMachine {
            handlers,
            tick_rate,
            context: StateMachineContext::new(tick_rate, initial_state),
            user_context,
            loop_attached: false,
        }
    }

    /// A snapshot of the execution record.
    pub fn get_context(&self) -> (r: StateMachineContext)
        ensures
            r == self@.context,
    {
        self.context.snapshot()
    }

    /// The shared user state.
    pub fn get_user_context(&self) -> (r: &S)
        ensures
            *r == self@.user_context,
    {
        &self.user_context
    }

    /// The tick interval.
    pub fn get_tick_rate(&self) -> (r: &Duration)
        requires
            self.wf(),
        ensures
            *r == self@.context.tick_rate,
    {
        &self.tick_rate
    }

    /// The registry of handlers.
    pub fn handlers(&self) -> (r: &HandlerRegistry<H>)
        requires
            self.wf(),
        ensures
            r.wf(),
            r@ == self@.handlers,
    {
        &self.handlers
    }

    /// Pauses the machine: ticks pass without running a handler. A faulted
    /// machine stays faulted.
    pub fn pause(&mut self)
        requires
            old(self).wf(),
        ensures
            final(self).wf(),
            final(self)@ == old(self)@.controlled(LifeCycle::Paused),
    {
        if self.context.life_cycle != LifeCycle::Faulted {
            self.context.life_cycle = LifeCycle::Paused;
        }
    }

    /// Resumes the machine: ticks run handlers again. A faulted machine
    /// stays faulted.
    pub fn resume(&mut self)
        requires
            old(self).wf(),
        ensures
            final(self).wf(),
            final(self)@ == old(self)@.controlled(LifeCycle::Running),
    {
        if self.context.life_cycle != LifeCycle::Faulted {
            self.context.life_cycle = LifeCycle::Running;
        }
    }

    /// Stops the machine: the next tick resets the current state to the
    /// initial one and ends the loop. A faulted machine stays faulted.
    pub fn stop(&mut self)
        requires
            old(self).wf(),
        ensures
            final(self).wf(),
            final(self)@ == old(self)@.controlled(LifeCycle::Stopped),
    {
        if self.context.life_cycle != LifeCycle::Faulted {
            self.context.life_cycle = LifeCycle::Stopped;
        }
    }

    /// Sets the machine running and attaches a loop to it. Returns whether
    /// the caller must start that loop: false when one is attached already.
    /// A faulted machine stays faulted, and no loop is started for it.
    pub fn run(&mut self) -> (start: bool)
        requires
            old(self).wf(),
        ensures
            final(self).wf(),
            final(self)@ == old(self)@.started(),
            !old(self)@.faulted() ==> final(self)@.context.life_cycle == LifeCycle::Running,
            start == (!old(self)@.loop_attached && !old(self)@.faulted()),
    {
        if self.context.life_cycle == LifeCycle::Faulted {
            return false;
        }
        self.context.life_cycle = LifeCycle::Running;
        let start = !self.loop_attached;
        self.loop_attached = true;
        start
    }

    /// Ends a loop that cannot go on, because a handler failed or the
    /// machine's lock was broken: the machine becomes faulted and no loop
    /// is attached.
    pub fn fail_loop(&mut self)
        requires
            old(self).wf(),
        ensures
            final(self).wf(),
            final(self)@ == old(self)@.loop_failed(),
    {
        self.context.life_cycle = LifeCycle::Faulted;
        self.loop_attached = false;
    }

    /// The first step of a tick: looks at the lifecycle and the current
    /// state and says what the loop does next. A stopped machine goes back
    /// to its initial state; a running one whose current state has no
    /// handler becomes faulted. Either ends the loop.
    pub fn begin_tick(&mut self) -> (r: TickAction)
        requires
            old(self).wf(),
        ensures
            final(self).wf(),
            final(self)@ == old(self)@.after_tick(),
            r == old(self)@.tick_action(),
            old(self)@.context.life_cycle == LifeCycle::Stopped ==> r == TickAction::Finish
                && final(self)@.context.current_state == old(self)@.context.initial_state,
            old(self)@.context.life_cycle == LifeCycle::Running && !old(self)@.registered() ==> r
                == TickAction::Finish && final(self)@.context.life_cycle == LifeCycle::Faulted,
    {
        match self.context.life_cycle {
            LifeCycle::Stopped => {
                self.context.current_state = self.context.initial_state.clone();
                self.loop_attached = false;
                TickAction::Finish
            },
            LifeCycle::Faulted => {
                self.loop_attached = false;
                TickAction::Finish
            },
            LifeCycle::Paused => TickAction::Wait,
            LifeCycle::Running => {
                if self.handlers.contains(&self.context.current_state) {
                    TickAction::Dispatch
                } else {
                    self.context.life_cycle = LifeCycle::Faulted;
                    self.loop_attached = false;
                    TickAction::Finish
                }
            },
        }
    }

    /// The handler of the current state.
    pub fn current_handler(&self) -> (r: &H)
        requires
            self.wf(),
            self@.registered(),
        ensures
            *r == self@.handlers[self@.context.current_state@],
    {
        self.handlers.get(&self.context.current_state).unwrap()
    }

    /// The last step of a tick that ran a handler: `next` becomes the
    /// current state.
    pub fn end_dispatch(&mut self, next: String)
        requires
            old(self).wf(),
        ensures
            final(self).wf(),
            final(self)@ == old(self)@.dispatched(next),
    {
        self.context.current_state = next;
    }
}

impl<S: Clone> StateMachine<S, StoredCallback<S>> {
    /// One whole tick of a machine whose handlers return at once. Where
    /// the tick dispatches, the handler of the current state runs on a
    /// snapshot of the record and a clone of the user state, and the name
    /// it returns becomes the current state.
    pub fn tick(&mut self) -> (r: TickAction)
        requires
            old(self).wf(),
        ensures
            final(self).wf(),
            r == old(self)@.tick_action(),
            r != TickAction::Dispatch ==> final(self)@ == old(self)@.after_tick(),
            r == TickAction::Dispatch ==> exists|u: S, next: String|
                cloned(old(self)@.user_context, u) && #[trigger] old(
                    self,
                )@.handlers[old(self)@.context.current_state@].answers(old(self)@.context, u, next)
                    && final(self)@ == old(self)@.dispatched(next),
    {
        let action = self.begin_tick();
        if action == TickAction::Dispatch {
            let snapshot = self.context.snapshot();
            let mut user = self.user_context.clone();
            let ghost u = user;
            let handler = self.current_handler();
            let next = handler.call(&snapshot, &mut user);
            self.end_dispatch(next);
            assert(cloned(old(self)@.user_context, u));
        }
        action
    }
}

} // verus!

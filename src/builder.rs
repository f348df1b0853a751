//! Construction of a machine: states and their handlers, the tick interval,
//! the initial state and the shared user state. `build` refuses an empty
//! registry and a missing initial state.
use std::time::Duration;
use vstd::prelude::*;

use crate::callback::{Callback, HandlerFn, IntoCallback, StoredCallback};
use crate::context::{LifeCycle, StateMachineContext};
use crate::machine::{StateMachine, StateMachineView};
use crate::registry::HandlerRegistry;
use crate::time::duration_of_millis;

verus! {

/// The tick interval of a machine whose builder was not given one.
pub const DEFAULT_TICK_MILLIS: u64 = 50;

/// Why a builder refused to build.
#[derive(Clone, Copy, Debug, PartialEq, Eq, Structural)]
pub enum ConfigError {
    /// No state was added.
    NoStates,
    /// No initial state was set.
    NoInitialState,
}

/// The abstract state of a builder.
pub struct StateMachineBuilderView<S, H> {
    pub handlers: Map<Seq<char>, H>,
    pub tick_rate: Duration,
    pub initial_state: Option<String>,
    pub user_context: S,
}

/// Gathers the parts of a machine whose handlers are of type `H`.
pub struct StateMachineBuilder<S, H> {
    handlers: HandlerRegistry<H>,
    tick_rate: Duration,
    initial_state: Option<String>,
    user_context: S,
}

impl<S, H> View for StateMachineBuilder<S, H> {
    type V = StateMachineBuilderView<S, H>;

    closed spec fn view(&self) -> StateMachineBuilderView<S, H> {
        StateMachineBuilderView {
            handlers: self.handlers@,
            tick_rate: self.tick_rate,
            initial_state: self.initial_state,
            user_context: self.user_context,
        }
    }
}

impl<S, H> StateMachineBuilder<S, H> {
    /// The registry being built is well formed.
    pub closed spec fn wf(&self) -> bool {
        self.handlers.wf()
    }

    /// A builder with no state, no initial state and the default tick
    /// interval, for handlers of any type.
    pub fn with_user_context(user_context: S) -> (r: Self)
        ensures
            r.wf(),
            r@ == (StateMachineBuilderView {
                handlers: Map::<Seq<char>, H>::empty(),
                tick_rate: duration_of_millis(DEFAULT_TICK_MILLIS),
                initial_state: None,
                user_context,
            }),
    {
        StateMachineBuilder {
            handlers: HandlerRegistry::new(),
            tick_rate: Duration::from_millis(DEFAULT_TICK_MILLIS),
            initial_state: None,
            user_context,
        }
    }

    /// Registers `handler` for the state `name`, in place of any handler
    /// that the name had.
    pub fn add_handler(self, name: String, handler: H) -> (r: Self)
        requires
            self.wf(),
        ensures
            r.wf(),
            r@ == (StateMachineBuilderView { handlers: self@.handlers.insert(name@, handler), ..self@ }),
            r@.handlers.contains_key(name@),
            r@.handlers[name@] == handler,
            r@.handlers.remove(name@) == self@.handlers.remove(name@),
    {
        let mut b = self;
        let ghost key = name@;
        b.handlers.insert(name, handler);
        assert(b@.handlers.remove(key) =~= self@.handlers.remove(key));
        b
    }

    /// Sets the tick interval.
    pub fn tick_rate(self, tick_rate: Duration) -> (r: Self)
        requires
            self.wf(),
        ensures
            r.wf(),
            r@ == (StateMachineBuilderView { tick_rate, ..self@ }),
    {
        let mut b = self;
        b.tick_rate = tick_rate;
        b
    }

    /// Sets the initial state.
    pub fn initial_state(self, initial_state: String) -> (r: Self)
        requires
            self.wf(),
        ensures
            r.wf(),
            r@ == (StateMachineBuilderView { initial_state: Some(initial_state), ..self@ }),
    {
        let mut b = self;
        b.initial_state = Some(initial_state);
        b
    }

    /// A stopped machine with the gathered parts, or the reason why there
    /// is none: no state was added, or no initial state was set.
    pub fn build(self) -> (r: Result<StateMachine<S, H>, ConfigError>)
        requires
            self.wf(),
        ensures
            self@.handlers.dom() == Set::<Seq<char>>::empty() ==> r == Err::<StateMachine<S, H>, ConfigError>(
                ConfigError::NoStates,
            ),
            self@.handlers.dom() != Set::<Seq<char>>::empty() && self@.initial_state is None ==> r == Err::<
                StateMachine<S, H>,
                ConfigError,
            >(ConfigError::NoInitialState),
            self@.handlers.dom() != Set::<Seq<char>>::empty() && self@.initial_state is Some ==> r is Ok && r->Ok_0.wf()
                && r->Ok_0@ == (StateMachineView {
                handlers: self@.handlers,
                context: StateMachineContext {
                    tick_rate: self@.tick_rate,
                    current_state: self@.initial_state->Some_0,
                    initial_state: self@.initial_state->Some_0,
                    life_cycle: LifeCycle::Stopped,
                },
                user_context: self@.user_context,
                loop_attached: false,
            }),
    {
        if self.handlers.is_empty() {
            return Err(ConfigError::NoStates);
        }
        match self.initial_state {
            Some(initial_state) => Ok(
                StateMachine::new(self.handlers, self.tick_rate, initial_state, self.user_context),
            ),
            None => Err(ConfigError::NoInitialState),
        }
    }
}

impl<S> StateMachineBuilder<S, StoredCallback<S>> {
    /// A builder of a machine whose handlers return at once, with no state,
    /// no initial state and the default tick interval.
    pub fn new(user_context: S) -> (r: Self)
        ensures
            r.wf(),
            r@ == (StateMachineBuilderView {
                handlers: Map::<Seq<char>, StoredCallback<S>>::empty(),
                tick_rate: duration_of_millis(DEFAULT_TICK_MILLIS),
                initial_state: None,
                user_context,
            }),
    {
        Self::with_user_context(user_context)
    }

    /// Registers the function `f` for the state `name`, in place of any
    /// handler that the name had. `f` takes one or two parameters that are
    /// extracted at each call, and must accept every value of them. The
    /// handler stored under `name` returns what `f` returns on them.
    pub fn add_state<I, F>(self, name: String, f: F) -> (r: Self) where
        I: Send + Sync + 'static,
        F: IntoCallback<I, S> + Send + Sync + 'static,

        requires
            self.wf(),
            f.accepts_all(),
        ensures
            r.wf(),
            r@.handlers.contains_key(name@),
            forall|context: StateMachineContext, user_context: S, next: String|
                #[trigger] r@.handlers[name@].answers(context, user_context, next) == f.may_return(
                    context,
                    user_context,
                    next,
                ),
            r@.handlers.remove(name@) == self@.handlers.remove(name@),
            r@.tick_rate == self@.tick_rate,
            r@.initial_state == self@.initial_state,
            r@.user_context == self@.user_context,
    {
        let h = StoredCallback::from_fn(f);
        let ghost key = name@;
        let r = self.add_handler(name, h);
        assert(r@.handlers[key] == h);
        r
    }
}

} // verus!

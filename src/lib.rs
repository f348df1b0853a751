//! A tick-driven executor for named states.
//!
//! Each state has a handler; on every tick of a running machine the handler
//! of the current state runs and names the state that comes next. The machine
//! can be paused, resumed and stopped from outside while its loop runs.
//!
//! This crate holds the part that decides: the shared record of the
//! execution, the registry of handlers, the injection of a handler's
//! parameters, the construction checks, the lifecycle controller and what
//! each tick of the loop does. Sleeping between ticks, sharing the machine
//! across tasks and awaiting handlers is left to the host.
pub mod builder;
pub mod callback;
pub mod context;
pub mod extractor;
pub mod machine;
pub mod registry;
pub mod time;

pub use builder::{ConfigError, StateMachineBuilder};
pub use callback::{Callback, IntoCallback, StoredCallback, Wrapper};
pub use context::{LifeCycle, StateMachineContext};
pub use machine::{StateMachine, TickAction};
pub use registry::HandlerRegistry;

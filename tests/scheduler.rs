use std::time::Duration;

use autostatemachine::callback::{Callback, IntoCallback};
use autostatemachine::extractor::{FromContext, State, TickRate};
use autostatemachine::{
    ConfigError, HandlerRegistry, LifeCycle, StateMachine, StateMachineBuilder,
    StateMachineContext, StoredCallback, TickAction,
};

const TICK_MS: u64 = 50;

fn to_b(_: StateMachineContext) -> String {
    "b".to_string()
}

fn to_a(_: StateMachineContext) -> String {
    "a".to_string()
}

fn alternating() -> StateMachine<(), StoredCallback<()>> {
    StateMachineBuilder::new(())
        .add_state("a".to_string(), to_b)
        .add_state("b".to_string(), to_a)
        .tick_rate(Duration::from_millis(TICK_MS))
        .initial_state("a".to_string())
        .build()
        .unwrap()
}

/// Runs the ticks that a loop started at time 0, which sleeps one interval
/// before each tick, performs between `from_ms` and `to_ms`.
fn advance<S: Clone>(m: &mut StateMachine<S, StoredCallback<S>>, from_ms: u64, to_ms: u64) {
    for _ in (from_ms / TICK_MS)..(to_ms / TICK_MS) {
        m.tick();
    }
}

fn current(m: &StateMachine<(), StoredCallback<()>>) -> String {
    m.get_context().current_state
}

#[test]
fn scenario_alternating_states() {
    let mut m = alternating();
    assert!(m.run());
    advance(&mut m, 0, 10);
    assert_eq!(current(&m), "a");
    advance(&mut m, 10, 60);
    assert_eq!(current(&m), "b");
    advance(&mut m, 60, 111);
    assert_eq!(current(&m), "a");
}

#[test]
fn scenario_pause_holds_state() {
    let mut m = alternating();
    assert!(m.run());
    advance(&mut m, 0, 10);
    assert_eq!(current(&m), "a");
    m.pause();
    advance(&mut m, 10, 70);
    assert_eq!(current(&m), "a");
    m.resume();
    advance(&mut m, 70, 130);
    assert_eq!(current(&m), "b");
}

#[test]
fn scenario_no_states_is_refused() {
    let built = StateMachineBuilder::<(), StoredCallback<()>>::new(())
        .initial_state("a".to_string())
        .build();
    assert_eq!(built.err(), Some(ConfigError::NoStates));
}

#[test]
fn scenario_unknown_state_faults() {
    let mut m = StateMachineBuilder::new(())
        .add_state("a".to_string(), |_: StateMachineContext| "missing".to_string())
        .initial_state("a".to_string())
        .build()
        .unwrap();
    assert!(m.run());
    assert_eq!(m.tick(), TickAction::Dispatch);
    assert_eq!(m.get_context().current_state, "missing");
    assert_eq!(m.tick(), TickAction::Finish);
    let context = m.get_context();
    assert_eq!(context.life_cycle, LifeCycle::Faulted);
    assert_eq!(context.current_state, "missing");
    assert_eq!(m.tick(), TickAction::Finish);
}

#[test]
fn run_sets_running() {
    let mut m = alternating();
    assert_eq!(m.get_context().life_cycle, LifeCycle::Stopped);
    m.run();
    assert_eq!(m.get_context().life_cycle, LifeCycle::Running);
    m.pause();
    m.run();
    assert_eq!(m.get_context().life_cycle, LifeCycle::Running);
}

#[test]
fn run_starts_at_most_one_loop() {
    let mut m = alternating();
    assert!(m.run());
    assert!(!m.run());
    m.stop();
    assert_eq!(m.tick(), TickAction::Finish);
    assert!(m.run());
}

#[test]
fn stop_resets_to_initial_state() {
    let mut m = alternating();
    m.run();
    m.tick();
    assert_eq!(current(&m), "b");
    m.stop();
    assert_eq!(current(&m), "b");
    assert_eq!(m.tick(), TickAction::Finish);
    let context = m.get_context();
    assert_eq!(context.current_state, "a");
    assert_eq!(context.life_cycle, LifeCycle::Stopped);
}

#[test]
fn pause_twice_stays_paused() {
    let mut m = alternating();
    m.run();
    m.pause();
    m.pause();
    assert_eq!(m.get_context().life_cycle, LifeCycle::Paused);
    assert_eq!(m.tick(), TickAction::Wait);
    assert_eq!(current(&m), "a");
}

#[test]
fn pause_resume_keeps_dispatch_order() {
    let mut m = alternating();
    m.run();
    m.tick();
    assert_eq!(current(&m), "b");
    m.pause();
    assert_eq!(m.tick(), TickAction::Wait);
    m.resume();
    assert_eq!(m.tick(), TickAction::Dispatch);
    assert_eq!(current(&m), "a");
    assert_eq!(m.tick(), TickAction::Dispatch);
    assert_eq!(current(&m), "b");
}

#[test]
fn stopped_machine_ticks_finish() {
    let mut m = alternating();
    assert_eq!(m.tick(), TickAction::Finish);
    assert_eq!(current(&m), "a");
}

#[test]
fn steps_of_a_tick() {
    let mut m = alternating();
    m.run();
    assert_eq!(m.begin_tick(), TickAction::Dispatch);
    let handler = m.current_handler();
    let next = handler.call(&m.get_context(), &mut ());
    assert_eq!(next, "b");
    m.end_dispatch(next);
    assert_eq!(current(&m), "b");
    m.pause();
    assert_eq!(m.begin_tick(), TickAction::Wait);
}

#[test]
fn handler_sees_tick_rate_and_user_state() {
    let mut m = StateMachineBuilder::new(7u32)
        .add_state(
            "start".to_string(),
            |TickRate(r): TickRate, State(n): State<u32>| format!("{}-{}", r.as_millis(), n),
        )
        .tick_rate(Duration::from_millis(20))
        .initial_state("start".to_string())
        .build()
        .unwrap();
    m.run();
    m.tick();
    assert_eq!(m.get_context().current_state, "20-7");
    assert_eq!(m.get_user_context(), &7u32);
}

#[test]
fn handler_sees_current_context() {
    let mut m = StateMachineBuilder::new(())
        .add_state("one".to_string(), |c: StateMachineContext| {
            format!("{}:{:?}", c.current_state, c.life_cycle)
        })
        .initial_state("one".to_string())
        .build()
        .unwrap();
    m.run();
    m.tick();
    assert_eq!(m.get_context().current_state, "one:Running");
}

#[test]
fn extractors_take_from_context() {
    let context = StateMachineContext::new(Duration::from_millis(30), "s".to_string());
    let TickRate(r) = <TickRate as FromContext<u8>>::from_context(&context, &4u8);
    assert_eq!(r, Duration::from_millis(30));
    let State(n) = <State<u8> as FromContext<u8>>::from_context(&context, &4u8);
    assert_eq!(n, 4u8);
    let copy = <StateMachineContext as FromContext<u8>>::from_context(&context, &4u8);
    assert_eq!(copy.current_state, "s");
    assert_eq!(copy.initial_state, "s");
    assert_eq!(copy.tick_rate, Duration::from_millis(30));
    assert_eq!(copy.life_cycle, LifeCycle::Stopped);
}

#[test]
fn wrapper_calls_function_with_extracted_values() {
    let f = |c: StateMachineContext, TickRate(r): TickRate| format!("{}/{}", c.current_state, r.as_millis());
    let callback = IntoCallback::<(StateMachineContext, TickRate), ()>::into_callback(f);
    let context = StateMachineContext::new(Duration::from_millis(15), "here".to_string());
    assert_eq!(callback.call(&context, &mut ()), "here/15");
}

#[test]
fn registry_insert_get_replace() {
    let mut registry: HandlerRegistry<u32> = HandlerRegistry::new();
    assert!(registry.is_empty());
    registry.insert("a".to_string(), 1);
    registry.insert("b".to_string(), 2);
    assert_eq!(registry.len(), 2);
    assert!(registry.contains(&"a".to_string()));
    assert!(!registry.contains(&"c".to_string()));
    assert_eq!(registry.get(&"b".to_string()), Some(&2));
    registry.insert("a".to_string(), 3);
    assert_eq!(registry.len(), 2);
    assert_eq!(registry.get(&"a".to_string()), Some(&3));
    assert_eq!(registry.get(&"c".to_string()), None);
}

#[test]
fn snapshot_copies_every_field() {
    let mut context = StateMachineContext::new(Duration::from_millis(8), "i".to_string());
    context.current_state = "j".to_string();
    context.life_cycle = LifeCycle::Paused;
    let copy = context.snapshot();
    assert_eq!(copy.current_state, "j");
    assert_eq!(copy.initial_state, "i");
    assert_eq!(copy.tick_rate, Duration::from_millis(8));
    assert_eq!(copy.life_cycle, LifeCycle::Paused);
}

#[test]
fn fault_is_terminal() {
    let mut m = StateMachineBuilder::new(())
        .add_state("a".to_string(), |_: StateMachineContext| "missing".to_string())
        .initial_state("a".to_string())
        .build()
        .unwrap();
    m.run();
    m.tick();
    assert_eq!(m.tick(), TickAction::Finish);
    m.pause();
    assert_eq!(m.get_context().life_cycle, LifeCycle::Faulted);
    m.resume();
    assert_eq!(m.get_context().life_cycle, LifeCycle::Faulted);
    m.stop();
    assert_eq!(m.get_context().life_cycle, LifeCycle::Faulted);
    assert!(!m.run());
    assert_eq!(m.get_context().life_cycle, LifeCycle::Faulted);
    assert_eq!(m.get_context().current_state, "missing");
}

#[test]
fn failed_loop_faults_and_detaches() {
    let mut m = alternating();
    assert!(m.run());
    m.fail_loop();
    assert_eq!(m.get_context().life_cycle, LifeCycle::Faulted);
    assert!(!m.run());
    assert_eq!(m.tick(), TickAction::Finish);
}

#[test]
fn stored_callback_returns_what_function_returns() {
    let stored: StoredCallback<u8> =
        StoredCallback::from_fn(|State(n): State<u8>| format!("n{}", n));
    let context = StateMachineContext::new(Duration::from_millis(5), "s".to_string());
    let mut user = 3u8;
    assert_eq!(stored.call(&context, &mut user), "n3");
    assert_eq!(user, 3u8);
}

#[test]
fn wrapper_new_calls_function() {
    let w = autostatemachine::Wrapper::new(|TickRate(r): TickRate| format!("{}", r.as_millis()));
    let context = StateMachineContext::new(Duration::from_millis(40), "s".to_string());
    assert_eq!(Callback::<()>::call(&w, &context, &mut ()), "40");
}

use std::time::Duration;

use autostatemachine::extractor::TickRate;
use autostatemachine::{ConfigError, StateMachineBuilder, StateMachineContext};

fn test1(_: StateMachineContext) -> String {
    println!("test1");
    "test2".to_string()
}

fn test2(_: StateMachineContext, TickRate(r): TickRate) -> String {
    println!("TickRate: {:?}", r);
    "test".to_string()
}

#[test]
fn builder_test_basic() {
    let client = StateMachineBuilder::new(())
        .add_state("test".to_string(), test1)
        .add_state("test2".to_string(), test2)
        .initial_state("test".to_string())
        .build()
        .unwrap();
    assert_eq!(client.get_context().current_state, "test");
    assert_eq!(client.get_tick_rate(), &Duration::from_millis(50));
    assert_eq!(client.get_user_context(), &());
    assert_eq!(client.handlers().len(), 2);
}

#[test]
fn builder_test_no_states() {
    let client = StateMachineBuilder::new(()).build();
    assert_eq!(client.err(), Some(ConfigError::NoStates));
}

#[test]
fn builder_test_no_initial_state() {
    let client = StateMachineBuilder::new(())
        .add_state("test".to_string(), test1)
        .add_state("test2".to_string(), test2)
        .build();
    assert_eq!(client.err(), Some(ConfigError::NoInitialState));
}

#[test]
fn builder_same_name_replaces_handler() {
    let mut client = StateMachineBuilder::new(())
        .add_state("a".to_string(), |_: StateMachineContext| "first".to_string())
        .add_state("a".to_string(), |_: StateMachineContext| "second".to_string())
        .initial_state("a".to_string())
        .build()
        .unwrap();
    assert_eq!(client.handlers().len(), 1);
    client.run();
    client.tick();
    assert_eq!(client.get_context().current_state, "second");
}

#[test]
fn builder_sets_tick_rate_and_initial_state() {
    let client = StateMachineBuilder::new(5u32)
        .add_state("x".to_string(), |_: StateMachineContext| "x".to_string())
        .tick_rate(Duration::from_millis(120))
        .initial_state("x".to_string())
        .build()
        .unwrap();
    let context = client.get_context();
    assert_eq!(context.tick_rate, Duration::from_millis(120));
    assert_eq!(client.get_tick_rate(), &Duration::from_millis(120));
    assert_eq!(context.initial_state, "x");
    assert_eq!(context.current_state, "x");
    assert_eq!(context.life_cycle, autostatemachine::LifeCycle::Stopped);
    assert_eq!(client.get_user_context(), &5u32);
}

#[test]
fn builder_initial_state_need_not_be_registered() {
    let client = StateMachineBuilder::new(())
        .add_state("x".to_string(), |_: StateMachineContext| "x".to_string())
        .initial_state("elsewhere".to_string())
        .build();
    assert!(client.is_ok());
}

use std::rc::Rc;

use breakpoints::Breakpoint;
use breakpoints::Engine;
use breakpoints::IdAllocator;

#[test]
fn trigger_without_action_returns_none() {
    let mut ids = IdAllocator::new();
    let mut engine = Engine::new();
    let mut b: Breakpoint<u32> = Breakpoint::without_command(&mut ids, 0x1000, false);
    b.enable(&mut engine);
    let r = b.trigger(&mut engine);
    assert!(r.is_none());
}

#[test]
fn trigger_with_action_returns_the_action() {
    let mut ids = IdAllocator::new();
    let mut engine = Engine::new();
    let mut b: Breakpoint<u32> = Breakpoint::with_command(&mut ids, 0x2000, 7u32, false);
    b.enable(&mut engine);
    let r = b.trigger(&mut engine);
    let action: Rc<u32> = r.expect("an attached action");
    assert_eq!(*action, 7u32);
    let again = b.trigger(&mut engine).expect("the breakpoint keeps its own handle");
    assert_eq!(*again, 7u32);
    assert!(Rc::ptr_eq(&action, &again));
}

#[test]
fn enable_twice_single_registration() {
    let mut ids = IdAllocator::new();
    let mut engine = Engine::new();
    let mut b: Breakpoint<u32> = Breakpoint::without_command(&mut ids, 0x3000, false);
    b.enable(&mut engine);
    b.enable(&mut engine);
    assert!(b.is_installed());
    assert!(engine.has_breakpoint(0x3000));
    assert_eq!(engine.armed_count(), 1);
}

#[test]
fn disable_before_enable_is_noop() {
    let mut ids = IdAllocator::new();
    let mut engine = Engine::new();
    let mut b: Breakpoint<u32> = Breakpoint::without_command(&mut ids, 0x3000, false);
    b.disable(&mut engine);
    assert!(!b.is_installed());
    assert_eq!(engine.armed_count(), 0);
}

#[test]
fn auto_disable_on_trigger() {
    let mut ids = IdAllocator::new();
    let mut engine = Engine::new();
    let mut b: Breakpoint<u32> = Breakpoint::without_command(&mut ids, 0x5000, true);
    b.enable(&mut engine);
    assert!(b.is_installed());
    let r = b.trigger(&mut engine);
    assert!(r.is_none());
    assert!(!b.is_installed());
    assert!(!engine.has_breakpoint(0x5000));
    b.enable(&mut engine);
    assert!(b.is_installed());
    assert!(engine.has_breakpoint(0x5000));
}

#[test]
fn trigger_keeps_installed_without_auto_disable() {
    let mut ids = IdAllocator::new();
    let mut engine = Engine::new();
    let mut b: Breakpoint<u32> = Breakpoint::without_command(&mut ids, 0x6000, false);
    b.enable(&mut engine);
    b.trigger(&mut engine);
    assert!(b.is_installed());
    assert!(engine.has_breakpoint(0x6000));

    let mut idle: Breakpoint<u32> = Breakpoint::without_command(&mut ids, 0x6001, false);
    idle.trigger(&mut engine);
    assert!(!idle.is_installed());
    assert!(!engine.has_breakpoint(0x6001));
}

#[test]
fn armed_breakpoint_scenario() {
    let mut ids = IdAllocator::new();
    let mut engine = Engine::new();
    let mut b: Breakpoint<u32> = Breakpoint::without_command(&mut ids, 0x4010, false);
    b.enable(&mut engine);
    assert!(engine.has_breakpoint(0x4010));
    assert_eq!(b.addr(), 0x4010);
    let r = b.trigger(&mut engine);
    assert!(r.is_none());
    assert!(b.is_installed());
    b.disable(&mut engine);
    assert!(!engine.has_breakpoint(0x4010));
    assert!(!b.is_installed());
}

#[test]
fn engine_set_remove_idempotent() {
    let mut engine = Engine::new();
    engine.set_breakpoint(5);
    engine.set_breakpoint(5);
    assert_eq!(engine.armed_count(), 1);
    assert!(engine.has_breakpoint(5));
    engine.remove_breakpoint(5);
    engine.remove_breakpoint(5);
    assert_eq!(engine.armed_count(), 0);
    assert!(!engine.has_breakpoint(5));
}

use std::cell::Cell;

use console_ctrl::CtrlEvent;
use console_ctrl::HandleError;
use console_ctrl::HandleOutcome;
use console_ctrl::Registry;
use console_ctrl::hook_result;
use console_ctrl::outcome_flag;

type Callback<'a> = Box<dyn Fn(CtrlEvent) -> HandleOutcome + 'a>;

#[test]
fn outcome_flag_bridges_decision() {
    assert!(outcome_flag(HandleOutcome::Handled));
    assert!(!outcome_flag(HandleOutcome::Passthrough));
}

#[test]
fn hook_result_reports_platform_outcome() {
    assert_eq!(hook_result(1), Ok(()));
    assert_eq!(hook_result(-1), Ok(()));
    assert_eq!(hook_result(0), Err(HandleError::Os));
}

#[test]
fn install_then_dispatch_invokes_once() {
    let count: Cell<u32> = Cell::new(0);
    let seen: Cell<Option<CtrlEvent>> = Cell::new(None);
    let mut registry: Registry<Callback> = Registry::new();
    let installed = registry.install(
        Box::new(|sig| {
            count.set(count.get() + 1);
            seen.set(Some(sig));
            match sig {
                CtrlEvent::C => HandleOutcome::Handled,
                _ => HandleOutcome::Passthrough,
            }
        }),
        true,
    );
    assert_eq!(installed, Ok(()));
    assert!(registry.dispatch(0));
    assert_eq!(count.get(), 1);
    assert_eq!(seen.get(), Some(CtrlEvent::C));
}

#[test]
fn dispatch_flag_matches_callback_outcome() {
    let mut registry: Registry<Callback> = Registry::new();
    assert_eq!(registry.install(Box::new(|_| HandleOutcome::Handled), true), Ok(()));
    assert!(registry.dispatch(1));
    assert!(registry.dispatch(6));
    assert_eq!(registry.install(Box::new(|_| HandleOutcome::Passthrough), true), Ok(()));
    assert!(!registry.dispatch(1));
    assert!(!registry.dispatch(6));
}

#[test]
fn dispatch_unrecognized_never_invokes() {
    let count: Cell<u32> = Cell::new(0);
    let mut registry: Registry<Callback> = Registry::new();
    let installed = registry.install(
        Box::new(|_| {
            count.set(count.get() + 1);
            HandleOutcome::Handled
        }),
        true,
    );
    assert_eq!(installed, Ok(()));
    assert!(!registry.dispatch(3));
    assert!(!registry.dispatch(4));
    assert!(!registry.dispatch(7));
    assert!(!registry.dispatch(u32::MAX));
    assert_eq!(count.get(), 0);
}

#[test]
fn dispatch_before_install_is_passthrough() {
    let registry: Registry<fn(CtrlEvent) -> HandleOutcome> = Registry::new();
    assert!(!registry.dispatch(0));
    assert!(!registry.dispatch(1));
    assert!(!registry.dispatch(2));
    assert!(!registry.dispatch(5));
    assert!(!registry.dispatch(6));
}

#[test]
fn last_install_wins() {
    let first_count: Cell<u32> = Cell::new(0);
    let second_count: Cell<u32> = Cell::new(0);
    let mut registry: Registry<Callback> = Registry::new();
    let first = registry.install(
        Box::new(|_| {
            first_count.set(first_count.get() + 1);
            HandleOutcome::Handled
        }),
        true,
    );
    assert_eq!(first, Ok(()));
    let second = registry.install(
        Box::new(|_| {
            second_count.set(second_count.get() + 1);
            HandleOutcome::Passthrough
        }),
        true,
    );
    assert_eq!(second, Ok(()));
    assert!(!registry.dispatch(0));
    assert_eq!(first_count.get(), 0);
    assert_eq!(second_count.get(), 1);
}

#[test]
fn reset_retains_stored_callback() {
    // Pins the committed policy: a reset removes the platform hook but
    // keeps the callback stored, so a dispatch driven directly, past
    // the removed hook, still invokes it.
    let count: Cell<u32> = Cell::new(0);
    let mut registry: Registry<Callback> = Registry::new();
    let installed = registry.install(
        Box::new(|_| {
            count.set(count.get() + 1);
            HandleOutcome::Handled
        }),
        true,
    );
    assert_eq!(installed, Ok(()));
    assert_eq!(registry.reset(true), Ok(()));
    assert!(registry.dispatch(0));
    assert_eq!(count.get(), 1);
}

#[test]
fn clear_removes_stored_callback() {
    let count: Cell<u32> = Cell::new(0);
    let mut registry: Registry<Callback> = Registry::new();
    let installed = registry.install(
        Box::new(|_| {
            count.set(count.get() + 1);
            HandleOutcome::Handled
        }),
        true,
    );
    assert_eq!(installed, Ok(()));
    registry.clear();
    assert!(!registry.dispatch(0));
    assert_eq!(count.get(), 0);
}

#[test]
fn install_surfaces_hook_failure_but_stores() {
    let mut registry: Registry<Callback> = Registry::new();
    let installed = registry.install(Box::new(|_| HandleOutcome::Handled), false);
    assert_eq!(installed, Err(HandleError::Os));
    // The callback is stored even when the platform call failed.
    assert!(registry.dispatch(0));
}

#[test]
fn reset_surfaces_hook_failure() {
    let mut registry: Registry<Callback> = Registry::new();
    assert_eq!(registry.install(Box::new(|_| HandleOutcome::Handled), true), Ok(()));
    assert_eq!(registry.reset(false), Err(HandleError::Os));
    assert!(registry.dispatch(0));
}

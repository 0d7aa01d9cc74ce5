use std::ops::Add;
use std::str::FromStr;
use std::time::Duration;

use canvas_backend::{EditError, EditsState};
use ic_cdk::export::Principal;

fn secs(s: u64) -> u64 {
    Duration::from_secs(s).as_nanos() as u64
}

fn principal_a() -> Principal {
    Principal::from_str("ohfen-bx4r6-bgfvo-lelhh-rdpuc-wgv5u-a2odj-nzoaf-x3laa-e3hhb-qae").unwrap()
}

fn principal_b() -> Principal {
    Principal::from_slice(&[1, 2, 3, 4])
}

#[test]
fn test_can_edit() {
    let mut edit_state = EditsState::new();
    let principal =
        Principal::from_str("ohfen-bx4r6-bgfvo-lelhh-rdpuc-wgv5u-a2odj-nzoaf-x3laa-e3hhb-qae")
            .unwrap();
    let now = Duration::from_secs(0);
    assert!(edit_state
        .register_edit(principal, now.add(Duration::from_secs(5)).as_nanos() as u64)
        .is_ok());
    assert!(edit_state
        .register_edit(principal, now.add(Duration::from_secs(15)).as_nanos() as u64)
        .is_err());
    assert!(edit_state
        .register_edit(principal, now.add(Duration::from_secs(36)).as_nanos() as u64)
        .is_ok());
}

#[test]
fn cooldown_refuses_at_29_and_admits_at_31_seconds() {
    let mut gate = EditsState::new();
    let p = principal_a();
    let t0 = secs(1000);
    assert_eq!(gate.register_edit(p, t0), Ok(()));
    assert_eq!(gate.register_edit(p, t0 + secs(29)), Err(EditError::Cooldown));
    assert_eq!(gate.register_edit(p, t0 + secs(31)), Ok(()));
}

#[test]
fn cooldown_boundary_is_strict() {
    let mut gate = EditsState::new();
    let p = principal_a();
    assert_eq!(gate.register_edit(p, 0), Ok(()));
    assert_eq!(gate.register_edit(p, secs(30)), Err(EditError::Cooldown));
    assert_eq!(gate.register_edit(p, secs(30) + 1), Ok(()));
}

#[test]
fn refused_edit_keeps_last_time() {
    let mut gate = EditsState::new();
    let p = principal_a();
    assert_eq!(gate.register_edit(p, secs(100)), Ok(()));
    assert_eq!(gate.register_edit(p, secs(120)), Err(EditError::Cooldown));
    // measured from the edit at 100 s, not the refused one at 120 s
    assert_eq!(gate.register_edit(p, secs(131)), Ok(()));
}

#[test]
fn earlier_time_than_last_edit_is_refused() {
    let mut gate = EditsState::new();
    let p = principal_a();
    assert_eq!(gate.register_edit(p, secs(100)), Ok(()));
    assert_eq!(gate.register_edit(p, secs(10)), Err(EditError::Cooldown));
}

#[test]
fn actors_cool_down_independently() {
    let mut gate = EditsState::new();
    let a = principal_a();
    let b = principal_b();
    assert_eq!(gate.register_edit(a, secs(10)), Ok(()));
    assert_eq!(gate.register_edit(b, secs(10)), Ok(()));
    assert_eq!(gate.register_edit(a, secs(20)), Err(EditError::Cooldown));
    assert_eq!(gate.register_edit(b, secs(20)), Err(EditError::Cooldown));
    assert_eq!(gate.register_edit(a, secs(41)), Ok(()));
    assert_eq!(gate.register_edit(b, secs(45)), Ok(()));
}

#[test]
fn start_succeeds_once_and_keeps_time() {
    let mut gate = EditsState::new();
    assert_eq!(gate.started_at(), None);
    assert_eq!(gate.start_at(77), Ok(()));
    assert_eq!(gate.started_at(), Some(77));
    assert_eq!(gate.start_at(99), Err(EditError::AlreadyStarted));
    assert_eq!(gate.started_at(), Some(77));
}

#[test]
fn default_gate_is_empty() {
    let mut gate = EditsState::default();
    assert_eq!(gate.started_at(), None);
    assert_eq!(gate.register_edit(principal_b(), 0), Ok(()));
}

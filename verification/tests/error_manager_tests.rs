//! Tests for the fault capture: the flag is sticky, set by any failed
//! operation, and observable without blocking.

use phoenix::error_manager::{ErrorManager, HydraError};

#[test]
fn flag_starts_clear() {
    let em = ErrorManager::new();
    assert!(!em.has_error());
}

#[test]
fn failed_operation_sets_sticky_flag() {
    let mut em = ErrorManager::new();
    let r = em.run(|| Err(HydraError::Transport));
    assert_eq!(r, Err(HydraError::Transport));
    assert!(em.has_error());
    // A later success clears nothing.
    let ok = em.run(|| Ok(()));
    assert_eq!(ok, Ok(()));
    assert!(em.has_error());
}

#[test]
fn successful_operations_leave_flag_clear() {
    let mut em = ErrorManager::new();
    for _ in 0..3 {
        em.run(|| Ok(())).unwrap();
    }
    assert!(!em.has_error());
}

#[test]
fn operation_result_is_handed_back() {
    let mut em = ErrorManager::new();
    assert_eq!(em.run(|| Err(HydraError::Decode)), Err(HydraError::Decode));
    assert_eq!(em.run(|| Err(HydraError::Calculation)), Err(HydraError::Calculation));
    assert!(em.has_error());
}

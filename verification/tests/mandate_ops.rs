use agent_registry::errors::ErrorCode;
use agent_registry::mandate::amend_mandate;
use agent_registry::mandate::check_context_drift;
use agent_registry::mandate::create_mandate;
use agent_registry::mandate::enforce_expiry;
use agent_registry::mandate::execute_mandate;
use agent_registry::mandate::revalidate_mandate;
use agent_registry::mandate::revoke_mandate;
use agent_registry::mandate::MandateAccount;
use agent_registry::mandate::MandateStatus;
use agent_registry::mandate::MANDATE_TYPE_CART;
use agent_registry::mandate::MANDATE_TYPE_INTENT;

const USER: [u8; 32] = [5u8; 32];
const STRANGER: [u8; 32] = [6u8; 32];
const AGENT_HASH: [u8; 32] = [1u8; 32];
const CONTEXT: [u8; 32] = [2u8; 32];
const OTHER_CONTEXT: [u8; 32] = [3u8; 32];

const T0: i64 = 10_000;

fn mandate(expires_in: i64, reval_in: i64, max_exec: u64) -> MandateAccount {
    create_mandate(
        "m-1",
        AGENT_HASH,
        USER,
        MANDATE_TYPE_INTENT,
        CONTEXT,
        expires_in,
        reval_in,
        max_exec,
        254,
        T0,
    )
    .0
}

#[test]
fn new_mandate_starts_active_with_zero_count() {
    let (m, event) = create_mandate(
        "m-1",
        AGENT_HASH,
        USER,
        MANDATE_TYPE_CART,
        CONTEXT,
        3_600,
        600,
        5,
        254,
        T0,
    );
    assert_eq!(m.status, MandateStatus::Active);
    assert_eq!(m.execution_count, 0);
    assert_eq!(m.max_executions, 5);
    assert_eq!(m.created_at, T0);
    assert_eq!(m.expires_at, T0 + 3_600);
    assert_eq!(m.revalidation_threshold, T0 + 600);
    assert_eq!(m.context_hash, CONTEXT);
    assert_eq!(m.mandate_type, MANDATE_TYPE_CART);
    assert_eq!(event.expires_at, T0 + 3_600);
    assert_eq!(event.user_authority, USER);
    assert_eq!(event.mandate_state_root, m.mandate_state_root);
}

#[test]
fn zero_ttl_means_no_expiry_and_no_revalidation() {
    let m = mandate(0, 0, 0);
    assert_eq!(m.expires_at, 0);
    assert_eq!(m.revalidation_threshold, 0);
}

#[test]
fn execute_succeeds_before_expiry_and_fails_after() {
    let mut m = mandate(3_600, 0, 0);
    let event = execute_mandate(&mut m, T0 + 1_000).unwrap();
    assert_eq!(event.execution_count, 1);
    assert_eq!(m.execution_count, 1);
    assert_eq!(m.status, MandateStatus::Active);

    let mut late = mandate(3_600, 0, 0);
    let r = execute_mandate(&mut late, T0 + 3_601);
    assert_eq!(r.unwrap_err(), ErrorCode::TemporalViolation);
    assert_eq!(late.execution_count, 0);
    assert_eq!(late.status, MandateStatus::Active);
}

#[test]
fn execute_at_exact_expiry_fails() {
    let mut m = mandate(3_600, 0, 0);
    let r = execute_mandate(&mut m, T0 + 3_600);
    assert_eq!(r.unwrap_err(), ErrorCode::TemporalViolation);
}

#[test]
fn third_execution_flips_to_executed_and_fourth_fails() {
    let mut m = mandate(0, 0, 3);
    execute_mandate(&mut m, T0 + 1).unwrap();
    assert_eq!(m.status, MandateStatus::Active);
    execute_mandate(&mut m, T0 + 2).unwrap();
    assert_eq!(m.status, MandateStatus::Active);
    execute_mandate(&mut m, T0 + 3).unwrap();
    assert_eq!(m.status, MandateStatus::Executed);
    assert_eq!(m.execution_count, 3);
    let r = execute_mandate(&mut m, T0 + 4);
    assert_eq!(r.unwrap_err(), ErrorCode::InvalidState);
    assert_eq!(m.execution_count, 3);
}

#[test]
fn drift_check_with_matching_context_changes_nothing() {
    let mut m = mandate(0, 600, 0);
    let before = m;
    let (drifted, event) = check_context_drift(&mut m, CONTEXT, T0 + 100);
    assert!(!drifted);
    assert!(event.is_none());
    assert_eq!(m, before);
}

#[test]
fn drift_check_with_mismatch_forces_zombie() {
    let mut m = mandate(0, 0, 0);
    let (drifted, event) = check_context_drift(&mut m, OTHER_CONTEXT, T0 + 100);
    assert!(drifted);
    let event = event.unwrap();
    assert_eq!(event.old_context, CONTEXT);
    assert_eq!(event.new_context, OTHER_CONTEXT);
    assert_eq!(m.status, MandateStatus::Zombie);
    assert_eq!(m.updated_at, T0 + 100);
}

#[test]
fn drift_check_past_threshold_forces_zombie_even_when_context_matches() {
    let mut m = mandate(0, 600, 0);
    let (drifted, _) = check_context_drift(&mut m, CONTEXT, T0 + 600);
    assert!(drifted);
    assert_eq!(m.status, MandateStatus::Zombie);
}

#[test]
fn revalidate_restores_active_and_preserves_window_length() {
    let mut m = mandate(0, 600, 0);
    assert!(check_context_drift(&mut m, CONTEXT, T0 + 600).0);
    let t1 = T0 + 700;
    let event = revalidate_mandate(&mut m, USER, OTHER_CONTEXT, t1).unwrap();
    assert_eq!(m.status, MandateStatus::Active);
    assert_eq!(m.context_hash, OTHER_CONTEXT);
    assert_eq!(m.revalidation_threshold, t1 + 600);
    assert_eq!(event.new_context, OTHER_CONTEXT);
    assert_eq!(event.revalidated_by, USER);
}

#[test]
fn revalidate_keeps_disabled_threshold_disabled() {
    let mut m = mandate(0, 0, 0);
    assert!(check_context_drift(&mut m, OTHER_CONTEXT, T0 + 100).0);
    revalidate_mandate(&mut m, USER, OTHER_CONTEXT, T0 + 200).unwrap();
    assert_eq!(m.revalidation_threshold, 0);
    assert_eq!(m.status, MandateStatus::Active);
}

#[test]
fn revalidate_on_non_zombie_fails_with_invalid_state() {
    let mut m = mandate(0, 600, 0);
    let r = revalidate_mandate(&mut m, USER, OTHER_CONTEXT, T0 + 100);
    assert_eq!(r.unwrap_err(), ErrorCode::InvalidState);
    assert_eq!(m.status, MandateStatus::Active);
}

#[test]
fn revalidate_by_stranger_fails() {
    let mut m = mandate(0, 600, 0);
    assert!(check_context_drift(&mut m, OTHER_CONTEXT, T0 + 100).0);
    let r = revalidate_mandate(&mut m, STRANGER, OTHER_CONTEXT, T0 + 200);
    assert_eq!(r.unwrap_err(), ErrorCode::AuthorizationFailure);
    assert_eq!(m.status, MandateStatus::Zombie);
}

#[test]
fn revoke_overrides_any_state_but_not_twice() {
    let mut m = mandate(0, 0, 1);
    execute_mandate(&mut m, T0 + 1).unwrap();
    assert_eq!(m.status, MandateStatus::Executed);
    let event = revoke_mandate(&mut m, USER, String::from("compromised"), T0 + 2).unwrap();
    assert_eq!(m.status, MandateStatus::Revoked);
    assert_eq!(event.reason, "compromised");
    assert_eq!(event.revoked_by, USER);
    let r = revoke_mandate(&mut m, USER, String::from("again"), T0 + 3);
    assert_eq!(r.unwrap_err(), ErrorCode::AlreadyInTerminalState);
}

#[test]
fn revoke_by_stranger_fails() {
    let mut m = mandate(0, 0, 0);
    let r = revoke_mandate(&mut m, STRANGER, String::from("no"), T0 + 1);
    assert_eq!(r.unwrap_err(), ErrorCode::AuthorizationFailure);
    assert_eq!(m.status, MandateStatus::Active);
}

#[test]
fn amend_requires_active() {
    let mut m = mandate(0, 0, 0);
    let new_root = [9u8; 32];
    let event = amend_mandate(&mut m, USER, new_root, T0 + 1).unwrap();
    assert_eq!(m.status, MandateStatus::Amended);
    assert_eq!(event.old_mandate, m.mandate_state_root);
    assert_eq!(event.new_mandate, new_root);
    let mut m2 = mandate(0, 0, 0);
    revoke_mandate(&mut m2, USER, String::from("r"), T0 + 1).unwrap();
    let r = amend_mandate(&mut m2, USER, new_root, T0 + 2);
    assert_eq!(r.unwrap_err(), ErrorCode::InvalidState);
}

#[test]
fn enforce_expiry_needs_a_passed_enabled_deadline() {
    let mut never = mandate(0, 0, 0);
    assert_eq!(
        enforce_expiry(&mut never, T0 + 1).unwrap_err(),
        ErrorCode::TemporalViolation
    );
    let mut early = mandate(3_600, 0, 0);
    assert_eq!(
        enforce_expiry(&mut early, T0 + 3_599).unwrap_err(),
        ErrorCode::TemporalViolation
    );
    assert_eq!(early.status, MandateStatus::Active);
    enforce_expiry(&mut early, T0 + 3_600).unwrap();
    assert_eq!(early.status, MandateStatus::Expired);
}

#[test]
fn enforce_expiry_overrides_zombie() {
    let mut m = mandate(3_600, 0, 0);
    assert!(check_context_drift(&mut m, OTHER_CONTEXT, T0 + 10).0);
    assert_eq!(m.status, MandateStatus::Zombie);
    enforce_expiry(&mut m, T0 + 4_000).unwrap();
    assert_eq!(m.status, MandateStatus::Expired);
}

#[test]
fn execute_after_revalidation_at_cap_fails_with_capacity_exceeded() {
    // The only way back to Active with the cap already reached: execute to
    // the cap, drift to Zombie, revalidate.
    let mut m = mandate(0, 0, 1);
    execute_mandate(&mut m, T0 + 1).unwrap();
    assert_eq!(m.status, MandateStatus::Executed);
    assert!(check_context_drift(&mut m, OTHER_CONTEXT, T0 + 2).0);
    revalidate_mandate(&mut m, USER, OTHER_CONTEXT, T0 + 3).unwrap();
    assert_eq!(m.status, MandateStatus::Active);
    let r = execute_mandate(&mut m, T0 + 4);
    assert_eq!(r.unwrap_err(), ErrorCode::CapacityExceeded);
    assert_eq!(m.execution_count, 1);
}

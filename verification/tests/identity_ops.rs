use agent_registry::errors::ErrorCode;
use agent_registry::identity::add_delegation;
use agent_registry::identity::add_validation;
use agent_registry::identity::deregister_agent;
use agent_registry::identity::register_agent;
use agent_registry::identity::remove_delegation;
use agent_registry::identity::remove_validation;
use agent_registry::identity::update_agent;
use agent_registry::identity::update_did;
use agent_registry::identity::update_status;
use agent_registry::identity::AgentIdentity;
use agent_registry::identity::STATUS_ACTIVE;
use agent_registry::identity::STATUS_DEREGISTERED;
use agent_registry::identity::STATUS_INACTIVE;

const OWNER: [u8; 32] = [7u8; 32];
const STRANGER: [u8; 32] = [9u8; 32];

fn key(tag: u8) -> [u8; 32] {
    let mut k = [0u8; 32];
    k[0] = tag;
    k
}

fn fresh_agent() -> AgentIdentity {
    register_agent("abc", OWNER, 255, 42, 1_000).0
}

/// SHA-256 of "abc", a standard test vector.
const ABC_DIGEST: [u8; 32] = [
    0xba, 0x78, 0x16, 0xbf, 0x8f, 0x01, 0xcf, 0xea, 0x41, 0x41, 0x40, 0xde, 0x5d, 0xae, 0x22,
    0x23, 0xb0, 0x03, 0x61, 0xa3, 0x96, 0x17, 0x7a, 0x9c, 0xb4, 0x10, 0xff, 0x61, 0xf2, 0x00,
    0x15, 0xad,
];

#[test]
fn new_agent_starts_active_with_zero_counters() {
    let (agent, event) = register_agent("abc", OWNER, 255, 42, 1_000);
    assert_eq!(agent.status, STATUS_ACTIVE);
    assert_eq!(agent.delegation_count, 0);
    assert_eq!(agent.validation_count, 0);
    assert_eq!(agent.did_hash, None);
    assert_eq!(agent.owner, OWNER);
    assert_eq!(agent.ledger_ref, 42);
    assert_eq!(agent.bump, 255);
    assert_eq!(agent.registered_at, 1_000);
    assert_eq!(agent.updated_at, 1_000);
    assert_eq!(agent.state_root, [0u8; 32]);
    assert_eq!(event.owner, OWNER);
    assert_eq!(event.timestamp, 1_000);
    assert_eq!(event.agent_id_hash, agent.agent_id_hash);
}

#[test]
fn agent_id_hash_is_sha256_of_id() {
    let (agent, _) = register_agent("abc", OWNER, 0, 0, 0);
    assert_eq!(agent.agent_id_hash, ABC_DIGEST);
}

#[test]
fn ninth_delegation_fails_with_capacity_exceeded() {
    let mut agent = fresh_agent();
    for i in 0..8u8 {
        add_delegation(&mut agent, OWNER, key(i + 1), 1_001).unwrap();
    }
    assert_eq!(agent.delegation_count, 8);
    let before = agent;
    let r = add_delegation(&mut agent, OWNER, key(100), 1_002);
    assert_eq!(r.unwrap_err(), ErrorCode::CapacityExceeded);
    assert_eq!(agent, before);
}

#[test]
fn fifth_validation_fails_with_capacity_exceeded() {
    let mut agent = fresh_agent();
    for i in 0..4u8 {
        add_validation(&mut agent, OWNER, key(i + 1), 1_001).unwrap();
    }
    assert_eq!(agent.validation_count, 4);
    let before = agent;
    let r = add_validation(&mut agent, OWNER, key(100), 1_002);
    assert_eq!(r.unwrap_err(), ErrorCode::CapacityExceeded);
    assert_eq!(agent, before);
}

#[test]
fn duplicate_delegation_fails_with_invalid_state() {
    let mut agent = fresh_agent();
    add_delegation(&mut agent, OWNER, key(1), 1_001).unwrap();
    let before = agent;
    let r = add_delegation(&mut agent, OWNER, key(1), 1_002);
    assert_eq!(r.unwrap_err(), ErrorCode::InvalidState);
    assert_eq!(agent, before);
}

#[test]
fn remove_delegation_left_shifts_later_entries() {
    let mut agent = fresh_agent();
    add_delegation(&mut agent, OWNER, key(1), 1_001).unwrap();
    add_delegation(&mut agent, OWNER, key(2), 1_002).unwrap();
    add_delegation(&mut agent, OWNER, key(3), 1_003).unwrap();
    let event = remove_delegation(&mut agent, OWNER, key(2), 1_004).unwrap();
    assert_eq!(agent.delegation_count, 2);
    assert_eq!(agent.active_delegations[0], key(1));
    assert_eq!(agent.active_delegations[1], key(3));
    assert_eq!(event.sas_attestation, key(2));
    assert_eq!(event.reason, "");
}

#[test]
fn remove_missing_delegation_fails_with_not_found() {
    let mut agent = fresh_agent();
    add_delegation(&mut agent, OWNER, key(1), 1_001).unwrap();
    let before = agent;
    let r = remove_delegation(&mut agent, OWNER, key(2), 1_002);
    assert_eq!(r.unwrap_err(), ErrorCode::NotFound);
    assert_eq!(agent, before);
}

#[test]
fn remove_validation_left_shifts_later_entries() {
    let mut agent = fresh_agent();
    add_validation(&mut agent, OWNER, key(1), 1_001).unwrap();
    add_validation(&mut agent, OWNER, key(2), 1_002).unwrap();
    add_validation(&mut agent, OWNER, key(3), 1_003).unwrap();
    remove_validation(&mut agent, OWNER, key(1), 1_004).unwrap();
    assert_eq!(agent.validation_count, 2);
    assert_eq!(agent.validation_attestations[0], key(2));
    assert_eq!(agent.validation_attestations[1], key(3));
    let r = remove_validation(&mut agent, OWNER, key(1), 1_005);
    assert_eq!(r.unwrap_err(), ErrorCode::NotFound);
}

#[test]
fn non_owner_is_refused() {
    let mut agent = fresh_agent();
    let before = agent;
    assert_eq!(
        update_agent(&mut agent, STRANGER, 1_001).unwrap_err(),
        ErrorCode::AuthorizationFailure
    );
    assert_eq!(
        add_delegation(&mut agent, STRANGER, key(1), 1_001).unwrap_err(),
        ErrorCode::AuthorizationFailure
    );
    assert_eq!(
        remove_delegation(&mut agent, STRANGER, key(1), 1_001).unwrap_err(),
        ErrorCode::AuthorizationFailure
    );
    assert_eq!(
        update_did(&mut agent, STRANGER, "did:web:example", 1_001).unwrap_err(),
        ErrorCode::AuthorizationFailure
    );
    assert_eq!(
        update_status(&mut agent, STRANGER, STATUS_INACTIVE, 1_001).unwrap_err(),
        ErrorCode::AuthorizationFailure
    );
    assert_eq!(
        deregister_agent(&mut agent, STRANGER, 1_001).unwrap_err(),
        ErrorCode::AuthorizationFailure
    );
    assert_eq!(agent, before);
}

#[test]
fn update_agent_refreshes_timestamp() {
    let mut agent = fresh_agent();
    let event = update_agent(&mut agent, OWNER, 2_000).unwrap();
    assert_eq!(agent.updated_at, 2_000);
    assert_eq!(agent.registered_at, 1_000);
    assert_eq!(event.timestamp, 2_000);
}

#[test]
fn update_did_stores_hash_of_did() {
    let mut agent = fresh_agent();
    let event = update_did(&mut agent, OWNER, "abc", 2_000).unwrap();
    assert_eq!(agent.did_hash, Some(ABC_DIGEST));
    assert_eq!(event.did_hash, ABC_DIGEST);
    assert_eq!(agent.updated_at, 2_000);
}

#[test]
fn update_status_accepts_any_value() {
    let mut agent = fresh_agent();
    update_status(&mut agent, OWNER, STATUS_INACTIVE, 2_000).unwrap();
    assert_eq!(agent.status, STATUS_INACTIVE);
    update_status(&mut agent, OWNER, 200, 2_001).unwrap();
    assert_eq!(agent.status, 200);
}

#[test]
fn deregister_twice_fails_with_already_in_terminal_state() {
    let mut agent = fresh_agent();
    deregister_agent(&mut agent, OWNER, 2_000).unwrap();
    assert_eq!(agent.status, STATUS_DEREGISTERED);
    let r = deregister_agent(&mut agent, OWNER, 2_001);
    assert_eq!(r.unwrap_err(), ErrorCode::AlreadyInTerminalState);
    assert_eq!(agent.status, STATUS_DEREGISTERED);
    assert_eq!(agent.updated_at, 2_000);
}

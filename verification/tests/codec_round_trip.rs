use agent_registry::codec::deserialize_agent;
use agent_registry::codec::deserialize_feedback;
use agent_registry::codec::deserialize_mandate;
use agent_registry::codec::serialize_agent;
use agent_registry::codec::serialize_feedback;
use agent_registry::codec::serialize_mandate;
use agent_registry::codec::AGENT_IDENTITY_SPACE;
use agent_registry::codec::FEEDBACK_AUTHORIZATION_SPACE;
use agent_registry::codec::MANDATE_ACCOUNT_SPACE;
use agent_registry::identity::add_delegation;
use agent_registry::identity::add_validation;
use agent_registry::identity::register_agent;
use agent_registry::identity::update_did;
use agent_registry::identity::AgentIdentity;
use agent_registry::mandate::create_mandate;
use agent_registry::mandate::execute_mandate;
use agent_registry::mandate::MANDATE_TYPE_INTENT;
use agent_registry::reputation::authorize_feedback;
use agent_registry::reputation::submit_feedback;

const OWNER: [u8; 32] = [7u8; 32];

fn key(tag: u8) -> [u8; 32] {
    let mut k = [0u8; 32];
    k[0] = tag;
    k
}

fn sample_agent() -> AgentIdentity {
    let (mut agent, _) = register_agent("abc", OWNER, 255, 42, 1_000);
    add_delegation(&mut agent, OWNER, key(1), 1_001).unwrap();
    add_delegation(&mut agent, OWNER, key(2), 1_002).unwrap();
    add_validation(&mut agent, OWNER, key(3), 1_003).unwrap();
    update_did(&mut agent, OWNER, "did:web:example", 1_004).unwrap();
    agent
}

#[test]
fn agent_round_trips_at_549_bytes() {
    let agent = sample_agent();
    let bytes = serialize_agent(&agent);
    assert_eq!(bytes.len(), 549);
    assert_eq!(bytes.len(), AGENT_IDENTITY_SPACE);
    let back = deserialize_agent(&bytes).unwrap();
    assert_eq!(back, agent);
}

#[test]
fn fresh_agent_round_trips_with_no_did() {
    let (agent, _) = register_agent("plain", OWNER, 0, 0, 5);
    let bytes = serialize_agent(&agent);
    assert_eq!(bytes.len(), 549);
    assert_eq!(deserialize_agent(&bytes).unwrap(), agent);
}

#[test]
fn mandate_round_trips_at_187_bytes() {
    let (mut m, _) = create_mandate(
        "m-1",
        key(1),
        OWNER,
        MANDATE_TYPE_INTENT,
        key(2),
        3_600,
        600,
        5,
        254,
        10_000,
    );
    execute_mandate(&mut m, 10_001).unwrap();
    let bytes = serialize_mandate(&m);
    assert_eq!(bytes.len(), 187);
    assert_eq!(bytes.len(), MANDATE_ACCOUNT_SPACE);
    let back = deserialize_mandate(&bytes).unwrap();
    assert_eq!(back, m);
}

#[test]
fn feedback_round_trips_at_93_bytes() {
    let (mut f, _) = authorize_feedback(key(1), key(4), 10, 3_600, 253, 50_000);
    submit_feedback(&mut f, key(4), key(9), 50_001).unwrap();
    let bytes = serialize_feedback(&f);
    assert_eq!(bytes.len(), 93);
    assert_eq!(bytes.len(), FEEDBACK_AUTHORIZATION_SPACE);
    let back = deserialize_feedback(&bytes).unwrap();
    assert_eq!(back, f);
}

#[test]
fn wrong_length_is_rejected() {
    let agent = sample_agent();
    let mut bytes = serialize_agent(&agent);
    bytes.pop();
    assert!(deserialize_agent(&bytes).is_none());
    assert!(deserialize_mandate(&bytes).is_none());
    assert!(deserialize_feedback(&bytes).is_none());
}

#[test]
fn wrong_discriminator_is_rejected() {
    let agent = sample_agent();
    let mut bytes = serialize_agent(&agent);
    bytes[0] = bytes[0].wrapping_add(1);
    assert!(deserialize_agent(&bytes).is_none());
}

#[test]
fn duplicate_set_entries_are_rejected() {
    let mut agent = sample_agent();
    agent.active_delegations[1] = agent.active_delegations[0];
    let bytes = serialize_agent(&agent);
    assert!(deserialize_agent(&bytes).is_none());
}

#[test]
fn bad_option_tag_is_rejected() {
    let agent = sample_agent();
    let mut bytes = serialize_agent(&agent);
    bytes[130] = 2;
    assert!(deserialize_agent(&bytes).is_none());
}

#[test]
fn overful_count_is_rejected() {
    let agent = sample_agent();
    let mut bytes = serialize_agent(&agent);
    bytes[163] = 9;
    assert!(deserialize_agent(&bytes).is_none());
}

#[test]
fn invalid_mandate_status_byte_is_rejected() {
    let (m, _) = create_mandate(
        "m-1",
        key(1),
        OWNER,
        MANDATE_TYPE_INTENT,
        key(2),
        0,
        0,
        0,
        254,
        10_000,
    );
    let mut bytes = serialize_mandate(&m);
    bytes[74] = 6;
    assert!(deserialize_mandate(&bytes).is_none());
}

#[test]
fn feedback_counter_over_cap_is_rejected() {
    let (f, _) = authorize_feedback(key(1), key(4), 1, 3_600, 253, 50_000);
    let mut bytes = serialize_feedback(&f);
    // submissions_used little-endian at offset 75: set it above the cap of 1.
    bytes[75] = 2;
    assert!(deserialize_feedback(&bytes).is_none());
}

#[test]
fn mandate_count_over_cap_is_rejected() {
    let (mut m, _) = create_mandate(
        "m-1",
        key(1),
        OWNER,
        MANDATE_TYPE_INTENT,
        key(2),
        0,
        0,
        3,
        254,
        10_000,
    );
    m.execution_count = 5;
    let bytes = serialize_mandate(&m);
    assert!(deserialize_mandate(&bytes).is_none());
}

#[test]
fn removing_first_and_last_entries_keeps_order() {
    let mut agent = register_agent("edges", OWNER, 0, 0, 10).0;
    for i in 1..=4u8 {
        add_delegation(&mut agent, OWNER, key(i), 11).unwrap();
    }
    agent_registry::identity::remove_delegation(&mut agent, OWNER, key(1), 12).unwrap();
    assert_eq!(agent.delegation_count, 3);
    assert_eq!(agent.active_delegations[0], key(2));
    assert_eq!(agent.active_delegations[1], key(3));
    assert_eq!(agent.active_delegations[2], key(4));
    agent_registry::identity::remove_delegation(&mut agent, OWNER, key(4), 13).unwrap();
    assert_eq!(agent.delegation_count, 2);
    assert_eq!(agent.active_delegations[0], key(2));
    assert_eq!(agent.active_delegations[1], key(3));
    let bytes = serialize_agent(&agent);
    assert_eq!(deserialize_agent(&bytes).unwrap(), agent);
}

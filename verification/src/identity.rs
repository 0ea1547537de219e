//! The agent identity registry: one record per agent, owned by its creating
//! authority, carrying a status flag and two bounded, ordered attestation
//! sets. Records are never deleted; deregistration is a terminal tombstone.

use vstd::prelude::*;

use crate::bytes32_eq;
use crate::errors::ErrorCode;
use crate::hashing::digest_of;
use crate::hashing::hash_str;

verus! {

broadcast use vstd::array::group_array_axioms;

pub const MAX_DELEGATIONS: usize = 8;

pub const MAX_VALIDATIONS: usize = 4;

pub const STATUS_PENDING: u8 = 0;

pub const STATUS_ACTIVE: u8 = 1;

pub const STATUS_INACTIVE: u8 = 2;

pub const STATUS_DEREGISTERED: u8 = 3;

/// No value occurs twice in the sequence.
pub open spec fn distinct_seq(s: Seq<[u8; 32]>) -> bool {
    forall|i: int, j: int| 0 <= i < j < s.len() ==> s[i] != s[j]
}

/// An agent identity record.
///
/// The two attestation arrays are fixed-capacity, ordered sets: the first
/// `*_count` slots are the members, in insertion order; slots beyond the
/// count carry no meaning.
#[derive(Clone, Copy, Debug, PartialEq, Eq)]
pub struct AgentIdentity {
    /// Address derivation seed byte handed in by the host ledger.
    pub bump: u8,
    /// The authority that created the record; the only one allowed to
    /// mutate it.
    pub owner: [u8; 32],
    /// One-way hash of the caller-chosen agent identifier string; doubles
    /// as the record's address seed.
    pub agent_id_hash: [u8; 32],
    /// Opaque pointer to externally verified metadata.
    pub state_root: [u8; 32],
    /// Host ledger transaction reference at registration.
    pub ledger_ref: u64,
    /// Status flag: pending, active, inactive or deregistered. No
    /// transition graph is enforced; any byte is accepted.
    pub status: u8,
    /// Host clock at registration.
    pub registered_at: i64,
    /// Host clock at the last successful mutation.
    pub updated_at: i64,
    /// Hash of the agent's decentralized identifier, once one is set.
    pub did_hash: Option<[u8; 32]>,
    /// Number of populated slots in `active_delegations`.
    pub delegation_count: u8,
    /// Delegation attestation identifiers, members in the first
    /// `delegation_count` slots.
    pub active_delegations: [[u8; 32]; 8],
    /// Number of populated slots in `validation_attestations`.
    pub validation_count: u8,
    /// Validation attestation identifiers, members in the first
    /// `validation_count` slots.
    pub validation_attestations: [[u8; 32]; 4],
}

impl AgentIdentity {
    /// The delegation set: the populated prefix, in insertion order.
    pub open spec fn delegations(&self) -> Seq<[u8; 32]> {
        self.active_delegations@.subrange(0, self.delegation_count as int)
    }

    /// The validation set: the populated prefix, in insertion order.
    pub open spec fn validations(&self) -> Seq<[u8; 32]> {
        self.validation_attestations@.subrange(0, self.validation_count as int)
    }

    /// Record invariant: counts within capacity and no duplicate members.
    pub open spec fn wf(&self) -> bool {
        &&& self.delegation_count as int <= 8
        &&& self.validation_count as int <= 4
        &&& distinct_seq(self.delegations())
        &&& distinct_seq(self.validations())
    }

    /// Whether the delegation set has a free slot.
    pub fn can_add_delegation(&self) -> (r: bool)
        ensures
            r == (self.delegation_count < 8),
    {
        (self.delegation_count as usize) < MAX_DELEGATIONS
    }

    /// Whether the validation set has a free slot.
    pub fn can_add_validation(&self) -> (r: bool)
        ensures
            r == (self.validation_count < 4),
    {
        (self.validation_count as usize) < MAX_VALIDATIONS
    }

    /// Appends `attestation` to the delegation set. Fails with
    /// `CapacityExceeded` at the cap of 8 and with `InvalidState` when the
    /// identifier is already a member; either failure leaves the record
    /// unchanged.
    pub fn add_delegation(&mut self, attestation: [u8; 32]) -> (r: Result<(), ErrorCode>)
        requires
            old(self).wf(),
        ensures
            final(self).wf(),
            old(self).delegation_count >= 8 ==> r == Err::<(), ErrorCode>(
                ErrorCode::CapacityExceeded,
            ) && *final(self) == *old(self),
            old(self).delegation_count < 8 && old(self).delegations().contains(attestation)
                ==> r == Err::<(), ErrorCode>(ErrorCode::InvalidState) && *final(self) == *old(
                self,
            ),
            old(self).delegation_count < 8 && !old(self).delegations().contains(attestation) ==> {
                &&& r is Ok
                &&& final(self).delegations() == old(self).delegations().push(attestation)
                &&& final(self).delegation_count == old(self).delegation_count + 1
                &&& *final(self) == (AgentIdentity {
                    delegation_count: final(self).delegation_count,
                    active_delegations: final(self).active_delegations,
                    ..*old(self)
                })
            },
    {
        if !self.can_add_delegation() {
            return Err(ErrorCode::CapacityExceeded);
        }
        if contains_prefix_8(&self.active_delegations, self.delegation_count, &attestation) {
            return Err(ErrorCode::InvalidState);
        }
        let idx = self.delegation_count as usize;
        self.active_delegations[idx] = attestation;
        self.delegation_count = self.delegation_count + 1;
        proof {
            assert(self.delegations() =~= old(self).delegations().push(attestation));
        }
        Ok(())
    }

    /// Removes `attestation` from the delegation set, shifting the entries
    /// after it one slot left. Fails with `NotFound`, changing nothing,
    /// when the identifier is not a member.
    pub fn remove_delegation(&mut self, attestation: [u8; 32]) -> (r: Result<(), ErrorCode>)
        requires
            old(self).wf(),
        ensures
            final(self).wf(),
            !old(self).delegations().contains(attestation) ==> r == Err::<(), ErrorCode>(
                ErrorCode::NotFound,
            ) && *final(self) == *old(self),
            old(self).delegations().contains(attestation) ==> {
                &&& r is Ok
                &&& final(self).delegation_count == old(self).delegation_count - 1
                &&& exists|i: int|
                    0 <= i < old(self).delegations().len() && old(self).delegations()[i]
                        == attestation && final(self).delegations() == old(
                        self,
                    ).delegations().subrange(0, i) + old(self).delegations().subrange(
                        i + 1,
                        old(self).delegations().len() as int,
                    )
                &&& *final(self) == (AgentIdentity {
                    delegation_count: final(self).delegation_count,
                    active_delegations: final(self).active_delegations,
                    ..*old(self)
                })
            },
    {
        let n = self.delegation_count as usize;
        match position_prefix_8(&self.active_delegations, self.delegation_count, &attestation) {
            None => Err(ErrorCode::NotFound),
            Some(idx) => {
                let ghost gi = idx as int;
                let ghost olds = self.delegations();
                let mut i = idx;
                while i + 1 < n
                    invariant
                        0 <= gi <= i < n <= 8,
                        n == self.delegation_count,
                        self.delegation_count as int <= 8,
                        olds == old(self).delegations(),
                        forall|k: int|
                            0 <= k < gi ==> self.active_delegations@[k] == olds[k],
                        forall|k: int|
                            gi <= k < i ==> self.active_delegations@[k] == olds[k + 1],
                        forall|k: int|
                            i <= k < n ==> self.active_delegations@[k] == olds[k],
                        self.active_delegations@.len() == 8,
                        *self == (AgentIdentity {
                            active_delegations: self.active_delegations,
                            ..*old(self)
                        }),
                    decreases n - i,
                {
                    self.active_delegations[i] = self.active_delegations[i + 1];
                    i = i + 1;
                }
                self.delegation_count = self.delegation_count - 1;
                self.active_delegations[self.delegation_count as usize] = [0u8; 32];
                proof {
                    assert(self.delegations() =~= olds.subrange(0, gi) + olds.subrange(
                        gi + 1,
                        olds.len() as int,
                    ));
                    assert(0 <= gi < olds.len() && olds[gi] == attestation && self.delegations()
                        == olds.subrange(0, gi) + olds.subrange(gi + 1, olds.len() as int));
                    assert(olds.contains(attestation));
                }
                Ok(())
            },
        }
    }

    /// Appends `attestation` to the validation set. Fails with
    /// `CapacityExceeded` at the cap of 4 and with `InvalidState` when the
    /// identifier is already a member; either failure leaves the record
    /// unchanged.
    pub fn add_validation(&mut self, attestation: [u8; 32]) -> (r: Result<(), ErrorCode>)
        requires
            old(self).wf(),
        ensures
            final(self).wf(),
            old(self).validation_count >= 4 ==> r == Err::<(), ErrorCode>(
                ErrorCode::CapacityExceeded,
            ) && *final(self) == *old(self),
            old(self).validation_count < 4 && old(self).validations().contains(attestation)
                ==> r == Err::<(), ErrorCode>(ErrorCode::InvalidState) && *final(self) == *old(
                self,
            ),
            old(self).validation_count < 4 && !old(self).validations().contains(attestation) ==> {
                &&& r is Ok
                &&& final(self).validations() == old(self).validations().push(attestation)
                &&& final(self).validation_count == old(self).validation_count + 1
                &&& *final(self) == (AgentIdentity {
                    validation_count: final(self).validation_count,
                    validation_attestations: final(self).validation_attestations,
                    ..*old(self)
                })
            },
    {
        if !self.can_add_validation() {
            return Err(ErrorCode::CapacityExceeded);
        }
        if contains_prefix_4(&self.validation_attestations, self.validation_count, &attestation) {
            return Err(ErrorCode::InvalidState);
        }
        let idx = self.validation_count as usize;
        self.validation_attestations[idx] = attestation;
        self.validation_count = self.validation_count + 1;
        proof {
            assert(self.validations() =~= old(self).validations().push(attestation));
        }
        Ok(())
    }

    /// Removes `attestation` from the validation set, shifting the entries
    /// after it one slot left. Fails with `NotFound`, changing nothing,
    /// when the identifier is not a member.
    pub fn remove_validation(&mut self, attestation: [u8; 32]) -> (r: Result<(), ErrorCode>)
        requires
            old(self).wf(),
        ensures
            final(self).wf(),
            !old(self).validations().contains(attestation) ==> r == Err::<(), ErrorCode>(
                ErrorCode::NotFound,
            ) && *final(self) == *old(self),
            old(self).validations().contains(attestation) ==> {
                &&& r is Ok
                &&& final(self).validation_count == old(self).validation_count - 1
                &&& exists|i: int|
                    0 <= i < old(self).validations().len() && old(self).validations()[i]
                        == attestation && final(self).validations() == old(
                        self,
                    ).validations().subrange(0, i) + old(self).validations().subrange(
                        i + 1,
                        old(self).validations().len() as int,
                    )
                &&& *final(self) == (AgentIdentity {
                    validation_count: final(self).validation_count,
                    validation_attestations: final(self).validation_attestations,
                    ..*old(self)
                })
            },
    {
        let n = self.validation_count as usize;
        match position_prefix_4(&self.validation_attestations, self.validation_count, &attestation)
        {
            None => Err(ErrorCode::NotFound),
            Some(idx) => {
                let ghost gi = idx as int;
                let ghost olds = self.validations();
                let mut i = idx;
                while i + 1 < n
                    invariant
                        0 <= gi <= i < n <= 4,
                        n == self.validation_count,
                        self.validation_count as int <= 4,
                        olds == old(self).validations(),
                        forall|k: int|
                            0 <= k < gi ==> self.validation_attestations@[k] == olds[k],
                        forall|k: int|
                            gi <= k < i ==> self.validation_attestations@[k] == olds[k + 1],
                        forall|k: int|
                            i <= k < n ==> self.validation_attestations@[k] == olds[k],
                        self.validation_attestations@.len() == 4,
                        *self == (AgentIdentity {
                            validation_attestations: self.validation_attestations,
                            ..*old(self)
                        }),
                    decreases n - i,
                {
                    self.validation_attestations[i] = self.validation_attestations[i + 1];
                    i = i + 1;
                }
                self.validation_count = self.validation_count - 1;
                self.validation_attestations[self.validation_count as usize] = [0u8; 32];
                proof {
                    assert(self.validations() =~= olds.subrange(0, gi) + olds.subrange(
                        gi + 1,
                        olds.len() as int,
                    ));
                    assert(0 <= gi < olds.len() && olds[gi] == attestation && self.validations()
                        == olds.subrange(0, gi) + olds.subrange(gi + 1, olds.len() as int));
                    assert(olds.contains(attestation));
                }
                Ok(())
            },
        }
    }
}

/// Notification emitted when an agent is registered.
#[derive(Debug)]
pub struct AgentRegistered {
    pub agent_id_hash: [u8; 32],
    pub owner: [u8; 32],
    pub state_root: [u8; 32],
    pub timestamp: i64,
}

/// Notification emitted when an agent's metadata is refreshed.
#[derive(Debug)]
pub struct AgentUpdated {
    pub agent_id_hash: [u8; 32],
    pub new_state_root: [u8; 32],
    pub timestamp: i64,
}

/// Notification emitted when a delegation attestation is added.
#[derive(Debug)]
pub struct DelegationAdded {
    pub agent_id_hash: [u8; 32],
    pub sas_attestation: [u8; 32],
    pub timestamp: i64,
}

/// Notification emitted when a delegation attestation is removed.
#[derive(Debug)]
pub struct DelegationRemoved {
    pub agent_id_hash: [u8; 32],
    pub sas_attestation: [u8; 32],
    pub reason: String,
    pub timestamp: i64,
}

/// Notification emitted when a validation attestation is added.
#[derive(Debug)]
pub struct ValidationAdded {
    pub agent_id_hash: [u8; 32],
    pub sas_attestation: [u8; 32],
    pub timestamp: i64,
}

/// Notification emitted when a validation attestation is removed.
#[derive(Debug)]
pub struct ValidationRemoved {
    pub agent_id_hash: [u8; 32],
    pub sas_attestation: [u8; 32],
    pub timestamp: i64,
}

/// Notification emitted when an agent's DID hash changes.
#[derive(Debug)]
pub struct DIDUpdated {
    pub agent_id_hash: [u8; 32],
    pub did_hash: [u8; 32],
    pub timestamp: i64,
}

/// Creates a fresh agent identity record for `owner` under the hash of the
/// caller-chosen `agent_id` string: status active, both attestation sets
/// empty, no DID, both timestamps at `now`. Allocation of the record's key,
/// and the atomic failure on a key collision, are the host ledger's.
pub fn register_agent(agent_id: &str, owner: [u8; 32], bump: u8, ledger_ref: u64, now: i64) -> (r:
    (AgentIdentity, AgentRegistered))
    ensures
        r.0.wf(),
        r.0.bump == bump,
        r.0.owner == owner,
        r.0.agent_id_hash@ == digest_of(agent_id@),
        r.0.state_root@ == Seq::new(32, |i: int| 0u8),
        r.0.ledger_ref == ledger_ref,
        r.0.status == STATUS_ACTIVE,
        r.0.registered_at == now,
        r.0.updated_at == now,
        r.0.did_hash is None,
        r.0.delegation_count == 0,
        r.0.validation_count == 0,
        forall|i: int| 0 <= i < 8 ==> r.0.active_delegations@[i]@ == Seq::new(32, |j: int| 0u8),
        forall|i: int| 0 <= i < 4 ==> r.0.validation_attestations@[i]@ == Seq::new(32, |j: int| 0u8),
        r.1.agent_id_hash == r.0.agent_id_hash,
        r.1.owner == owner,
        r.1.state_root == r.0.state_root,
        r.1.timestamp == now,
{
    let agent_id_hash = hash_str(agent_id);
    let agent = AgentIdentity {
        bump,
        owner,
        agent_id_hash,
        state_root: [0u8; 32],
        ledger_ref,
        status: STATUS_ACTIVE,
        registered_at: now,
        updated_at: now,
        did_hash: None,
        delegation_count: 0,
        active_delegations: [[0u8; 32]; 8],
        validation_count: 0,
        validation_attestations: [[0u8; 32]; 4],
    };
    let event = AgentRegistered {
        agent_id_hash: agent.agent_id_hash,
        owner,
        state_root: agent.state_root,
        timestamp: now,
    };
    (agent, event)
}

/// Refreshes the record's update timestamp. Owner-only; state-root
/// recomputation is deferred to the external metadata capability.
pub fn update_agent(agent: &mut AgentIdentity, caller: [u8; 32], now: i64) -> (r: Result<
    AgentUpdated,
    ErrorCode,
>)
    requires
        old(agent).wf(),
    ensures
        final(agent).wf(),
        caller != old(agent).owner ==> r == Err::<AgentUpdated, ErrorCode>(
            ErrorCode::AuthorizationFailure,
        ) && *final(agent) == *old(agent),
        caller == old(agent).owner ==> {
            &&& *final(agent) == (AgentIdentity { updated_at: now, ..*old(agent) })
            &&& r matches Ok(e) && e.agent_id_hash == old(agent).agent_id_hash
                && e.new_state_root == old(agent).state_root && e.timestamp == now
        },
{
    if !bytes32_eq(&caller, &agent.owner) {
        return Err(ErrorCode::AuthorizationFailure);
    }
    agent.updated_at = now;
    Ok(
        AgentUpdated {
            agent_id_hash: agent.agent_id_hash,
            new_state_root: agent.state_root,
            timestamp: now,
        },
    )
}

/// Adds a delegation attestation to the agent's set. Owner-only; fails with
/// `CapacityExceeded` when all 8 slots are taken and with `InvalidState`
/// when the identifier is already a member; any failure leaves the record
/// unchanged.
pub fn add_delegation(
    agent: &mut AgentIdentity,
    caller: [u8; 32],
    sas_attestation: [u8; 32],
    now: i64,
) -> (r: Result<DelegationAdded, ErrorCode>)
    requires
        old(agent).wf(),
    ensures
        final(agent).wf(),
        caller != old(agent).owner ==> r == Err::<DelegationAdded, ErrorCode>(
            ErrorCode::AuthorizationFailure,
        ) && *final(agent) == *old(agent),
        caller == old(agent).owner && old(agent).delegation_count >= 8 ==> r == Err::<
            DelegationAdded,
            ErrorCode,
        >(ErrorCode::CapacityExceeded) && *final(agent) == *old(agent),
        caller == old(agent).owner && old(agent).delegation_count < 8 && old(
            agent,
        ).delegations().contains(sas_attestation) ==> r == Err::<DelegationAdded, ErrorCode>(
            ErrorCode::InvalidState,
        ) && *final(agent) == *old(agent),
        caller == old(agent).owner && old(agent).delegation_count < 8 && !old(
            agent,
        ).delegations().contains(sas_attestation) ==> {
            &&& final(agent).delegations() == old(agent).delegations().push(sas_attestation)
            &&& final(agent).delegation_count == old(agent).delegation_count + 1
            &&& *final(agent) == (AgentIdentity {
                delegation_count: final(agent).delegation_count,
                active_delegations: final(agent).active_delegations,
                updated_at: now,
                ..*old(agent)
            })
            &&& r matches Ok(e) && e.agent_id_hash == old(agent).agent_id_hash
                && e.sas_attestation == sas_attestation && e.timestamp == now
        },
{
    if !bytes32_eq(&caller, &agent.owner) {
        return Err(ErrorCode::AuthorizationFailure);
    }
    match agent.add_delegation(sas_attestation) {
        Err(e) => Err(e),
        Ok(()) => {
            agent.updated_at = now;
            Ok(
                DelegationAdded {
                    agent_id_hash: agent.agent_id_hash,
                    sas_attestation,
                    timestamp: now,
                },
            )
        },
    }
}

/// Removes a delegation attestation from the agent's set, shifting later
/// entries one slot left. Owner-only; fails with `NotFound`, changing
/// nothing, when the identifier is not a member.
pub fn remove_delegation(
    agent: &mut AgentIdentity,
    caller: [u8; 32],
    sas_attestation: [u8; 32],
    now: i64,
) -> (r: Result<DelegationRemoved, ErrorCode>)
    requires
        old(agent).wf(),
    ensures
        final(agent).wf(),
        caller != old(agent).owner ==> r == Err::<DelegationRemoved, ErrorCode>(
            ErrorCode::AuthorizationFailure,
        ) && *final(agent) == *old(agent),
        caller == old(agent).owner && !old(agent).delegations().contains(sas_attestation) ==> r
            == Err::<DelegationRemoved, ErrorCode>(ErrorCode::NotFound) && *final(agent) == *old(
            agent,
        ),
        caller == old(agent).owner && old(agent).delegations().contains(sas_attestation) ==> {
            &&& final(agent).delegation_count == old(agent).delegation_count - 1
            &&& exists|i: int|
                0 <= i < old(agent).delegations().len() && old(agent).delegations()[i]
                    == sas_attestation && final(agent).delegations() == old(
                    agent,
                ).delegations().subrange(0, i) + old(agent).delegations().subrange(
                    i + 1,
                    old(agent).delegations().len() as int,
                )
            &&& *final(agent) == (AgentIdentity {
                delegation_count: final(agent).delegation_count,
                active_delegations: final(agent).active_delegations,
                updated_at: now,
                ..*old(agent)
            })
            &&& r matches Ok(e) && e.agent_id_hash == old(agent).agent_id_hash
                && e.sas_attestation == sas_attestation && e.reason@.len() == 0 && e.timestamp
                == now
        },
{
    if !bytes32_eq(&caller, &agent.owner) {
        return Err(ErrorCode::AuthorizationFailure);
    }
    match agent.remove_delegation(sas_attestation) {
        Err(e) => Err(e),
        Ok(()) => {
            agent.updated_at = now;
            Ok(
                DelegationRemoved {
                    agent_id_hash: agent.agent_id_hash,
                    sas_attestation,
                    reason: String::new(),
                    timestamp: now,
                },
            )
        },
    }
}

/// Adds a validation attestation to the agent's set. Owner-only; fails with
/// `CapacityExceeded` when all 4 slots are taken and with `InvalidState`
/// when the identifier is already a member; any failure leaves the record
/// unchanged.
pub fn add_validation(
    agent: &mut AgentIdentity,
    caller: [u8; 32],
    sas_attestation: [u8; 32],
    now: i64,
) -> (r: Result<ValidationAdded, ErrorCode>)
    requires
        old(agent).wf(),
    ensures
        final(agent).wf(),
        caller != old(agent).owner ==> r == Err::<ValidationAdded, ErrorCode>(
            ErrorCode::AuthorizationFailure,
        ) && *final(agent) == *old(agent),
        caller == old(agent).owner && old(agent).validation_count >= 4 ==> r == Err::<
            ValidationAdded,
            ErrorCode,
        >(ErrorCode::CapacityExceeded) && *final(agent) == *old(agent),
        caller == old(agent).owner && old(agent).validation_count < 4 && old(
            agent,
        ).validations().contains(sas_attestation) ==> r == Err::<ValidationAdded, ErrorCode>(
            ErrorCode::InvalidState,
        ) && *final(agent) == *old(agent),
        caller == old(agent).owner && old(agent).validation_count < 4 && !old(
            agent,
        ).validations().contains(sas_attestation) ==> {
            &&& final(agent).validations() == old(agent).validations().push(sas_attestation)
            &&& final(agent).validation_count == old(agent).validation_count + 1
            &&& *final(agent) == (AgentIdentity {
                validation_count: final(agent).validation_count,
                validation_attestations: final(agent).validation_attestations,
                updated_at: now,
                ..*old(agent)
            })
            &&& r matches Ok(e) && e.agent_id_hash == old(agent).agent_id_hash
                && e.sas_attestation == sas_attestation && e.timestamp == now
        },
{
    if !bytes32_eq(&caller, &agent.owner) {
        return Err(ErrorCode::AuthorizationFailure);
    }
    match agent.add_validation(sas_attestation) {
        Err(e) => Err(e),
        Ok(()) => {
            agent.updated_at = now;
            Ok(
                ValidationAdded {
                    agent_id_hash: agent.agent_id_hash,
                    sas_attestation,
                    timestamp: now,
                },
            )
        },
    }
}

/// Removes a validation attestation from the agent's set, shifting later
/// entries one slot left. Owner-only; fails with `NotFound`, changing
/// nothing, when the identifier is not a member.
pub fn remove_validation(
    agent: &mut AgentIdentity,
    caller: [u8; 32],
    sas_attestation: [u8; 32],
    now: i64,
) -> (r: Result<ValidationRemoved, ErrorCode>)
    requires
        old(agent).wf(),
    ensures
        final(agent).wf(),
        caller != old(agent).owner ==> r == Err::<ValidationRemoved, ErrorCode>(
            ErrorCode::AuthorizationFailure,
        ) && *final(agent) == *old(agent),
        caller == old(agent).owner && !old(agent).validations().contains(sas_attestation) ==> r
            == Err::<ValidationRemoved, ErrorCode>(ErrorCode::NotFound) && *final(agent) == *old(
            agent,
        ),
        caller == old(agent).owner && old(agent).validations().contains(sas_attestation) ==> {
            &&& final(agent).validation_count == old(agent).validation_count - 1
            &&& exists|i: int|
                0 <= i < old(agent).validations().len() && old(agent).validations()[i]
                    == sas_attestation && final(agent).validations() == old(
                    agent,
                ).validations().subrange(0, i) + old(agent).validations().subrange(
                    i + 1,
                    old(agent).validations().len() as int,
                )
            &&& *final(agent) == (AgentIdentity {
                validation_count: final(agent).validation_count,
                validation_attestations: final(agent).validation_attestations,
                updated_at: now,
                ..*old(agent)
            })
            &&& r matches Ok(e) && e.agent_id_hash == old(agent).agent_id_hash
                && e.sas_attestation == sas_attestation && e.timestamp == now
        },
{
    if !bytes32_eq(&caller, &agent.owner) {
        return Err(ErrorCode::AuthorizationFailure);
    }
    match agent.remove_validation(sas_attestation) {
        Err(e) => Err(e),
        Ok(()) => {
            agent.updated_at = now;
            Ok(
                ValidationRemoved {
                    agent_id_hash: agent.agent_id_hash,
                    sas_attestation,
                    timestamp: now,
                },
            )
        },
    }
}

/// Replaces the agent's DID hash with the hash of `did`. Owner-only.
pub fn update_did(agent: &mut AgentIdentity, caller: [u8; 32], did: &str, now: i64) -> (r: Result<
    DIDUpdated,
    ErrorCode,
>)
    requires
        old(agent).wf(),
    ensures
        final(agent).wf(),
        caller != old(agent).owner ==> r == Err::<DIDUpdated, ErrorCode>(
            ErrorCode::AuthorizationFailure,
        ) && *final(agent) == *old(agent),
        caller == old(agent).owner ==> {
            &&& final(agent).did_hash matches Some(h) && h@ == digest_of(did@)
            &&& *final(agent) == (AgentIdentity {
                did_hash: final(agent).did_hash,
                updated_at: now,
                ..*old(agent)
            })
            &&& r matches Ok(e) && e.agent_id_hash == old(agent).agent_id_hash && e.did_hash@
                == digest_of(did@) && e.timestamp == now
        },
{
    if !bytes32_eq(&caller, &agent.owner) {
        return Err(ErrorCode::AuthorizationFailure);
    }
    let did_hash = hash_str(did);
    agent.did_hash = Some(did_hash);
    agent.updated_at = now;
    Ok(DIDUpdated { agent_id_hash: agent.agent_id_hash, did_hash, timestamp: now })
}

/// Overwrites the agent's status flag. Owner-only; deliberately, no
/// transition graph is enforced and any byte is accepted.
pub fn update_status(agent: &mut AgentIdentity, caller: [u8; 32], new_status: u8, now: i64) -> (r:
    Result<(), ErrorCode>)
    requires
        old(agent).wf(),
    ensures
        final(agent).wf(),
        caller != old(agent).owner ==> r == Err::<(), ErrorCode>(ErrorCode::AuthorizationFailure)
            && *final(agent) == *old(agent),
        caller == old(agent).owner ==> r is Ok && *final(agent) == (AgentIdentity {
            status: new_status,
            updated_at: now,
            ..*old(agent)
        }),
{
    if !bytes32_eq(&caller, &agent.owner) {
        return Err(ErrorCode::AuthorizationFailure);
    }
    agent.status = new_status;
    agent.updated_at = now;
    Ok(())
}

/// Sets the terminal deregistered tombstone. Owner-only; fails with
/// `AlreadyInTerminalState`, changing nothing, when the record already
/// carries it. The record itself persists forever.
pub fn deregister_agent(agent: &mut AgentIdentity, caller: [u8; 32], now: i64) -> (r: Result<
    (),
    ErrorCode,
>)
    requires
        old(agent).wf(),
    ensures
        final(agent).wf(),
        caller != old(agent).owner ==> r == Err::<(), ErrorCode>(ErrorCode::AuthorizationFailure)
            && *final(agent) == *old(agent),
        caller == old(agent).owner && old(agent).status == STATUS_DEREGISTERED ==> r == Err::<
            (),
            ErrorCode,
        >(ErrorCode::AlreadyInTerminalState) && *final(agent) == *old(agent),
        caller == old(agent).owner && old(agent).status != STATUS_DEREGISTERED ==> r is Ok
            && *final(agent) == (AgentIdentity {
            status: STATUS_DEREGISTERED,
            updated_at: now,
            ..*old(agent)
        }),
{
    if !bytes32_eq(&caller, &agent.owner) {
        return Err(ErrorCode::AuthorizationFailure);
    }
    if agent.status == STATUS_DEREGISTERED {
        return Err(ErrorCode::AlreadyInTerminalState);
    }
    agent.status = STATUS_DEREGISTERED;
    agent.updated_at = now;
    Ok(())
}

/// Whether `target` occurs in the first `count` slots of `arr`.
fn contains_prefix_8(arr: &[[u8; 32]; 8], count: u8, target: &[u8; 32]) -> (r: bool)
    requires
        count as int <= 8,
    ensures
        r == arr@.subrange(0, count as int).contains(*target),
{
    match position_prefix_8(arr, count, target) {
        Some(i) => {
            proof {
                assert(arr@.subrange(0, count as int)[i as int] == *target);
            }
            true
        },
        None => {
            proof {
                assert(!arr@.subrange(0, count as int).contains(*target));
            }
            false
        },
    }
}

/// Whether `target` occurs in the first `count` slots of `arr`.
fn contains_prefix_4(arr: &[[u8; 32]; 4], count: u8, target: &[u8; 32]) -> (r: bool)
    requires
        count as int <= 4,
    ensures
        r == arr@.subrange(0, count as int).contains(*target),
{
    match position_prefix_4(arr, count, target) {
        Some(i) => {
            proof {
                assert(arr@.subrange(0, count as int)[i as int] == *target);
            }
            true
        },
        None => {
            proof {
                assert(!arr@.subrange(0, count as int).contains(*target));
            }
            false
        },
    }
}

/// The index of the first occurrence of `target` among the first `count`
/// slots of `arr`, if any.
fn position_prefix_8(arr: &[[u8; 32]; 8], count: u8, target: &[u8; 32]) -> (r: Option<usize>)
    requires
        count as int <= 8,
    ensures
        match r {
            Some(i) => 0 <= i < count && arr@[i as int] == *target,
            None => forall|k: int| 0 <= k < count ==> arr@[k] != *target,
        },
{
    let mut i: usize = 0;
    while i < count as usize
        invariant
            0 <= i <= count as int <= 8,
            forall|k: int| 0 <= k < i ==> arr@[k] != *target,
        decreases count as int - i,
    {
        if bytes32_eq(&arr[i], target) {
            return Some(i);
        }
        i = i + 1;
    }
    None
}

/// The index of the first occurrence of `target` among the first `count`
/// slots of `arr`, if any.
fn position_prefix_4(arr: &[[u8; 32]; 4], count: u8, target: &[u8; 32]) -> (r: Option<usize>)
    requires
        count as int <= 4,
    ensures
        match r {
            Some(i) => 0 <= i < count && arr@[i as int] == *target,
            None => forall|k: int| 0 <= k < count ==> arr@[k] != *target,
        },
{
    let mut i: usize = 0;
    while i < count as usize
        invariant
            0 <= i <= count as int <= 4,
            forall|k: int| 0 <= k < i ==> arr@[k] != *target,
        decreases count as int - i,
    {
        if bytes32_eq(&arr[i], target) {
            return Some(i);
        }
        i = i + 1;
    }
    None
}

} // verus!

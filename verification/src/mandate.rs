//! The mandate registry: payment/action authorizations with a six-state
//! lifecycle combining execution counting, time-based expiry and
//! context-drift revalidation.
//!
//! Expired, Revoked, Executed and Amended are terminal; Zombie is
//! recoverable through revalidation. Drift checking, expiry enforcement and
//! execution are guarded by field conditions rather than caller identity, so
//! any caller may invoke them; revoke, amend and revalidate are owner-only.

use vstd::prelude::*;

use crate::bytes32_eq;
use crate::errors::ErrorCode;
use crate::hashing::digest_of;
use crate::hashing::hash_str;

verus! {

pub const MANDATE_TYPE_INTENT: u8 = 0;

pub const MANDATE_TYPE_CART: u8 = 1;

/// Lifecycle state of a mandate.
#[derive(Clone, Copy, Debug, PartialEq, Eq, Structural)]
pub enum MandateStatus {
    /// Created and ready for execution.
    Active,
    /// Past its expiry time.
    Expired,
    /// Manually revoked by the user authority.
    Revoked,
    /// Execution cap reached.
    Executed,
    /// Context drift detected; awaiting revalidation.
    Zombie,
    /// Replaced by a new mandate record.
    Amended,
}

/// The byte a mandate status serializes to.
pub open spec fn spec_status_byte(s: MandateStatus) -> u8 {
    match s {
        MandateStatus::Active => 0,
        MandateStatus::Expired => 1,
        MandateStatus::Revoked => 2,
        MandateStatus::Executed => 3,
        MandateStatus::Zombie => 4,
        MandateStatus::Amended => 5,
    }
}

/// The mandate status a byte deserializes to, if any.
pub open spec fn spec_status_from_byte(b: u8) -> Option<MandateStatus> {
    if b == 0 {
        Some(MandateStatus::Active)
    } else if b == 1 {
        Some(MandateStatus::Expired)
    } else if b == 2 {
        Some(MandateStatus::Revoked)
    } else if b == 3 {
        Some(MandateStatus::Executed)
    } else if b == 4 {
        Some(MandateStatus::Zombie)
    } else if b == 5 {
        Some(MandateStatus::Amended)
    } else {
        None
    }
}

/// The byte a mandate status serializes to.
pub fn status_byte(s: MandateStatus) -> (r: u8)
    ensures
        r == spec_status_byte(s),
{
    match s {
        MandateStatus::Active => 0,
        MandateStatus::Expired => 1,
        MandateStatus::Revoked => 2,
        MandateStatus::Executed => 3,
        MandateStatus::Zombie => 4,
        MandateStatus::Amended => 5,
    }
}

/// The mandate status a byte deserializes to, if any.
pub fn status_from_byte(b: u8) -> (r: Option<MandateStatus>)
    ensures
        r == spec_status_from_byte(b),
{
    if b == 0 {
        Some(MandateStatus::Active)
    } else if b == 1 {
        Some(MandateStatus::Expired)
    } else if b == 2 {
        Some(MandateStatus::Revoked)
    } else if b == 3 {
        Some(MandateStatus::Executed)
    } else if b == 4 {
        Some(MandateStatus::Zombie)
    } else if b == 5 {
        Some(MandateStatus::Amended)
    } else {
        None
    }
}

/// A payment/action mandate record.
#[derive(Clone, Copy, Debug, PartialEq, Eq)]
pub struct MandateAccount {
    /// Address derivation seed byte handed in by the host ledger.
    pub bump: u8,
    /// Correlation key into the identity registry; an opaque hash, never a
    /// live reference.
    pub agent_id_hash: [u8; 32],
    /// The user authority that created the mandate; the only caller allowed
    /// to revoke, amend or revalidate it.
    pub user_authority: [u8; 32],
    /// Intent or cart.
    pub mandate_type: u8,
    /// Current lifecycle state.
    pub status: MandateStatus,
    /// Host clock at creation.
    pub created_at: i64,
    /// When the mandate expires; 0 means never.
    pub expires_at: i64,
    /// Commitment to the user's context snapshot at creation, compared
    /// against for drift detection.
    pub context_hash: [u8; 32],
    /// When the context must be revalidated; 0 means never.
    pub revalidation_threshold: i64,
    /// How many times the mandate has been executed.
    pub execution_count: u64,
    /// Execution cap; 0 means unlimited.
    pub max_executions: u64,
    /// Opaque pointer to the full mandate details.
    pub mandate_state_root: [u8; 32],
    /// Host clock at the last successful mutation.
    pub updated_at: i64,
}

impl MandateAccount {
    /// Record invariant: timestamps non-negative, an enabled revalidation
    /// deadline lies strictly after creation, the execution count respects
    /// an enabled cap, and the type tag is one of the two defined kinds.
    pub open spec fn wf(&self) -> bool {
        &&& 0 <= self.created_at
        &&& 0 <= self.expires_at
        &&& 0 <= self.revalidation_threshold
        &&& self.revalidation_threshold > 0 ==> self.created_at < self.revalidation_threshold
        &&& self.max_executions > 0 ==> self.execution_count <= self.max_executions
        &&& self.mandate_type == MANDATE_TYPE_INTENT || self.mandate_type == MANDATE_TYPE_CART
    }
}

/// Notification emitted when a mandate is created.
#[derive(Debug)]
pub struct MandateCreated {
    pub mandate_state_root: [u8; 32],
    pub agent_id_hash: [u8; 32],
    pub user_authority: [u8; 32],
    pub mandate_type: u8,
    pub expires_at: i64,
    pub timestamp: i64,
}

/// Notification emitted when a mandate is revoked.
#[derive(Debug)]
pub struct MandateRevoked {
    pub mandate_state_root: [u8; 32],
    pub reason: String,
    pub revoked_by: [u8; 32],
    pub timestamp: i64,
}

/// Notification emitted when a mandate is executed.
#[derive(Debug)]
pub struct MandateExecuted {
    pub mandate_state_root: [u8; 32],
    pub execution_count: u64,
    pub timestamp: i64,
}

/// Notification emitted when context drift forces a mandate to Zombie.
#[derive(Debug)]
pub struct MandateContextDrift {
    pub mandate_state_root: [u8; 32],
    pub old_context: [u8; 32],
    pub new_context: [u8; 32],
    pub timestamp: i64,
}

/// Notification emitted when a zombie mandate is revalidated.
#[derive(Debug)]
pub struct MandateRevalidated {
    pub mandate_state_root: [u8; 32],
    pub new_context: [u8; 32],
    pub revalidated_by: [u8; 32],
    pub timestamp: i64,
}

/// Notification emitted when a mandate is amended.
#[derive(Debug)]
pub struct MandateAmended {
    pub old_mandate: [u8; 32],
    pub new_mandate: [u8; 32],
    pub timestamp: i64,
}

/// Creates a fresh mandate for `user_authority` under the hash of the
/// caller-chosen `mandate_id` string: status active, no executions yet.
/// A positive `expires_in_seconds` sets the expiry `now + ttl`, otherwise
/// the mandate never expires; a positive `revalidation_threshold_seconds`
/// sets the revalidation deadline the same way, otherwise it is disabled.
pub fn create_mandate(
    mandate_id: &str,
    agent_id_hash: [u8; 32],
    user_authority: [u8; 32],
    mandate_type: u8,
    context_hash: [u8; 32],
    expires_in_seconds: i64,
    revalidation_threshold_seconds: i64,
    max_executions: u64,
    bump: u8,
    now: i64,
) -> (r: (MandateAccount, MandateCreated))
    requires
        0 <= now,
        mandate_type == MANDATE_TYPE_INTENT || mandate_type == MANDATE_TYPE_CART,
        expires_in_seconds > 0 ==> now + expires_in_seconds <= i64::MAX,
        revalidation_threshold_seconds > 0 ==> now + revalidation_threshold_seconds <= i64::MAX,
    ensures
        r.0.wf(),
        r.0.bump == bump,
        r.0.agent_id_hash == agent_id_hash,
        r.0.user_authority == user_authority,
        r.0.mandate_type == mandate_type,
        r.0.status == MandateStatus::Active,
        r.0.created_at == now,
        r.0.expires_at == if expires_in_seconds > 0 {
            now + expires_in_seconds
        } else {
            0
        },
        r.0.context_hash == context_hash,
        r.0.revalidation_threshold == if revalidation_threshold_seconds > 0 {
            now + revalidation_threshold_seconds
        } else {
            0
        },
        r.0.execution_count == 0,
        r.0.max_executions == max_executions,
        r.0.mandate_state_root@ == digest_of(mandate_id@),
        r.0.updated_at == now,
        r.1.mandate_state_root == r.0.mandate_state_root,
        r.1.agent_id_hash == agent_id_hash,
        r.1.user_authority == user_authority,
        r.1.mandate_type == mandate_type,
        r.1.expires_at == r.0.expires_at,
        r.1.timestamp == now,
{
    let mandate_state_root = hash_str(mandate_id);
    let expires_at: i64 = if expires_in_seconds > 0 {
        now + expires_in_seconds
    } else {
        0
    };
    let revalidation_threshold: i64 = if revalidation_threshold_seconds > 0 {
        now + revalidation_threshold_seconds
    } else {
        0
    };
    let mandate = MandateAccount {
        bump,
        agent_id_hash,
        user_authority,
        mandate_type,
        status: MandateStatus::Active,
        created_at: now,
        expires_at,
        context_hash,
        revalidation_threshold,
        execution_count: 0,
        max_executions,
        mandate_state_root,
        updated_at: now,
    };
    let event = MandateCreated {
        mandate_state_root: mandate.mandate_state_root,
        agent_id_hash,
        user_authority,
        mandate_type,
        expires_at,
        timestamp: now,
    };
    (mandate, event)
}

/// Revokes the mandate. Owner-only; fails with `AlreadyInTerminalState`,
/// changing nothing, when it is already revoked; from every other state,
/// terminal or not, it force-transitions to Revoked.
pub fn revoke_mandate(m: &mut MandateAccount, caller: [u8; 32], reason: String, now: i64) -> (r:
    Result<MandateRevoked, ErrorCode>)
    requires
        old(m).wf(),
    ensures
        final(m).wf(),
        caller != old(m).user_authority ==> r == Err::<MandateRevoked, ErrorCode>(
            ErrorCode::AuthorizationFailure,
        ) && *final(m) == *old(m),
        caller == old(m).user_authority && old(m).status == MandateStatus::Revoked ==> r == Err::<
            MandateRevoked,
            ErrorCode,
        >(ErrorCode::AlreadyInTerminalState) && *final(m) == *old(m),
        caller == old(m).user_authority && old(m).status != MandateStatus::Revoked ==> {
            &&& *final(m) == (MandateAccount {
                status: MandateStatus::Revoked,
                updated_at: now,
                ..*old(m)
            })
            &&& r matches Ok(e) && e.mandate_state_root == old(m).mandate_state_root && e.reason@
                == reason@ && e.revoked_by == caller && e.timestamp == now
        },
{
    if !bytes32_eq(&caller, &m.user_authority) {
        return Err(ErrorCode::AuthorizationFailure);
    }
    if m.status == MandateStatus::Revoked {
        return Err(ErrorCode::AlreadyInTerminalState);
    }
    m.status = MandateStatus::Revoked;
    m.updated_at = now;
    Ok(
        MandateRevoked {
            mandate_state_root: m.mandate_state_root,
            reason,
            revoked_by: caller,
            timestamp: now,
        },
    )
}

/// Marks the mandate amended. Owner-only; requires status Active (else
/// `InvalidState`). Creating the replacement record is a separate external
/// operation, so the stored state root stays as it was.
pub fn amend_mandate(
    m: &mut MandateAccount,
    caller: [u8; 32],
    new_mandate_state_root: [u8; 32],
    now: i64,
) -> (r: Result<MandateAmended, ErrorCode>)
    requires
        old(m).wf(),
    ensures
        final(m).wf(),
        caller != old(m).user_authority ==> r == Err::<MandateAmended, ErrorCode>(
            ErrorCode::AuthorizationFailure,
        ) && *final(m) == *old(m),
        caller == old(m).user_authority && old(m).status != MandateStatus::Active ==> r == Err::<
            MandateAmended,
            ErrorCode,
        >(ErrorCode::InvalidState) && *final(m) == *old(m),
        caller == old(m).user_authority && old(m).status == MandateStatus::Active ==> {
            &&& *final(m) == (MandateAccount {
                status: MandateStatus::Amended,
                updated_at: now,
                ..*old(m)
            })
            &&& r matches Ok(e) && e.old_mandate == old(m).mandate_state_root && e.new_mandate
                == new_mandate_state_root && e.timestamp == now
        },
{
    if !bytes32_eq(&caller, &m.user_authority) {
        return Err(ErrorCode::AuthorizationFailure);
    }
    if m.status != MandateStatus::Active {
        return Err(ErrorCode::InvalidState);
    }
    let old_state_root = m.mandate_state_root;
    m.status = MandateStatus::Amended;
    m.updated_at = now;
    Ok(
        MandateAmended {
            old_mandate: old_state_root,
            new_mandate: new_mandate_state_root,
            timestamp: now,
        },
    )
}

/// Executes the mandate once. Any caller; requires status Active (else
/// `InvalidState`), an unexpired mandate (else `TemporalViolation`) and a
/// free execution slot under an enabled cap (else `CapacityExceeded`).
/// Reaching an enabled cap flips the status to Executed.
pub fn execute_mandate(m: &mut MandateAccount, now: i64) -> (r: Result<MandateExecuted, ErrorCode>)
    requires
        old(m).wf(),
        old(m).max_executions == 0 ==> old(m).execution_count < u64::MAX,
    ensures
        final(m).wf(),
        old(m).status != MandateStatus::Active ==> r == Err::<MandateExecuted, ErrorCode>(
            ErrorCode::InvalidState,
        ) && *final(m) == *old(m),
        old(m).status == MandateStatus::Active && old(m).expires_at > 0 && now >= old(m).expires_at
            ==> r == Err::<MandateExecuted, ErrorCode>(ErrorCode::TemporalViolation) && *final(m)
            == *old(m),
        old(m).status == MandateStatus::Active && (old(m).expires_at == 0 || now < old(
            m,
        ).expires_at) && old(m).max_executions > 0 && old(m).execution_count >= old(
            m,
        ).max_executions ==> r == Err::<MandateExecuted, ErrorCode>(ErrorCode::CapacityExceeded)
            && *final(m) == *old(m),
        old(m).status == MandateStatus::Active && (old(m).expires_at == 0 || now < old(
            m,
        ).expires_at) && (old(m).max_executions == 0 || old(m).execution_count < old(
            m,
        ).max_executions) ==> {
            &&& final(m).execution_count == old(m).execution_count + 1
            &&& final(m).status == if old(m).max_executions > 0 && old(m).execution_count + 1 >= old(
                m,
            ).max_executions {
                MandateStatus::Executed
            } else {
                MandateStatus::Active
            }
            &&& *final(m) == (MandateAccount {
                execution_count: final(m).execution_count,
                status: final(m).status,
                updated_at: now,
                ..*old(m)
            })
            &&& r matches Ok(e) && e.mandate_state_root == old(m).mandate_state_root
                && e.execution_count == old(m).execution_count + 1 && e.timestamp == now
        },
{
    if m.status != MandateStatus::Active {
        return Err(ErrorCode::InvalidState);
    }
    if m.expires_at > 0 && now >= m.expires_at {
        return Err(ErrorCode::TemporalViolation);
    }
    if m.max_executions > 0 && m.execution_count >= m.max_executions {
        return Err(ErrorCode::CapacityExceeded);
    }
    m.execution_count = m.execution_count + 1;
    if m.max_executions > 0 && m.execution_count >= m.max_executions {
        m.status = MandateStatus::Executed;
    }
    m.updated_at = now;
    Ok(
        MandateExecuted {
            mandate_state_root: m.mandate_state_root,
            execution_count: m.execution_count,
            timestamp: now,
        },
    )
}

/// Compares the stored context commitment with the caller-supplied current
/// one and checks the revalidation deadline. Any caller. A mismatch or a
/// passed deadline forces the status to Zombie, from whatever state the
/// mandate was in, and reports the drift; otherwise nothing changes and no
/// notification is due.
pub fn check_context_drift(m: &mut MandateAccount, current_context_hash: [u8; 32], now: i64) -> (r:
    (bool, Option<MandateContextDrift>))
    requires
        old(m).wf(),
    ensures
        final(m).wf(),
        r.0 == (old(m).context_hash != current_context_hash || (old(m).revalidation_threshold > 0
            && now >= old(m).revalidation_threshold)),
        !r.0 ==> *final(m) == *old(m) && r.1 is None,
        r.0 ==> {
            &&& *final(m) == (MandateAccount {
                status: MandateStatus::Zombie,
                updated_at: now,
                ..*old(m)
            })
            &&& r.1 matches Some(e) && e.mandate_state_root == old(m).mandate_state_root
                && e.old_context == old(m).context_hash && e.new_context == current_context_hash
                && e.timestamp == now
        },
{
    let has_drifted = !bytes32_eq(&m.context_hash, &current_context_hash);
    let needs_revalidation = m.revalidation_threshold > 0 && now >= m.revalidation_threshold;
    if has_drifted || needs_revalidation {
        let event = MandateContextDrift {
            mandate_state_root: m.mandate_state_root,
            old_context: m.context_hash,
            new_context: current_context_hash,
            timestamp: now,
        };
        m.status = MandateStatus::Zombie;
        m.updated_at = now;
        (true, Some(event))
    } else {
        (false, None)
    }
}

/// Restores a zombie mandate to Active under a fresh context commitment.
/// Owner-only; requires status Zombie (else `InvalidState`). An enabled
/// revalidation deadline is recomputed as `now` plus the original offset of
/// the deadline from the creation time; a disabled one stays disabled.
pub fn revalidate_mandate(
    m: &mut MandateAccount,
    caller: [u8; 32],
    new_context_hash: [u8; 32],
    now: i64,
) -> (r: Result<MandateRevalidated, ErrorCode>)
    requires
        old(m).wf(),
        old(m).created_at <= now,
        old(m).revalidation_threshold > 0 ==> now + (old(m).revalidation_threshold - old(
            m,
        ).created_at) <= i64::MAX,
    ensures
        final(m).wf(),
        caller != old(m).user_authority ==> r == Err::<MandateRevalidated, ErrorCode>(
            ErrorCode::AuthorizationFailure,
        ) && *final(m) == *old(m),
        caller == old(m).user_authority && old(m).status != MandateStatus::Zombie ==> r == Err::<
            MandateRevalidated,
            ErrorCode,
        >(ErrorCode::InvalidState) && *final(m) == *old(m),
        caller == old(m).user_authority && old(m).status == MandateStatus::Zombie ==> {
            &&& final(m).revalidation_threshold == if old(m).revalidation_threshold > 0 {
                now + (old(m).revalidation_threshold - old(m).created_at)
            } else {
                0
            }
            &&& *final(m) == (MandateAccount {
                context_hash: new_context_hash,
                status: MandateStatus::Active,
                revalidation_threshold: final(m).revalidation_threshold,
                updated_at: now,
                ..*old(m)
            })
            &&& r matches Ok(e) && e.mandate_state_root == old(m).mandate_state_root
                && e.new_context == new_context_hash && e.revalidated_by == caller && e.timestamp
                == now
        },
{
    if !bytes32_eq(&caller, &m.user_authority) {
        return Err(ErrorCode::AuthorizationFailure);
    }
    if m.status != MandateStatus::Zombie {
        return Err(ErrorCode::InvalidState);
    }
    m.context_hash = new_context_hash;
    m.status = MandateStatus::Active;
    m.revalidation_threshold = if m.revalidation_threshold > 0 {
        now + (m.revalidation_threshold - m.created_at)
    } else {
        0
    };
    m.updated_at = now;
    Ok(
        MandateRevalidated {
            mandate_state_root: m.mandate_state_root,
            new_context: new_context_hash,
            revalidated_by: caller,
            timestamp: now,
        },
    )
}

/// Marks the mandate expired. Any caller; requires an enabled expiry time
/// that has passed (else `TemporalViolation`). The transition overrides
/// whatever state the mandate was in.
pub fn enforce_expiry(m: &mut MandateAccount, now: i64) -> (r: Result<(), ErrorCode>)
    requires
        old(m).wf(),
    ensures
        final(m).wf(),
        old(m).expires_at == 0 || now < old(m).expires_at ==> r == Err::<(), ErrorCode>(
            ErrorCode::TemporalViolation,
        ) && *final(m) == *old(m),
        old(m).expires_at > 0 && now >= old(m).expires_at ==> r is Ok && *final(m)
            == (MandateAccount { status: MandateStatus::Expired, updated_at: now, ..*old(m) }),
{
    if m.expires_at <= 0 {
        return Err(ErrorCode::TemporalViolation);
    }
    if now < m.expires_at {
        return Err(ErrorCode::TemporalViolation);
    }
    m.status = MandateStatus::Expired;
    m.updated_at = now;
    Ok(())
}

} // verus!

//! The reputation registry: per-(agent, client) feedback authorizations
//! acting as rate limiters with expiry. Feedback content itself is never
//! persisted; only a running counter is, and the content hash travels in
//! the emitted notification.

use vstd::prelude::*;

use crate::bytes32_eq;
use crate::errors::ErrorCode;

verus! {

/// A feedback authorization record for one (agent, client) pair.
#[derive(Clone, Copy, Debug, PartialEq, Eq)]
pub struct FeedbackAuthorization {
    /// Address derivation seed byte handed in by the host ledger.
    pub bump: u8,
    /// Correlation key into the identity registry; an opaque hash, never a
    /// live reference.
    pub agent_id_hash: [u8; 32],
    /// The client authorized to submit feedback.
    pub client: [u8; 32],
    /// How many submissions the authorization grants in total.
    pub max_submissions: u16,
    /// How many submissions the client has used.
    pub submissions_used: u16,
    /// When the authorization expires; fixed at creation.
    pub expires_at: i64,
    /// Host clock at creation.
    pub created_at: i64,
}

impl FeedbackAuthorization {
    /// Record invariant: the counter respects its cap and the timestamps
    /// are non-negative.
    pub open spec fn wf(&self) -> bool {
        &&& self.submissions_used <= self.max_submissions
        &&& 0 <= self.created_at
        &&& 0 <= self.expires_at
    }
}

/// Notification emitted when a feedback authorization is created.
#[derive(Debug)]
pub struct FeedbackAuthorized {
    pub agent_id_hash: [u8; 32],
    pub client: [u8; 32],
    pub max_submissions: u16,
    pub expires_at: i64,
    pub timestamp: i64,
}

/// Notification emitted when a feedback authorization is revoked and its
/// record deleted.
#[derive(Debug)]
pub struct AuthorizationRevoked {
    pub agent_id_hash: [u8; 32],
    pub client: [u8; 32],
    pub timestamp: i64,
}

/// Notification emitted when feedback is submitted; it carries the content
/// hash, which is not persisted anywhere.
#[derive(Debug)]
pub struct FeedbackSubmitted {
    pub agent_id_hash: [u8; 32],
    pub client: [u8; 32],
    pub feedback_hash: [u8; 32],
    pub timestamp: i64,
}

/// Notification emitted when previously submitted feedback is updated.
#[derive(Debug)]
pub struct FeedbackUpdated {
    pub feedback_hash: [u8; 32],
    pub timestamp: i64,
}

/// Notification emitted when previously submitted feedback is revoked.
#[derive(Debug)]
pub struct FeedbackRevoked {
    pub feedback_hash: [u8; 32],
    pub reason: String,
    pub timestamp: i64,
}

/// Creates an authorization for `client` to submit up to `max_submissions`
/// feedback entries for the agent, expiring `expires_in_seconds` after
/// `now`. A zero ttl yields an authorization that is already expired.
/// One record exists per (agent, client) pair; the uniqueness of its key
/// is the host ledger's.
pub fn authorize_feedback(
    agent_id_hash: [u8; 32],
    client: [u8; 32],
    max_submissions: u16,
    expires_in_seconds: i64,
    bump: u8,
    now: i64,
) -> (r: (FeedbackAuthorization, FeedbackAuthorized))
    requires
        0 <= now,
        0 <= expires_in_seconds,
        now + expires_in_seconds <= i64::MAX,
    ensures
        r.0.wf(),
        r.0.bump == bump,
        r.0.agent_id_hash == agent_id_hash,
        r.0.client == client,
        r.0.max_submissions == max_submissions,
        r.0.submissions_used == 0,
        r.0.expires_at == now + expires_in_seconds,
        r.0.created_at == now,
        r.1.agent_id_hash == agent_id_hash,
        r.1.client == client,
        r.1.max_submissions == max_submissions,
        r.1.expires_at == r.0.expires_at,
        r.1.timestamp == now,
{
    let auth = FeedbackAuthorization {
        bump,
        agent_id_hash,
        client,
        max_submissions,
        submissions_used: 0,
        expires_at: now + expires_in_seconds,
        created_at: now,
    };
    let event = FeedbackAuthorized {
        agent_id_hash,
        client,
        max_submissions,
        expires_at: auth.expires_at,
        timestamp: now,
    };
    (auth, event)
}

/// Uses one submission slot of the authorization. Fails with
/// `AuthorizationFailure` when the caller is not the authorized client,
/// with `TemporalViolation` once `now` has reached the expiry, and with
/// `CapacityExceeded` when every granted submission is used; any failure
/// leaves the record unchanged.
pub fn submit_feedback(
    auth: &mut FeedbackAuthorization,
    caller: [u8; 32],
    feedback_hash: [u8; 32],
    now: i64,
) -> (r: Result<FeedbackSubmitted, ErrorCode>)
    requires
        old(auth).wf(),
    ensures
        final(auth).wf(),
        caller != old(auth).client ==> r == Err::<FeedbackSubmitted, ErrorCode>(
            ErrorCode::AuthorizationFailure,
        ) && *final(auth) == *old(auth),
        caller == old(auth).client && now >= old(auth).expires_at ==> r == Err::<
            FeedbackSubmitted,
            ErrorCode,
        >(ErrorCode::TemporalViolation) && *final(auth) == *old(auth),
        caller == old(auth).client && now < old(auth).expires_at && old(auth).submissions_used
            >= old(auth).max_submissions ==> r == Err::<FeedbackSubmitted, ErrorCode>(
            ErrorCode::CapacityExceeded,
        ) && *final(auth) == *old(auth),
        caller == old(auth).client && now < old(auth).expires_at && old(auth).submissions_used
            < old(auth).max_submissions ==> {
            &&& *final(auth) == (FeedbackAuthorization {
                submissions_used: (old(auth).submissions_used + 1) as u16,
                ..*old(auth)
            })
            &&& r matches Ok(e) && e.agent_id_hash == old(auth).agent_id_hash && e.client == caller
                && e.feedback_hash == feedback_hash && e.timestamp == now
        },
{
    if !bytes32_eq(&caller, &auth.client) {
        return Err(ErrorCode::AuthorizationFailure);
    }
    if now >= auth.expires_at {
        return Err(ErrorCode::TemporalViolation);
    }
    if auth.submissions_used >= auth.max_submissions {
        return Err(ErrorCode::CapacityExceeded);
    }
    auth.submissions_used = auth.submissions_used + 1;
    Ok(
        FeedbackSubmitted {
            agent_id_hash: auth.agent_id_hash,
            client: caller,
            feedback_hash,
            timestamp: now,
        },
    )
}

/// Produces the notification for revoking the authorization. The record is
/// deleted outright, not tombstoned, to reclaim storage; the deletion, and
/// holding the agent owner's signature for it, are the host ledger's.
pub fn revoke_authorization(auth: &FeedbackAuthorization, now: i64) -> (r: AuthorizationRevoked)
    ensures
        r.agent_id_hash == auth.agent_id_hash,
        r.client == auth.client,
        r.timestamp == now,
{
    AuthorizationRevoked { agent_id_hash: auth.agent_id_hash, client: auth.client, timestamp: now }
}

/// Accepts a feedback update request and produces its notification. No
/// state is touched and no authorization is evaluated: locating the prior
/// feedback and verifying the submitter needs the external feedback-lookup
/// capability, which is not wired in.
pub fn update_feedback(feedback_hash: [u8; 32], now: i64) -> (r: FeedbackUpdated)
    ensures
        r.feedback_hash == feedback_hash,
        r.timestamp == now,
{
    FeedbackUpdated { feedback_hash, timestamp: now }
}

/// Accepts a feedback revocation request and produces its notification. No
/// state is touched and no authorization is evaluated: locating the prior
/// feedback and verifying the caller needs the external feedback-lookup
/// capability, which is not wired in.
pub fn revoke_feedback(feedback_hash: [u8; 32], reason: String, now: i64) -> (r: FeedbackRevoked)
    ensures
        r.feedback_hash == feedback_hash,
        r.reason@ == reason@,
        r.timestamp == now,
{
    FeedbackRevoked { feedback_hash, reason, timestamp: now }
}

} // verus!

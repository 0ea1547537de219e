//! The error taxonomy shared by all three registries.
//!
//! Every failing validation path maps to exactly one kind, so callers can
//! branch on cause; no operation leaves a partial mutation behind.

use vstd::prelude::*;

verus! {

/// Why an operation was refused. Each operation's contract says exactly
/// which inputs produce which variant.
#[derive(Clone, Copy, Debug, PartialEq, Eq, Structural)]
pub enum ErrorCode {
    /// A bounded set or counter is already at its cap.
    CapacityExceeded,
    /// The named entry is not present.
    NotFound,
    /// The caller is not the authority the record requires.
    AuthorizationFailure,
    /// The record's lifecycle state does not admit the operation.
    InvalidState,
    /// A time-based precondition (expiry, deadline) does not hold.
    TemporalViolation,
    /// The record already carries its terminal tombstone state.
    AlreadyInTerminalState,
    /// The operation needs an external capability (proof verification,
    /// metadata computation, feedback lookup) that is not wired in.
    ExternalDependencyUnimplemented,
}

} // verus!

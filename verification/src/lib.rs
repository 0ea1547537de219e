//! A trust-and-commerce substrate for autonomous software agents sharing a
//! public ledger, split into three independent registries:
//!
//! - [`identity`]: agent identity records with a status flag and two bounded,
//!   ordered attestation sets (delegations and validations);
//! - [`mandate`]: payment/action authorizations with a six-state lifecycle
//!   combining execution counting, expiry and context-drift revalidation;
//! - [`reputation`]: rate-limited feedback authorizations with expiry.
//!
//! Each operation takes the record, the authenticated caller identity and the
//! host clock reading as plain values, evaluates authorization and state
//! preconditions, applies at most one state transition, and returns the
//! notification to emit. Loading, persisting and allocating records is the
//! host ledger's job and stays outside this crate.
//!
//! [`codec`] gives every record type its fixed byte layout, with serialization
//! proved injective and invertible.

use vstd::prelude::*;

pub mod codec;
pub mod errors;
pub mod hashing;
pub mod identity;
pub mod mandate;
pub mod reputation;

verus! {

broadcast use vstd::array::group_array_axioms;

/// Byte-wise equality of two 32-byte identifiers (owner keys, hashes).
pub(crate) fn bytes32_eq(a: &[u8; 32], b: &[u8; 32]) -> (r: bool)
    ensures
        r == (*a == *b),
{
    let mut i: usize = 0;
    while i < 32
        invariant
            0 <= i <= 32,
            forall|k: int| 0 <= k < i ==> a@[k] == b@[k],
        decreases 32 - i,
    {
        if a[i] != b[i] {
            proof {
                assert(a@ != b@);
            }
            return false;
        }
        i = i + 1;
    }
    proof {
        assert(*a =~= *b);
    }
    true
}

} // verus!

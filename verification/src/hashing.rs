//! The one-way hash that turns caller-chosen identifier strings (agent ids,
//! DIDs, mandate ids) into the 32-byte commitments stored in records.

use vstd::prelude::*;

verus! {

/// The 32-byte SHA-256 digest of the UTF-8 bytes of a string, named but not
/// written out: it depends on the characters alone, and the contracts of the
/// registries speak of it only through this name.
pub uninterp spec fn digest_of(s: Seq<char>) -> Seq<u8>;

/// Relies on solana_program::hash::hash: the SHA-256 digest of the given
/// bytes, a function of its argument alone.
#[verifier::external_body]
pub(crate) fn hash_str(s: &str) -> (r: [u8; 32])
    ensures
        r@ == digest_of(s@),
{
    solana_program::hash::hash(s.as_bytes()).to_bytes()
}

} // verus!

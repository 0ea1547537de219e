//! Fixed byte layouts for the three record types.
//!
//! Each record serializes to an 8-byte record-type discriminator followed by
//! its fields in declaration order, little-endian, at a fixed total length:
//! 549 bytes for an agent identity, 187 for a mandate, 93 for a feedback
//! authorization. Deserialization accepts exactly the canonical encodings of
//! well-formed records: it is proved to invert serialization, and
//! serialization is proved injective.

use vstd::prelude::*;
use vstd::bytes::*;
use vstd::slice::slice_subrange;

use crate::bytes32_eq;
use crate::identity::AgentIdentity;
use crate::identity::distinct_seq;
use crate::mandate::MandateAccount;
use crate::mandate::MandateStatus;
use crate::mandate::spec_status_byte;
use crate::mandate::spec_status_from_byte;
use crate::mandate::status_byte;
use crate::mandate::status_from_byte;
use crate::reputation::FeedbackAuthorization;

verus! {

broadcast use vstd::array::group_array_axioms, vstd::std_specs::vec::axiom_spec_len;

/// Discriminator tag of an agent identity record.
pub const AGENT_IDENTITY_TAG: u64 = 1;

/// Discriminator tag of a mandate record.
pub const MANDATE_ACCOUNT_TAG: u64 = 2;

/// Discriminator tag of a feedback authorization record.
pub const FEEDBACK_AUTHORIZATION_TAG: u64 = 3;

/// Serialized size of an agent identity record, discriminator included.
pub const AGENT_IDENTITY_SPACE: usize = 549;

/// Serialized size of a mandate record, discriminator included.
pub const MANDATE_ACCOUNT_SPACE: usize = 187;

/// Serialized size of a feedback authorization record, discriminator
/// included.
pub const FEEDBACK_AUTHORIZATION_SPACE: usize = 93;

/// Thirty-two zero bytes.
pub open spec fn zero32() -> Seq<u8> {
    Seq::new(32, |i: int| 0u8)
}

/// An `i64` serializes as the little-endian bytes of its two's-complement
/// bit pattern.
pub open spec fn spec_i64_to_le_bytes(x: i64) -> Seq<u8> {
    spec_u64_to_le_bytes(x as u64)
}

/// The `i64` eight little-endian bytes deserialize to.
pub open spec fn spec_i64_from_le_bytes(s: Seq<u8>) -> i64
    recommends
        s.len() == 8,
{
    spec_u64_from_le_bytes(s) as i64
}

/// An optional 32-byte hash serializes as a presence byte followed by the
/// hash, zero-padded when absent, so the width stays fixed.
pub open spec fn spec_option_hash_to_bytes(o: Option<[u8; 32]>) -> Seq<u8> {
    match o {
        None => seq![0u8] + zero32(),
        Some(h) => seq![1u8] + h@,
    }
}

/// The byte image of an agent identity record.
pub open spec fn spec_serialize_agent(a: AgentIdentity) -> Seq<u8> {
    spec_u64_to_le_bytes(AGENT_IDENTITY_TAG) + seq![a.bump] + a.owner@ + a.agent_id_hash@
        + a.state_root@ + spec_u64_to_le_bytes(a.ledger_ref) + seq![a.status]
        + spec_i64_to_le_bytes(a.registered_at) + spec_i64_to_le_bytes(a.updated_at)
        + spec_option_hash_to_bytes(a.did_hash) + seq![a.delegation_count]
        + a.active_delegations@[0]@ + a.active_delegations@[1]@ + a.active_delegations@[2]@
        + a.active_delegations@[3]@ + a.active_delegations@[4]@ + a.active_delegations@[5]@
        + a.active_delegations@[6]@ + a.active_delegations@[7]@ + seq![a.validation_count]
        + a.validation_attestations@[0]@ + a.validation_attestations@[1]@
        + a.validation_attestations@[2]@ + a.validation_attestations@[3]@
}

/// The byte image of a mandate record.
pub open spec fn spec_serialize_mandate(m: MandateAccount) -> Seq<u8> {
    spec_u64_to_le_bytes(MANDATE_ACCOUNT_TAG) + seq![m.bump] + m.agent_id_hash@
        + m.user_authority@ + seq![m.mandate_type] + seq![spec_status_byte(m.status)]
        + spec_i64_to_le_bytes(m.created_at) + spec_i64_to_le_bytes(m.expires_at)
        + m.context_hash@ + spec_i64_to_le_bytes(m.revalidation_threshold) + spec_u64_to_le_bytes(
        m.execution_count,
    ) + spec_u64_to_le_bytes(m.max_executions) + m.mandate_state_root@ + spec_i64_to_le_bytes(
        m.updated_at,
    )
}

/// The byte image of a feedback authorization record.
pub open spec fn spec_serialize_feedback(f: FeedbackAuthorization) -> Seq<u8> {
    spec_u64_to_le_bytes(FEEDBACK_AUTHORIZATION_TAG) + seq![f.bump] + f.agent_id_hash@ + f.client@
        + spec_u16_to_le_bytes(f.max_submissions) + spec_u16_to_le_bytes(f.submissions_used)
        + spec_i64_to_le_bytes(f.expires_at) + spec_i64_to_le_bytes(f.created_at)
}

/// Appends one byte.
fn push_byte(out: &mut Vec<u8>, x: u8)
    ensures
        final(out)@ == old(out)@ + seq![x],
{
    out.push(x);
    proof {
        assert(out@ =~= old(out)@ + seq![x]);
    }
}

/// Appends the eight little-endian bytes of a `u64`.
fn push_u64_le(out: &mut Vec<u8>, x: u64)
    ensures
        final(out)@ == old(out)@ + spec_u64_to_le_bytes(x),
{
    let mut bytes = u64_to_le_bytes(x);
    out.append(&mut bytes);
}

/// Appends the eight little-endian bytes of an `i64` bit pattern.
fn push_i64_le(out: &mut Vec<u8>, x: i64)
    ensures
        final(out)@ == old(out)@ + spec_i64_to_le_bytes(x),
{
    let bits: u64 = #[verifier::truncate] (x as u64);
    push_u64_le(out, bits);
}

/// Appends the two little-endian bytes of a `u16`.
fn push_u16_le(out: &mut Vec<u8>, x: u16)
    ensures
        final(out)@ == old(out)@ + spec_u16_to_le_bytes(x),
{
    let mut bytes = u16_to_le_bytes(x);
    out.append(&mut bytes);
}

/// Appends 32 bytes.
fn push_bytes32(out: &mut Vec<u8>, a: &[u8; 32])
    ensures
        final(out)@ == old(out)@ + a@,
{
    let mut j: usize = 0;
    while j < 32
        invariant
            0 <= j <= 32,
            out@ == old(out)@ + a@.subrange(0, j as int),
        decreases 32 - j,
    {
        out.push(a[j]);
        proof {
            assert(out@ =~= old(out)@ + a@.subrange(0, j + 1));
        }
        j = j + 1;
    }
    proof {
        assert(a@.subrange(0, 32) =~= a@);
    }
}

/// Appends 32 zero bytes.
fn push_zero32(out: &mut Vec<u8>)
    ensures
        final(out)@ == old(out)@ + zero32(),
{
    let mut j: usize = 0;
    while j < 32
        invariant
            0 <= j <= 32,
            out@ == old(out)@ + zero32().subrange(0, j as int),
        decreases 32 - j,
    {
        out.push(0u8);
        proof {
            assert(out@ =~= old(out)@ + zero32().subrange(0, j + 1));
        }
        j = j + 1;
    }
    proof {
        assert(zero32().subrange(0, 32) =~= zero32());
    }
}

/// Serializes an agent identity record to its 549-byte image.
pub fn serialize_agent(a: &AgentIdentity) -> (out: Vec<u8>)
    ensures
        out@ == spec_serialize_agent(*a),
        out@.len() == AGENT_IDENTITY_SPACE,
{
    proof {
        lemma_auto_spec_u64_to_from_le_bytes();
    }
    let mut out: Vec<u8> = Vec::new();
    proof {
        assert(Seq::<u8>::empty() + spec_u64_to_le_bytes(AGENT_IDENTITY_TAG)
            =~= spec_u64_to_le_bytes(AGENT_IDENTITY_TAG));
    }
    push_u64_le(&mut out, AGENT_IDENTITY_TAG);
    push_byte(&mut out, a.bump);
    push_bytes32(&mut out, &a.owner);
    push_bytes32(&mut out, &a.agent_id_hash);
    push_bytes32(&mut out, &a.state_root);
    push_u64_le(&mut out, a.ledger_ref);
    push_byte(&mut out, a.status);
    push_i64_le(&mut out, a.registered_at);
    push_i64_le(&mut out, a.updated_at);
    match a.did_hash {
        None => {
            push_byte(&mut out, 0);
            push_zero32(&mut out);
        },
        Some(h) => {
            push_byte(&mut out, 1);
            push_bytes32(&mut out, &h);
        },
    }
    push_byte(&mut out, a.delegation_count);
    push_bytes32(&mut out, &a.active_delegations[0]);
    push_bytes32(&mut out, &a.active_delegations[1]);
    push_bytes32(&mut out, &a.active_delegations[2]);
    push_bytes32(&mut out, &a.active_delegations[3]);
    push_bytes32(&mut out, &a.active_delegations[4]);
    push_bytes32(&mut out, &a.active_delegations[5]);
    push_bytes32(&mut out, &a.active_delegations[6]);
    push_bytes32(&mut out, &a.active_delegations[7]);
    push_byte(&mut out, a.validation_count);
    push_bytes32(&mut out, &a.validation_attestations[0]);
    push_bytes32(&mut out, &a.validation_attestations[1]);
    push_bytes32(&mut out, &a.validation_attestations[2]);
    push_bytes32(&mut out, &a.validation_attestations[3]);
    proof {
        assert(spec_option_hash_to_bytes(a.did_hash).len() == 33);
        assert(out@ =~= spec_serialize_agent(*a));
    }
    out
}

/// Serializes a mandate record to its 187-byte image.
pub fn serialize_mandate(m: &MandateAccount) -> (out: Vec<u8>)
    ensures
        out@ == spec_serialize_mandate(*m),
        out@.len() == MANDATE_ACCOUNT_SPACE,
{
    proof {
        lemma_auto_spec_u64_to_from_le_bytes();
    }
    let mut out: Vec<u8> = Vec::new();
    proof {
        assert(Seq::<u8>::empty() + spec_u64_to_le_bytes(MANDATE_ACCOUNT_TAG)
            =~= spec_u64_to_le_bytes(MANDATE_ACCOUNT_TAG));
    }
    push_u64_le(&mut out, MANDATE_ACCOUNT_TAG);
    push_byte(&mut out, m.bump);
    push_bytes32(&mut out, &m.agent_id_hash);
    push_bytes32(&mut out, &m.user_authority);
    push_byte(&mut out, m.mandate_type);
    push_byte(&mut out, status_byte(m.status));
    push_i64_le(&mut out, m.created_at);
    push_i64_le(&mut out, m.expires_at);
    push_bytes32(&mut out, &m.context_hash);
    push_i64_le(&mut out, m.revalidation_threshold);
    push_u64_le(&mut out, m.execution_count);
    push_u64_le(&mut out, m.max_executions);
    push_bytes32(&mut out, &m.mandate_state_root);
    push_i64_le(&mut out, m.updated_at);
    proof {
        assert(out@ =~= spec_serialize_mandate(*m));
    }
    out
}

/// Serializes a feedback authorization record to its 93-byte image.
pub fn serialize_feedback(f: &FeedbackAuthorization) -> (out: Vec<u8>)
    ensures
        out@ == spec_serialize_feedback(*f),
        out@.len() == FEEDBACK_AUTHORIZATION_SPACE,
{
    proof {
        lemma_auto_spec_u64_to_from_le_bytes();
        lemma_auto_spec_u16_to_from_le_bytes();
    }
    let mut out: Vec<u8> = Vec::new();
    proof {
        assert(Seq::<u8>::empty() + spec_u64_to_le_bytes(FEEDBACK_AUTHORIZATION_TAG)
            =~= spec_u64_to_le_bytes(FEEDBACK_AUTHORIZATION_TAG));
    }
    push_u64_le(&mut out, FEEDBACK_AUTHORIZATION_TAG);
    push_byte(&mut out, f.bump);
    push_bytes32(&mut out, &f.agent_id_hash);
    push_bytes32(&mut out, &f.client);
    push_u16_le(&mut out, f.max_submissions);
    push_u16_le(&mut out, f.submissions_used);
    push_i64_le(&mut out, f.expires_at);
    push_i64_le(&mut out, f.created_at);
    proof {
        assert(out@ =~= spec_serialize_feedback(*f));
    }
    out
}

/// Reads eight little-endian bytes as a `u64`.
fn read_u64_le(b: &Vec<u8>, off: usize) -> (x: u64)
    requires
        off + 8 <= b@.len(),
    ensures
        x == spec_u64_from_le_bytes(b@.subrange(off as int, off as int + 8)),
{
    proof {
        vstd::std_specs::vec::axiom_spec_len(b);
    }
    let s = slice_subrange(b.as_slice(), off, off + 8);
    u64_from_le_bytes(s)
}

/// Reads eight little-endian bytes as an `i64` bit pattern.
fn read_i64_le(b: &Vec<u8>, off: usize) -> (x: i64)
    requires
        off + 8 <= b@.len(),
    ensures
        x == spec_i64_from_le_bytes(b@.subrange(off as int, off as int + 8)),
{
    let u = read_u64_le(b, off);
    #[verifier::truncate] (u as i64)
}

/// Reads two little-endian bytes as a `u16`.
fn read_u16_le(b: &Vec<u8>, off: usize) -> (x: u16)
    requires
        off + 2 <= b@.len(),
    ensures
        x == spec_u16_from_le_bytes(b@.subrange(off as int, off as int + 2)),
{
    proof {
        vstd::std_specs::vec::axiom_spec_len(b);
    }
    let s = slice_subrange(b.as_slice(), off, off + 2);
    u16_from_le_bytes(s)
}

/// Reads 32 bytes into a fixed array.
fn read_bytes32(b: &Vec<u8>, off: usize) -> (r: [u8; 32])
    requires
        off + 32 <= b@.len(),
    ensures
        r@ == b@.subrange(off as int, off as int + 32),
{
    proof {
        vstd::std_specs::vec::axiom_spec_len(b);
    }
    let mut arr = [0u8; 32];
    let mut j: usize = 0;
    while j < 32
        invariant
            off + 32 <= b@.len() <= usize::MAX,
            0 <= j <= 32,
            arr@.len() == 32,
            forall|k: int| 0 <= k < j ==> arr@[k] == b@[off as int + k],
        decreases 32 - j,
    {
        arr[j] = b[off + j];
        j = j + 1;
    }
    proof {
        assert(arr@ =~= b@.subrange(off as int, off as int + 32));
    }
    arr
}

/// Whether 32 bytes at `off` are all zero.
fn is_zero32(b: &Vec<u8>, off: usize) -> (r: bool)
    requires
        off + 32 <= b@.len(),
    ensures
        r == (b@.subrange(off as int, off as int + 32) == zero32()),
{
    proof {
        vstd::std_specs::vec::axiom_spec_len(b);
    }
    let mut j: usize = 0;
    while j < 32
        invariant
            off + 32 <= b@.len() <= usize::MAX,
            0 <= j <= 32,
            forall|k: int| off as int <= k < off as int + j ==> b@[k] == 0u8,
        decreases 32 - j,
    {
        if b[off + j] != 0 {
            proof {
                assert(b@.subrange(off as int, off as int + 32)[j as int] != zero32()[j as int]);
            }
            return false;
        }
        j = j + 1;
    }
    proof {
        assert(b@.subrange(off as int, off as int + 32) =~= zero32());
    }
    true
}

/// Byte-wise equality of two byte vectors.
fn bytes_eq_vec(x: &Vec<u8>, y: &Vec<u8>) -> (r: bool)
    ensures
        r == (x@ == y@),
{
    if x.len() != y.len() {
        return false;
    }
    let n = x.len();
    let mut j: usize = 0;
    while j < n
        invariant
            n == x@.len() == y@.len(),
            0 <= j <= n,
            forall|k: int| 0 <= k < j ==> x@[k] == y@[k],
        decreases n - j,
    {
        if x[j] != y[j] {
            return false;
        }
        j = j + 1;
    }
    proof {
        assert(x@ =~= y@);
    }
    true
}

/// A 32-byte array is determined by its byte view.
proof fn lemma_bytes32_from_view(x: [u8; 32], y: [u8; 32])
    requires
        x@ == y@,
    ensures
        x == y,
{
    assert(x =~= y);
}

/// Reading back the serialized bit pattern of an `i64` recovers it.
proof fn lemma_i64_le_bytes_roundtrip(x: i64)
    ensures
        spec_i64_from_le_bytes(spec_i64_to_le_bytes(x)) == x,
{
    lemma_auto_spec_u64_to_from_le_bytes();
    assert(((x as u64) as i64) == x) by (bit_vector);
}

/// Where each byte of the image of an agent identity record comes from.
#[verifier::spinoff_prover]
#[verifier::rlimit(100)]
proof fn lemma_agent_fields_from_bytes(a: AgentIdentity, b: Seq<u8>)
    requires
        b == spec_serialize_agent(a),
    ensures
        b.len() == 549,
        spec_u64_from_le_bytes(b.subrange(0, 8)) == AGENT_IDENTITY_TAG,
        b[8] == a.bump,
        b.subrange(9, 41) == a.owner@,
        b.subrange(41, 73) == a.agent_id_hash@,
        b.subrange(73, 105) == a.state_root@,
        spec_u64_from_le_bytes(b.subrange(105, 113)) == a.ledger_ref,
        b[113] == a.status,
        spec_i64_from_le_bytes(b.subrange(114, 122)) == a.registered_at,
        spec_i64_from_le_bytes(b.subrange(122, 130)) == a.updated_at,
        a.did_hash is None ==> b[130] == 0 && b.subrange(131, 163) == zero32(),
        a.did_hash matches Some(h) ==> b[130] == 1 && b.subrange(131, 163) == h@,
        b[163] == a.delegation_count,
        b.subrange(164, 196) == a.active_delegations@[0]@,
        b.subrange(196, 228) == a.active_delegations@[1]@,
        b.subrange(228, 260) == a.active_delegations@[2]@,
        b.subrange(260, 292) == a.active_delegations@[3]@,
        b.subrange(292, 324) == a.active_delegations@[4]@,
        b.subrange(324, 356) == a.active_delegations@[5]@,
        b.subrange(356, 388) == a.active_delegations@[6]@,
        b.subrange(388, 420) == a.active_delegations@[7]@,
        b[420] == a.validation_count,
        b.subrange(421, 453) == a.validation_attestations@[0]@,
        b.subrange(453, 485) == a.validation_attestations@[1]@,
        b.subrange(485, 517) == a.validation_attestations@[2]@,
        b.subrange(517, 549) == a.validation_attestations@[3]@,
{
    lemma_auto_spec_u64_to_from_le_bytes();
    lemma_i64_le_bytes_roundtrip(a.registered_at);
    lemma_i64_le_bytes_roundtrip(a.updated_at);
    assert(spec_option_hash_to_bytes(a.did_hash).len() == 33);
    assert(b.subrange(0, 8) =~= spec_u64_to_le_bytes(AGENT_IDENTITY_TAG));
    assert(b.subrange(9, 41) =~= a.owner@);
    assert(b.subrange(41, 73) =~= a.agent_id_hash@);
    assert(b.subrange(73, 105) =~= a.state_root@);
    assert(b.subrange(105, 113) =~= spec_u64_to_le_bytes(a.ledger_ref));
    assert(b.subrange(114, 122) =~= spec_i64_to_le_bytes(a.registered_at));
    assert(b.subrange(122, 130) =~= spec_i64_to_le_bytes(a.updated_at));
    assert(b.subrange(130, 163) =~= spec_option_hash_to_bytes(a.did_hash));
    match a.did_hash {
        None => {
            assert(b[130] == spec_option_hash_to_bytes(a.did_hash)[0]);
            assert(b.subrange(131, 163) =~= zero32());
        },
        Some(h) => {
            assert(b[130] == spec_option_hash_to_bytes(a.did_hash)[0]);
            assert(b.subrange(131, 163) =~= h@);
        },
    }
    assert(b.subrange(164, 196) =~= a.active_delegations@[0]@);
    assert(b.subrange(196, 228) =~= a.active_delegations@[1]@);
    assert(b.subrange(228, 260) =~= a.active_delegations@[2]@);
    assert(b.subrange(260, 292) =~= a.active_delegations@[3]@);
    assert(b.subrange(292, 324) =~= a.active_delegations@[4]@);
    assert(b.subrange(324, 356) =~= a.active_delegations@[5]@);
    assert(b.subrange(356, 388) =~= a.active_delegations@[6]@);
    assert(b.subrange(388, 420) =~= a.active_delegations@[7]@);
    assert(b.subrange(421, 453) =~= a.validation_attestations@[0]@);
    assert(b.subrange(453, 485) =~= a.validation_attestations@[1]@);
    assert(b.subrange(485, 517) =~= a.validation_attestations@[2]@);
    assert(b.subrange(517, 549) =~= a.validation_attestations@[3]@);
}

/// Whether the first `count` slots of `arr` are pairwise distinct.
fn distinct_prefix_8(arr: &[[u8; 32]; 8], count: u8) -> (r: bool)
    requires
        count as int <= 8,
    ensures
        r == distinct_seq(arr@.subrange(0, count as int)),
{
    let n = count as usize;
    let ghost s = arr@.subrange(0, count as int);
    let mut i: usize = 0;
    while i < n
        invariant
            n == count as usize,
            0 <= i <= n <= 8,
            s == arr@.subrange(0, n as int),
            forall|p: int, q: int| 0 <= p < q < n && p < i ==> arr@[p] != arr@[q],
        decreases n - i,
    {
        let mut j = i + 1;
        while j < n
            invariant
                n == count as usize,
                0 <= i < j <= n <= 8,
                s == arr@.subrange(0, n as int),
                forall|q: int| i < q < j ==> arr@[i as int] != arr@[q],
            decreases n - j,
        {
            if bytes32_eq(&arr[i], &arr[j]) {
                proof {
                    assert(s[i as int] == s[j as int]);
                    assert(!distinct_seq(s));
                }
                return false;
            }
            j = j + 1;
        }
        i = i + 1;
    }
    proof {
        assert forall|p: int, q: int| 0 <= p < q < s.len() implies s[p] != s[q] by {
            assert(s[p] == arr@[p] && s[q] == arr@[q]);
        }
    }
    true
}

/// Whether the first `count` slots of `arr` are pairwise distinct.
fn distinct_prefix_4(arr: &[[u8; 32]; 4], count: u8) -> (r: bool)
    requires
        count as int <= 4,
    ensures
        r == distinct_seq(arr@.subrange(0, count as int)),
{
    let n = count as usize;
    let ghost s = arr@.subrange(0, count as int);
    let mut i: usize = 0;
    while i < n
        invariant
            n == count as usize,
            0 <= i <= n <= 4,
            s == arr@.subrange(0, n as int),
            forall|p: int, q: int| 0 <= p < q < n && p < i ==> arr@[p] != arr@[q],
        decreases n - i,
    {
        let mut j = i + 1;
        while j < n
            invariant
                n == count as usize,
                0 <= i < j <= n <= 4,
                s == arr@.subrange(0, n as int),
                forall|q: int| i < q < j ==> arr@[i as int] != arr@[q],
            decreases n - j,
        {
            if bytes32_eq(&arr[i], &arr[j]) {
                proof {
                    assert(s[i as int] == s[j as int]);
                    assert(!distinct_seq(s));
                }
                return false;
            }
            j = j + 1;
        }
        i = i + 1;
    }
    proof {
        assert forall|p: int, q: int| 0 <= p < q < s.len() implies s[p] != s[q] by {
            assert(s[p] == arr@[p] && s[q] == arr@[q]);
        }
    }
    true
}

/// A record that parses back out of the image of `a` field by field equals
/// `a`: the byte layout pins every field.
proof fn lemma_agent_parse_unique(a: AgentIdentity, c: AgentIdentity, b: Seq<u8>)
    requires
        b == spec_serialize_agent(a),
        c.bump == b[8],
        c.owner@ == b.subrange(9, 41),
        c.agent_id_hash@ == b.subrange(41, 73),
        c.state_root@ == b.subrange(73, 105),
        c.ledger_ref == spec_u64_from_le_bytes(b.subrange(105, 113)),
        c.status == b[113],
        c.registered_at == spec_i64_from_le_bytes(b.subrange(114, 122)),
        c.updated_at == spec_i64_from_le_bytes(b.subrange(122, 130)),
        b[130] == 1 ==> (c.did_hash matches Some(h) && h@ == b.subrange(131, 163)),
        b[130] != 1 ==> c.did_hash is None,
        c.delegation_count == b[163],
        c.active_delegations@[0]@ == b.subrange(164, 196),
        c.active_delegations@[1]@ == b.subrange(196, 228),
        c.active_delegations@[2]@ == b.subrange(228, 260),
        c.active_delegations@[3]@ == b.subrange(260, 292),
        c.active_delegations@[4]@ == b.subrange(292, 324),
        c.active_delegations@[5]@ == b.subrange(324, 356),
        c.active_delegations@[6]@ == b.subrange(356, 388),
        c.active_delegations@[7]@ == b.subrange(388, 420),
        c.validation_count == b[420],
        c.validation_attestations@[0]@ == b.subrange(421, 453),
        c.validation_attestations@[1]@ == b.subrange(453, 485),
        c.validation_attestations@[2]@ == b.subrange(485, 517),
        c.validation_attestations@[3]@ == b.subrange(517, 549),
    ensures
        c == a,
{
    lemma_agent_fields_from_bytes(a, b);
    lemma_bytes32_from_view(c.owner, a.owner);
    lemma_bytes32_from_view(c.agent_id_hash, a.agent_id_hash);
    lemma_bytes32_from_view(c.state_root, a.state_root);
    match a.did_hash {
        None => {
            assert(c.did_hash is None);
        },
        Some(h) => {
            assert(b[130] == 1);
            lemma_bytes32_from_view(c.did_hash->Some_0, h);
        },
    }
    assert forall|k: int| 0 <= k < 8 implies c.active_delegations@[k] == a.active_delegations@[k]
        by {
        lemma_bytes32_from_view(c.active_delegations@[k], a.active_delegations@[k]);
    }
    assert(c.active_delegations =~= a.active_delegations);
    assert forall|k: int|
        0 <= k < 4 implies c.validation_attestations@[k] == a.validation_attestations@[k] by {
        lemma_bytes32_from_view(c.validation_attestations@[k], a.validation_attestations@[k]);
    }
    assert(c.validation_attestations =~= a.validation_attestations);
}

/// Serialization of agent identity records is injective: two records with
/// the same byte image are the same record.
pub proof fn lemma_serialize_agent_injective(a1: AgentIdentity, a2: AgentIdentity)
    requires
        spec_serialize_agent(a1) == spec_serialize_agent(a2),
    ensures
        a1 == a2,
{
    let b = spec_serialize_agent(a1);
    lemma_agent_fields_from_bytes(a2, b);
    lemma_agent_parse_unique(a1, a2, b);
}

/// Parses the 549-byte image of an agent identity record.
///
/// Exactly the canonical images of well-formed records are accepted: for
/// every well-formed record `a`, bytes equal to `spec_serialize_agent(a)`
/// parse to `Some(a)`, and anything accepted serializes back to the input.
pub fn deserialize_agent(b: &Vec<u8>) -> (r: Option<AgentIdentity>)
    ensures
        r matches Some(a) ==> a.wf() && b@ == spec_serialize_agent(a),
        forall|a: AgentIdentity| a.wf() && b@ == spec_serialize_agent(a) ==> r == Some(a),
{
    proof {
        lemma_auto_spec_u64_to_from_le_bytes();
    }
    if b.len() != AGENT_IDENTITY_SPACE {
        proof {
            assert forall|a: AgentIdentity| !(a.wf() && b@ == spec_serialize_agent(a)) by {
                if b@ == spec_serialize_agent(a) {
                    lemma_agent_fields_from_bytes(a, b@);
                }
            }
        }
        return None;
    }
    let disc = read_u64_le(b, 0);
    if disc != AGENT_IDENTITY_TAG {
        proof {
            assert forall|a: AgentIdentity| !(a.wf() && b@ == spec_serialize_agent(a)) by {
                if b@ == spec_serialize_agent(a) {
                    lemma_agent_fields_from_bytes(a, b@);
                }
            }
        }
        return None;
    }
    let bump = b[8];
    let owner = read_bytes32(b, 9);
    let agent_id_hash = read_bytes32(b, 41);
    let state_root = read_bytes32(b, 73);
    let ledger_ref = read_u64_le(b, 105);
    let status = b[113];
    let registered_at = read_i64_le(b, 114);
    let updated_at = read_i64_le(b, 122);
    let did_tag = b[130];
    if did_tag > 1 {
        proof {
            assert forall|a: AgentIdentity| !(a.wf() && b@ == spec_serialize_agent(a)) by {
                if b@ == spec_serialize_agent(a) {
                    lemma_agent_fields_from_bytes(a, b@);
                }
            }
        }
        return None;
    }
    if did_tag == 0 && !is_zero32(b, 131) {
        proof {
            assert forall|a: AgentIdentity| !(a.wf() && b@ == spec_serialize_agent(a)) by {
                if b@ == spec_serialize_agent(a) {
                    lemma_agent_fields_from_bytes(a, b@);
                }
            }
        }
        return None;
    }
    let did_hash = if did_tag == 1 {
        Some(read_bytes32(b, 131))
    } else {
        None
    };
    let delegation_count = b[163];
    if delegation_count > 8 {
        proof {
            assert forall|a: AgentIdentity| !(a.wf() && b@ == spec_serialize_agent(a)) by {
                if b@ == spec_serialize_agent(a) {
                    lemma_agent_fields_from_bytes(a, b@);
                }
            }
        }
        return None;
    }
    let mut active_delegations = [[0u8; 32]; 8];
    active_delegations[0] = read_bytes32(b, 164);
    active_delegations[1] = read_bytes32(b, 196);
    active_delegations[2] = read_bytes32(b, 228);
    active_delegations[3] = read_bytes32(b, 260);
    active_delegations[4] = read_bytes32(b, 292);
    active_delegations[5] = read_bytes32(b, 324);
    active_delegations[6] = read_bytes32(b, 356);
    active_delegations[7] = read_bytes32(b, 388);
    let validation_count = b[420];
    if validation_count > 4 {
        proof {
            assert forall|a: AgentIdentity| !(a.wf() && b@ == spec_serialize_agent(a)) by {
                if b@ == spec_serialize_agent(a) {
                    lemma_agent_fields_from_bytes(a, b@);
                }
            }
        }
        return None;
    }
    let mut validation_attestations = [[0u8; 32]; 4];
    validation_attestations[0] = read_bytes32(b, 421);
    validation_attestations[1] = read_bytes32(b, 453);
    validation_attestations[2] = read_bytes32(b, 485);
    validation_attestations[3] = read_bytes32(b, 517);
    if !distinct_prefix_8(&active_delegations, delegation_count) {
        proof {
            assert forall|a: AgentIdentity| !(a.wf() && b@ == spec_serialize_agent(a)) by {
                if a.wf() && b@ == spec_serialize_agent(a) {
                    lemma_agent_fields_from_bytes(a, b@);
                    assert forall|k: int|
                        0 <= k < 8 implies active_delegations@[k] == a.active_delegations@[k] by {
                        lemma_bytes32_from_view(
                            active_delegations@[k],
                            a.active_delegations@[k],
                        );
                    }
                    assert(active_delegations@.subrange(0, delegation_count as int)
                        =~= a.delegations());
                }
            }
        }
        return None;
    }
    if !distinct_prefix_4(&validation_attestations, validation_count) {
        proof {
            assert forall|a: AgentIdentity| !(a.wf() && b@ == spec_serialize_agent(a)) by {
                if a.wf() && b@ == spec_serialize_agent(a) {
                    lemma_agent_fields_from_bytes(a, b@);
                    assert forall|k: int|
                        0 <= k < 4 implies validation_attestations@[k]
                        == a.validation_attestations@[k] by {
                        lemma_bytes32_from_view(
                            validation_attestations@[k],
                            a.validation_attestations@[k],
                        );
                    }
                    assert(validation_attestations@.subrange(0, validation_count as int)
                        =~= a.validations());
                }
            }
        }
        return None;
    }
    let candidate = AgentIdentity {
        bump,
        owner,
        agent_id_hash,
        state_root,
        ledger_ref,
        status,
        registered_at,
        updated_at,
        did_hash,
        delegation_count,
        active_delegations,
        validation_count,
        validation_attestations,
    };
    let ser = serialize_agent(&candidate);
    if !bytes_eq_vec(&ser, b) {
        proof {
            assert forall|a: AgentIdentity| !(a.wf() && b@ == spec_serialize_agent(a)) by {
                if a.wf() && b@ == spec_serialize_agent(a) {
                    lemma_agent_parse_unique(a, candidate, b@);
                }
            }
        }
        return None;
    }
    proof {
        assert(candidate.delegations() == active_delegations@.subrange(
            0,
            delegation_count as int,
        ));
        assert(candidate.validations() == validation_attestations@.subrange(
            0,
            validation_count as int,
        ));
        assert forall|a: AgentIdentity|
            a.wf() && b@ == spec_serialize_agent(a) implies Some(candidate) == Some(a) by {
            lemma_agent_parse_unique(a, candidate, b@);
        }
    }
    Some(candidate)
}

/// Serializing and then reading a mandate status byte recovers the status.
proof fn lemma_status_byte_roundtrip(s: MandateStatus)
    ensures
        spec_status_from_byte(spec_status_byte(s)) == Some(s),
{
}

/// Where each byte of the image of a mandate record comes from.
#[verifier::spinoff_prover]
#[verifier::rlimit(100)]
proof fn lemma_mandate_fields_from_bytes(m: MandateAccount, b: Seq<u8>)
    requires
        b == spec_serialize_mandate(m),
    ensures
        b.len() == 187,
        spec_u64_from_le_bytes(b.subrange(0, 8)) == MANDATE_ACCOUNT_TAG,
        b[8] == m.bump,
        b.subrange(9, 41) == m.agent_id_hash@,
        b.subrange(41, 73) == m.user_authority@,
        b[73] == m.mandate_type,
        b[74] == spec_status_byte(m.status),
        spec_i64_from_le_bytes(b.subrange(75, 83)) == m.created_at,
        spec_i64_from_le_bytes(b.subrange(83, 91)) == m.expires_at,
        b.subrange(91, 123) == m.context_hash@,
        spec_i64_from_le_bytes(b.subrange(123, 131)) == m.revalidation_threshold,
        spec_u64_from_le_bytes(b.subrange(131, 139)) == m.execution_count,
        spec_u64_from_le_bytes(b.subrange(139, 147)) == m.max_executions,
        b.subrange(147, 179) == m.mandate_state_root@,
        spec_i64_from_le_bytes(b.subrange(179, 187)) == m.updated_at,
{
    lemma_auto_spec_u64_to_from_le_bytes();
    lemma_i64_le_bytes_roundtrip(m.created_at);
    lemma_i64_le_bytes_roundtrip(m.expires_at);
    lemma_i64_le_bytes_roundtrip(m.revalidation_threshold);
    lemma_i64_le_bytes_roundtrip(m.updated_at);
    assert(b.subrange(0, 8) =~= spec_u64_to_le_bytes(MANDATE_ACCOUNT_TAG));
    assert(b.subrange(9, 41) =~= m.agent_id_hash@);
    assert(b.subrange(41, 73) =~= m.user_authority@);
    assert(b.subrange(75, 83) =~= spec_i64_to_le_bytes(m.created_at));
    assert(b.subrange(83, 91) =~= spec_i64_to_le_bytes(m.expires_at));
    assert(b.subrange(91, 123) =~= m.context_hash@);
    assert(b.subrange(123, 131) =~= spec_i64_to_le_bytes(m.revalidation_threshold));
    assert(b.subrange(131, 139) =~= spec_u64_to_le_bytes(m.execution_count));
    assert(b.subrange(139, 147) =~= spec_u64_to_le_bytes(m.max_executions));
    assert(b.subrange(147, 179) =~= m.mandate_state_root@);
    assert(b.subrange(179, 187) =~= spec_i64_to_le_bytes(m.updated_at));
}

/// A record that parses back out of the image of `m` field by field equals
/// `m`: the byte layout pins every field.
proof fn lemma_mandate_parse_unique(m: MandateAccount, c: MandateAccount, b: Seq<u8>)
    requires
        b == spec_serialize_mandate(m),
        c.bump == b[8],
        c.agent_id_hash@ == b.subrange(9, 41),
        c.user_authority@ == b.subrange(41, 73),
        c.mandate_type == b[73],
        spec_status_from_byte(b[74]) == Some(c.status),
        c.created_at == spec_i64_from_le_bytes(b.subrange(75, 83)),
        c.expires_at == spec_i64_from_le_bytes(b.subrange(83, 91)),
        c.context_hash@ == b.subrange(91, 123),
        c.revalidation_threshold == spec_i64_from_le_bytes(b.subrange(123, 131)),
        c.execution_count == spec_u64_from_le_bytes(b.subrange(131, 139)),
        c.max_executions == spec_u64_from_le_bytes(b.subrange(139, 147)),
        c.mandate_state_root@ == b.subrange(147, 179),
        c.updated_at == spec_i64_from_le_bytes(b.subrange(179, 187)),
    ensures
        c == m,
{
    lemma_mandate_fields_from_bytes(m, b);
    lemma_status_byte_roundtrip(m.status);
    lemma_bytes32_from_view(c.agent_id_hash, m.agent_id_hash);
    lemma_bytes32_from_view(c.user_authority, m.user_authority);
    lemma_bytes32_from_view(c.context_hash, m.context_hash);
    lemma_bytes32_from_view(c.mandate_state_root, m.mandate_state_root);
}

/// Serialization of mandate records is injective: two records with the
/// same byte image are the same record.
pub proof fn lemma_serialize_mandate_injective(m1: MandateAccount, m2: MandateAccount)
    requires
        spec_serialize_mandate(m1) == spec_serialize_mandate(m2),
    ensures
        m1 == m2,
{
    let b = spec_serialize_mandate(m1);
    lemma_mandate_fields_from_bytes(m2, b);
    lemma_status_byte_roundtrip(m2.status);
    lemma_mandate_parse_unique(m1, m2, b);
}

/// Parses the 187-byte image of a mandate record.
///
/// Exactly the canonical images of well-formed records are accepted: for
/// every well-formed record `m`, bytes equal to `spec_serialize_mandate(m)`
/// parse to `Some(m)`, and anything accepted serializes back to the input.
pub fn deserialize_mandate(b: &Vec<u8>) -> (r: Option<MandateAccount>)
    ensures
        r matches Some(m) ==> m.wf() && b@ == spec_serialize_mandate(m),
        forall|m: MandateAccount| m.wf() && b@ == spec_serialize_mandate(m) ==> r == Some(m),
{
    proof {
        lemma_auto_spec_u64_to_from_le_bytes();
    }
    if b.len() != MANDATE_ACCOUNT_SPACE {
        proof {
            assert forall|m: MandateAccount| !(m.wf() && b@ == spec_serialize_mandate(m)) by {
                if b@ == spec_serialize_mandate(m) {
                    lemma_mandate_fields_from_bytes(m, b@);
                }
            }
        }
        return None;
    }
    let disc = read_u64_le(b, 0);
    let bump = b[8];
    let agent_id_hash = read_bytes32(b, 9);
    let user_authority = read_bytes32(b, 41);
    let mandate_type = b[73];
    let status_b = b[74];
    let created_at = read_i64_le(b, 75);
    let expires_at = read_i64_le(b, 83);
    let context_hash = read_bytes32(b, 91);
    let revalidation_threshold = read_i64_le(b, 123);
    let execution_count = read_u64_le(b, 131);
    let max_executions = read_u64_le(b, 139);
    let mandate_state_root = read_bytes32(b, 147);
    let updated_at = read_i64_le(b, 179);
    let parsed_status = status_from_byte(status_b);
    let well_shaped = disc == MANDATE_ACCOUNT_TAG && (mandate_type == crate::mandate::MANDATE_TYPE_INTENT
        || mandate_type == crate::mandate::MANDATE_TYPE_CART) && parsed_status.is_some();
    let well_formed = well_shaped && created_at >= 0 && expires_at >= 0
        && revalidation_threshold >= 0 && (revalidation_threshold == 0 || created_at
        < revalidation_threshold) && (max_executions == 0 || execution_count <= max_executions);
    if !well_formed {
        proof {
            assert forall|m: MandateAccount| !(m.wf() && b@ == spec_serialize_mandate(m)) by {
                if m.wf() && b@ == spec_serialize_mandate(m) {
                    lemma_mandate_fields_from_bytes(m, b@);
                    lemma_status_byte_roundtrip(m.status);
                }
            }
        }
        return None;
    }
    let status = match parsed_status {
        Some(s) => s,
        None => {
            return None;
        },
    };
    let candidate = MandateAccount {
        bump,
        agent_id_hash,
        user_authority,
        mandate_type,
        status,
        created_at,
        expires_at,
        context_hash,
        revalidation_threshold,
        execution_count,
        max_executions,
        mandate_state_root,
        updated_at,
    };
    let ser = serialize_mandate(&candidate);
    if !bytes_eq_vec(&ser, b) {
        proof {
            assert forall|m: MandateAccount| !(m.wf() && b@ == spec_serialize_mandate(m)) by {
                if m.wf() && b@ == spec_serialize_mandate(m) {
                    lemma_mandate_parse_unique(m, candidate, b@);
                }
            }
        }
        return None;
    }
    proof {
        assert forall|m: MandateAccount|
            m.wf() && b@ == spec_serialize_mandate(m) implies Some(candidate) == Some(m) by {
            lemma_mandate_parse_unique(m, candidate, b@);
        }
    }
    Some(candidate)
}

/// Where each byte of the image of a feedback authorization record comes
/// from.
#[verifier::spinoff_prover]
#[verifier::rlimit(100)]
proof fn lemma_feedback_fields_from_bytes(f: FeedbackAuthorization, b: Seq<u8>)
    requires
        b == spec_serialize_feedback(f),
    ensures
        b.len() == 93,
        spec_u64_from_le_bytes(b.subrange(0, 8)) == FEEDBACK_AUTHORIZATION_TAG,
        b[8] == f.bump,
        b.subrange(9, 41) == f.agent_id_hash@,
        b.subrange(41, 73) == f.client@,
        spec_u16_from_le_bytes(b.subrange(73, 75)) == f.max_submissions,
        spec_u16_from_le_bytes(b.subrange(75, 77)) == f.submissions_used,
        spec_i64_from_le_bytes(b.subrange(77, 85)) == f.expires_at,
        spec_i64_from_le_bytes(b.subrange(85, 93)) == f.created_at,
{
    lemma_auto_spec_u64_to_from_le_bytes();
    lemma_auto_spec_u16_to_from_le_bytes();
    lemma_i64_le_bytes_roundtrip(f.expires_at);
    lemma_i64_le_bytes_roundtrip(f.created_at);
    assert(b.subrange(0, 8) =~= spec_u64_to_le_bytes(FEEDBACK_AUTHORIZATION_TAG));
    assert(b.subrange(9, 41) =~= f.agent_id_hash@);
    assert(b.subrange(41, 73) =~= f.client@);
    assert(b.subrange(73, 75) =~= spec_u16_to_le_bytes(f.max_submissions));
    assert(b.subrange(75, 77) =~= spec_u16_to_le_bytes(f.submissions_used));
    assert(b.subrange(77, 85) =~= spec_i64_to_le_bytes(f.expires_at));
    assert(b.subrange(85, 93) =~= spec_i64_to_le_bytes(f.created_at));
}

/// A record that parses back out of the image of `f` field by field equals
/// `f`: the byte layout pins every field.
proof fn lemma_feedback_parse_unique(f: FeedbackAuthorization, c: FeedbackAuthorization, b: Seq<u8>)
    requires
        b == spec_serialize_feedback(f),
        c.bump == b[8],
        c.agent_id_hash@ == b.subrange(9, 41),
        c.client@ == b.subrange(41, 73),
        c.max_submissions == spec_u16_from_le_bytes(b.subrange(73, 75)),
        c.submissions_used == spec_u16_from_le_bytes(b.subrange(75, 77)),
        c.expires_at == spec_i64_from_le_bytes(b.subrange(77, 85)),
        c.created_at == spec_i64_from_le_bytes(b.subrange(85, 93)),
    ensures
        c == f,
{
    lemma_feedback_fields_from_bytes(f, b);
    lemma_bytes32_from_view(c.agent_id_hash, f.agent_id_hash);
    lemma_bytes32_from_view(c.client, f.client);
}

/// Serialization of feedback authorization records is injective: two
/// records with the same byte image are the same record.
pub proof fn lemma_serialize_feedback_injective(
    f1: FeedbackAuthorization,
    f2: FeedbackAuthorization,
)
    requires
        spec_serialize_feedback(f1) == spec_serialize_feedback(f2),
    ensures
        f1 == f2,
{
    let b = spec_serialize_feedback(f1);
    lemma_feedback_fields_from_bytes(f2, b);
    lemma_feedback_parse_unique(f1, f2, b);
}

/// Parses the 93-byte image of a feedback authorization record.
///
/// Exactly the canonical images of well-formed records are accepted: for
/// every well-formed record `f`, bytes equal to `spec_serialize_feedback(f)`
/// parse to `Some(f)`, and anything accepted serializes back to the input.
pub fn deserialize_feedback(b: &Vec<u8>) -> (r: Option<FeedbackAuthorization>)
    ensures
        r matches Some(f) ==> f.wf() && b@ == spec_serialize_feedback(f),
        forall|f: FeedbackAuthorization| f.wf() && b@ == spec_serialize_feedback(f) ==> r == Some(
            f,
        ),
{
    proof {
        lemma_auto_spec_u64_to_from_le_bytes();
        lemma_auto_spec_u16_to_from_le_bytes();
    }
    if b.len() != FEEDBACK_AUTHORIZATION_SPACE {
        proof {
            assert forall|f: FeedbackAuthorization|
                !(f.wf() && b@ == spec_serialize_feedback(f)) by {
                if b@ == spec_serialize_feedback(f) {
                    lemma_feedback_fields_from_bytes(f, b@);
                }
            }
        }
        return None;
    }
    let disc = read_u64_le(b, 0);
    let bump = b[8];
    let agent_id_hash = read_bytes32(b, 9);
    let client = read_bytes32(b, 41);
    let max_submissions = read_u16_le(b, 73);
    let submissions_used = read_u16_le(b, 75);
    let expires_at = read_i64_le(b, 77);
    let created_at = read_i64_le(b, 85);
    let well_formed = disc == FEEDBACK_AUTHORIZATION_TAG && submissions_used <= max_submissions
        && created_at >= 0 && expires_at >= 0;
    if !well_formed {
        proof {
            assert forall|f: FeedbackAuthorization|
                !(f.wf() && b@ == spec_serialize_feedback(f)) by {
                if f.wf() && b@ == spec_serialize_feedback(f) {
                    lemma_feedback_fields_from_bytes(f, b@);
                }
            }
        }
        return None;
    }
    let candidate = FeedbackAuthorization {
        bump,
        agent_id_hash,
        client,
        max_submissions,
        submissions_used,
        expires_at,
        created_at,
    };
    let ser = serialize_feedback(&candidate);
    if !bytes_eq_vec(&ser, b) {
        proof {
            assert forall|f: FeedbackAuthorization|
                !(f.wf() && b@ == spec_serialize_feedback(f)) by {
                if f.wf() && b@ == spec_serialize_feedback(f) {
                    lemma_feedback_parse_unique(f, candidate, b@);
                }
            }
        }
        return None;
    }
    proof {
        assert forall|f: FeedbackAuthorization|
            f.wf() && b@ == spec_serialize_feedback(f) implies Some(candidate) == Some(f) by {
            lemma_feedback_parse_unique(f, candidate, b@);
        }
    }
    Some(candidate)
}

} // verus!

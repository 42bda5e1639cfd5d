//! The fixed-size byte layout of the two stored record types:
//! Configuration = three 32-byte identities, two 8-byte little-endian
//! counters and one nonce byte; Claim = two 32-byte identities, the
//! 32-byte proof hash, one boolean byte and one nonce byte. There is
//! no versioning field; a record is exactly its fields, in order.

use vstd::prelude::*;
use vstd::bytes::{lemma_auto_spec_u64_to_from_le_bytes, spec_u64_to_le_bytes, u64_from_le_bytes, u64_to_le_bytes};
use vstd::slice::slice_subrange;
use crate::claim::Claim;
use crate::config::Config;
use crate::identity::Identity;

verus! {

broadcast use vstd::array::group_array_axioms;

/// The stored bytes of a configuration record.
pub open spec fn config_record_bytes(c: Config) -> Seq<u8> {
    c.admin.bytes@ + c.verifier.bytes@ + c.forbidden_program.bytes@ + spec_u64_to_le_bytes(
        c.start_slot,
    ) + spec_u64_to_le_bytes(c.end_slot) + seq![c.bump]
}

/// The stored bytes of a claim record.
pub open spec fn claim_record_bytes(c: Claim) -> Seq<u8> {
    c.user.bytes@ + c.config.bytes@ + c.proof_hash@ + seq![(if c.claimed {
        1u8
    } else {
        0u8
    })] + seq![c.bump]
}

/// Appends the 32 bytes of `b` to `out`.
fn push_bytes32(out: &mut Vec<u8>, b: &[u8; 32])
    ensures
        final(out)@ == old(out)@ + b@,
{
    let ghost start = out@;
    let mut j: usize = 0;
    while j < 32
        invariant
            out@ == start + b@.subrange(0, j as int),
            0 <= j <= 32,
        decreases 32 - j,
    {
        out.push(b[j]);
        proof {
            assert(out@ =~= start + b@.subrange(0, j as int + 1));
        }
        j = j + 1;
    }
    proof {
        assert(b@.subrange(0, 32) =~= b@);
    }
}

/// Reads the 32 bytes at `off` as an identity.
fn read_identity(bytes: &[u8], off: usize) -> (r: Identity)
    requires
        off + 32 <= bytes@.len(),
    ensures
        r.bytes@ == bytes@.subrange(off as int, off as int + 32),
{
    let n = bytes.len();
    let mut a: [u8; 32] = [0u8; 32];
    let mut j: usize = 0;
    while j < 32
        invariant
            n == bytes@.len(),
            off + 32 <= n,
            0 <= j <= 32,
            a@.len() == 32,
            forall|i: int| 0 <= i < j ==> a@[i] == bytes@[off + i],
        decreases 32 - j,
    {
        a[j] = bytes[off + j];
        j = j + 1;
    }
    proof {
        assert(a@ =~= bytes@.subrange(off as int, off as int + 32));
    }
    Identity { bytes: a }
}

/// Serializes a configuration record into its stored form.
pub fn encode_config(c: &Config) -> (r: Vec<u8>)
    ensures
        r@ == config_record_bytes(*c),
        r@.len() == Config::SIZE,
{
    let mut r: Vec<u8> = Vec::new();
    push_bytes32(&mut r, &c.admin.bytes);
    push_bytes32(&mut r, &c.verifier.bytes);
    push_bytes32(&mut r, &c.forbidden_program.bytes);
    let mut start = u64_to_le_bytes(c.start_slot);
    r.append(&mut start);
    let mut end = u64_to_le_bytes(c.end_slot);
    r.append(&mut end);
    r.push(c.bump);
    proof {
        assert(r@ =~= config_record_bytes(*c));
    }
    r
}

/// Serializes a claim record into its stored form.
pub fn encode_claim(c: &Claim) -> (r: Vec<u8>)
    ensures
        r@ == claim_record_bytes(*c),
        r@.len() == Claim::SIZE,
{
    let mut r: Vec<u8> = Vec::new();
    push_bytes32(&mut r, &c.user.bytes);
    push_bytes32(&mut r, &c.config.bytes);
    push_bytes32(&mut r, &c.proof_hash);
    if c.claimed {
        r.push(1u8);
    } else {
        r.push(0u8);
    }
    r.push(c.bump);
    proof {
        assert(r@ =~= claim_record_bytes(*c));
    }
    r
}

/// Deserializes a configuration record. Succeeds exactly on inputs of
/// the record's fixed size, and then returns the one configuration
/// whose stored form is the input (unique by
/// `lemma_config_record_bytes_injective`).
pub fn decode_config(bytes: &[u8]) -> (r: Option<Config>)
    ensures
        r is Some <==> bytes@.len() == Config::SIZE,
        r is Some ==> config_record_bytes(r->Some_0) == bytes@,
{
    if bytes.len() != 113 {
        return None;
    }
    let admin = read_identity(bytes, 0);
    let verifier = read_identity(bytes, 32);
    let forbidden_program = read_identity(bytes, 64);
    let start_slot = u64_from_le_bytes(slice_subrange(bytes, 96, 104));
    let end_slot = u64_from_le_bytes(slice_subrange(bytes, 104, 112));
    let bump = bytes[112];
    let c = Config { admin, verifier, forbidden_program, start_slot, end_slot, bump };
    proof {
        lemma_auto_spec_u64_to_from_le_bytes();
        assert(config_record_bytes(c) =~= bytes@);
    }
    Some(c)
}

/// Deserializes a claim record. Succeeds exactly on inputs of the
/// record's fixed size whose boolean byte is 0 or 1, and then returns
/// the one claim whose stored form is the input (unique by
/// `lemma_claim_record_bytes_injective`).
pub fn decode_claim(bytes: &[u8]) -> (r: Option<Claim>)
    ensures
        r is Some <==> (bytes@.len() == Claim::SIZE && (bytes@[96] == 0 || bytes@[96] == 1)),
        r is Some ==> claim_record_bytes(r->Some_0) == bytes@,
{
    if bytes.len() != 98 {
        return None;
    }
    let flag = bytes[96];
    if flag != 0 && flag != 1 {
        return None;
    }
    let user = read_identity(bytes, 0);
    let config = read_identity(bytes, 32);
    let proof_hash = read_identity(bytes, 64).bytes;
    let claimed = flag == 1;
    let bump = bytes[97];
    let c = Claim { user, config, proof_hash, claimed, bump };
    proof {
        assert(claim_record_bytes(c) =~= bytes@);
    }
    Some(c)
}

/// Two identities with equal byte views are the same identity.
proof fn lemma_identity_from_bytes(a: Identity, b: Identity)
    requires
        a.bytes@ == b.bytes@,
    ensures
        a == b,
{
    assert(a.bytes =~= b.bytes);
    assert(a =~= b);
}

/// The configuration layout is injective: equal stored bytes mean
/// equal records, so a stored configuration deserializes to exactly
/// one record.
pub proof fn lemma_config_record_bytes_injective(c1: Config, c2: Config)
    requires
        config_record_bytes(c1) == config_record_bytes(c2),
    ensures
        c1 == c2,
{
    lemma_auto_spec_u64_to_from_le_bytes();
    let b1 = config_record_bytes(c1);
    let b2 = config_record_bytes(c2);
    assert(b1.subrange(0, 32) =~= c1.admin.bytes@);
    assert(b2.subrange(0, 32) =~= c2.admin.bytes@);
    assert(b1.subrange(32, 64) =~= c1.verifier.bytes@);
    assert(b2.subrange(32, 64) =~= c2.verifier.bytes@);
    assert(b1.subrange(64, 96) =~= c1.forbidden_program.bytes@);
    assert(b2.subrange(64, 96) =~= c2.forbidden_program.bytes@);
    assert(b1.subrange(96, 104) =~= spec_u64_to_le_bytes(c1.start_slot));
    assert(b2.subrange(96, 104) =~= spec_u64_to_le_bytes(c2.start_slot));
    assert(b1.subrange(104, 112) =~= spec_u64_to_le_bytes(c1.end_slot));
    assert(b2.subrange(104, 112) =~= spec_u64_to_le_bytes(c2.end_slot));
    lemma_identity_from_bytes(c1.admin, c2.admin);
    lemma_identity_from_bytes(c1.verifier, c2.verifier);
    lemma_identity_from_bytes(c1.forbidden_program, c2.forbidden_program);
    assert(b1[112] == c1.bump && b2[112] == c2.bump);
    assert(c1 =~= c2);
}

/// The claim layout is injective: equal stored bytes mean equal
/// records, so a stored claim deserializes to exactly one record.
pub proof fn lemma_claim_record_bytes_injective(c1: Claim, c2: Claim)
    requires
        claim_record_bytes(c1) == claim_record_bytes(c2),
    ensures
        c1 == c2,
{
    let b1 = claim_record_bytes(c1);
    let b2 = claim_record_bytes(c2);
    assert(b1.subrange(0, 32) =~= c1.user.bytes@);
    assert(b2.subrange(0, 32) =~= c2.user.bytes@);
    assert(b1.subrange(32, 64) =~= c1.config.bytes@);
    assert(b2.subrange(32, 64) =~= c2.config.bytes@);
    assert(b1.subrange(64, 96) =~= c1.proof_hash@);
    assert(b2.subrange(64, 96) =~= c2.proof_hash@);
    lemma_identity_from_bytes(c1.user, c2.user);
    lemma_identity_from_bytes(c1.config, c2.config);
    assert(c1.proof_hash =~= c2.proof_hash);
    assert(b1[96] == (if c1.claimed {
        1u8
    } else {
        0u8
    }));
    assert(b2[96] == (if c2.claimed {
        1u8
    } else {
        0u8
    }));
    assert(b1[97] == c1.bump && b2[97] == c2.bump);
    assert(c1 =~= c2);
}

} // verus!

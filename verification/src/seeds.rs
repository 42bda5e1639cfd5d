//! Deterministic address derivation. The host ledger turns an ordered
//! sequence of byte-string seeds plus a nonce byte into a storage
//! address, collision-checked; this module fixes the exact seed
//! sequences for the three record families and proves them
//! collision-free: distinct derivation tuples never share a seed
//! sequence, within a family or across families.

use vstd::prelude::*;
use vstd::bytes::{lemma_auto_spec_u64_to_from_le_bytes, spec_u64_to_le_bytes, u64_to_le_bytes};
use vstd::slice::slice_to_vec;
use crate::claim::ClaimKey;
use crate::identity::Identity;

verus! {

broadcast use vstd::array::group_array_axioms;

/// The label seed of configuration records.
pub open spec fn config_label() -> Seq<u8> {
    seq![99u8, 111u8, 110u8, 102u8, 105u8, 103u8]
}

/// The label seed of claim records.
pub open spec fn claim_label() -> Seq<u8> {
    seq![99u8, 108u8, 97u8, 105u8, 109u8]
}

/// The label seed of the derived mint authority.
pub open spec fn mint_auth_label() -> Seq<u8> {
    seq![109u8, 105u8, 110u8, 116u8, 95u8, 97u8, 117u8, 116u8, 104u8]
}

/// Seeds of the configuration record owned by `admin`: one record per
/// administrator.
pub open spec fn config_seeds(admin: Identity) -> Seq<Seq<u8>> {
    seq![config_label(), admin.bytes@]
}

/// Seeds of the claim record for `key`: the configuration address, the
/// user, both window bounds and the forbidden-program tag all feed the
/// address, so a claim is scoped to one window instance.
pub open spec fn claim_seeds(key: ClaimKey) -> Seq<Seq<u8>> {
    seq![
        claim_label(),
        key.config.bytes@,
        key.user.bytes@,
        spec_u64_to_le_bytes(key.start_slot),
        spec_u64_to_le_bytes(key.end_slot),
        key.forbidden_program.bytes@,
    ]
}

/// Seeds of the keyless mint authority of the configuration stored at
/// `config`: derived from the configuration address alone.
pub open spec fn mint_authority_seeds(config: Identity) -> Seq<Seq<u8>> {
    seq![mint_auth_label(), config.bytes@]
}

/// Two identities with equal byte views are the same identity.
proof fn lemma_identity_bytes_injective(a: Identity, b: Identity)
    requires
        a.bytes@ == b.bytes@,
    ensures
        a == b,
{
    assert(a.bytes =~= b.bytes);
    assert(a =~= b);
}

/// Within the claim family, address derivation is injective: two claim
/// keys with the same seed sequence are the same key. Hence distinct
/// (config, user, window, forbidden-program) tuples can never collide
/// on one storage address.
pub proof fn lemma_claim_seeds_injective(k1: ClaimKey, k2: ClaimKey)
    requires
        claim_seeds(k1) == claim_seeds(k2),
    ensures
        k1 == k2,
{
    assert(claim_seeds(k1)[1] == claim_seeds(k2)[1]);
    assert(claim_seeds(k1)[2] == claim_seeds(k2)[2]);
    assert(claim_seeds(k1)[3] == claim_seeds(k2)[3]);
    assert(claim_seeds(k1)[4] == claim_seeds(k2)[4]);
    assert(claim_seeds(k1)[5] == claim_seeds(k2)[5]);
    lemma_identity_bytes_injective(k1.config, k2.config);
    lemma_identity_bytes_injective(k1.user, k2.user);
    lemma_identity_bytes_injective(k1.forbidden_program, k2.forbidden_program);
    lemma_auto_spec_u64_to_from_le_bytes();
    assert(k1.start_slot == k2.start_slot);
    assert(k1.end_slot == k2.end_slot);
    assert(k1 =~= k2);
}

/// Within the configuration family, derivation is injective: one
/// record per administrator.
pub proof fn lemma_config_seeds_injective(a1: Identity, a2: Identity)
    requires
        config_seeds(a1) == config_seeds(a2),
    ensures
        a1 == a2,
{
    assert(config_seeds(a1)[1] == config_seeds(a2)[1]);
    lemma_identity_bytes_injective(a1, a2);
}

/// The mint authority of a configuration is determined by, and only
/// by, that configuration's address.
pub proof fn lemma_mint_authority_seeds_injective(c1: Identity, c2: Identity)
    requires
        mint_authority_seeds(c1) == mint_authority_seeds(c2),
    ensures
        c1 == c2,
{
    assert(mint_authority_seeds(c1)[1] == mint_authority_seeds(c2)[1]);
    lemma_identity_bytes_injective(c1, c2);
}

/// The three record families can never collide with one another: their
/// label seeds differ, so no configuration record, claim record or
/// mint authority shares a seed sequence with a record of another
/// family.
pub proof fn lemma_seed_families_disjoint(admin: Identity, key: ClaimKey, config: Identity)
    ensures
        config_seeds(admin) != claim_seeds(key),
        config_seeds(admin) != mint_authority_seeds(config),
        claim_seeds(key) != mint_authority_seeds(config),
{
    assert(config_seeds(admin)[0].len() == 6);
    assert(claim_seeds(key)[0].len() == 5);
    assert(mint_authority_seeds(config)[0].len() == 9);
}

/// Builds the seed sequence of the configuration record owned by
/// `admin`, exactly as the host ledger expects it.
pub fn config_seed_bytes(admin: &Identity) -> (r: Vec<Vec<u8>>)
    ensures
        r.deep_view() == config_seeds(*admin),
{
    let label: Vec<u8> = vec![99u8, 111u8, 110u8, 102u8, 105u8, 103u8];
    let mut r: Vec<Vec<u8>> = Vec::new();
    r.push(label);
    r.push(slice_to_vec(admin.bytes.as_slice()));
    proof {
        assert(r.deep_view() =~~= config_seeds(*admin));
    }
    r
}

/// Builds the seed sequence of the claim record for `key`, exactly as
/// the host ledger expects it.
pub fn claim_seed_bytes(key: &ClaimKey) -> (r: Vec<Vec<u8>>)
    ensures
        r.deep_view() == claim_seeds(*key),
{
    let label: Vec<u8> = vec![99u8, 108u8, 97u8, 105u8, 109u8];
    let mut r: Vec<Vec<u8>> = Vec::new();
    r.push(label);
    r.push(slice_to_vec(key.config.bytes.as_slice()));
    r.push(slice_to_vec(key.user.bytes.as_slice()));
    r.push(u64_to_le_bytes(key.start_slot));
    r.push(u64_to_le_bytes(key.end_slot));
    r.push(slice_to_vec(key.forbidden_program.bytes.as_slice()));
    proof {
        assert(r.deep_view() =~~= claim_seeds(*key));
    }
    r
}

/// Builds the seed sequence of the mint authority of the configuration
/// stored at `config`, exactly as the host ledger expects it.
pub fn mint_authority_seed_bytes(config: &Identity) -> (r: Vec<Vec<u8>>)
    ensures
        r.deep_view() == mint_authority_seeds(*config),
{
    let label: Vec<u8> = vec![109u8, 105u8, 110u8, 116u8, 95u8, 97u8, 117u8, 116u8, 104u8];
    let mut r: Vec<Vec<u8>> = Vec::new();
    r.push(label);
    r.push(slice_to_vec(config.bytes.as_slice()));
    proof {
        assert(r.deep_view() =~~= mint_authority_seeds(*config));
    }
    r
}

} // verus!

//! The claim record — the permanent proof that one redemption happened
//! — and the derivation key that determines its storage address.

use vstd::prelude::*;
use crate::identity::Identity;

verus! {

/// The permanent record of one redemption. Created exactly once per
/// derivation key; never mutated or deleted afterwards.
#[derive(Clone, Copy, Debug)]
#[verifier::ext_equal]
pub struct Claim {
    /// The redeeming user; immutable once set.
    pub user: Identity,
    /// The address of the configuration this claim was issued under.
    pub config: Identity,
    /// Opaque 32-byte value recorded for audit; the verifier's
    /// co-signature, not this value, is the trust anchor.
    pub proof_hash: [u8; 32],
    /// Always true once the record exists; the record's existence is
    /// the real guard.
    pub claimed: bool,
    /// The nonce byte needed to reproduce the record's derived address.
    pub bump: u8,
}

impl Claim {
    /// Stored size in bytes: two identities, the hash, one boolean
    /// byte, one nonce byte.
    pub const SIZE: usize = 32 + 32 + 32 + 1 + 1;
}

/// The tuple that determines a claim record's storage address. Two
/// claims collide exactly when every field agrees; a configuration
/// whose window or forbidden-program tag changed yields a fresh key
/// for the same user.
#[derive(Clone, Copy, Debug)]
#[verifier::ext_equal]
pub struct ClaimKey {
    /// Address of the configuration the claim is made under.
    pub config: Identity,
    /// The redeeming user.
    pub user: Identity,
    /// The configuration's window start at claim time.
    pub start_slot: u64,
    /// The configuration's window end at claim time.
    pub end_slot: u64,
    /// The configuration's forbidden-program tag at claim time.
    pub forbidden_program: Identity,
}

impl PartialEq for ClaimKey {
    /// Field-for-field comparison.
    fn eq(&self, other: &ClaimKey) -> (r: bool)
        ensures
            r == (*self == *other),
    {
        let r = self.config == other.config && self.user == other.user && self.start_slot
            == other.start_slot && self.end_slot == other.end_slot && self.forbidden_program
            == other.forbidden_program;
        proof {
            if r {
                assert(*self =~= *other);
            }
        }
        r
    }
}

impl vstd::std_specs::cmp::PartialEqSpecImpl for ClaimKey {
    open spec fn obeys_eq_spec() -> bool {
        true
    }

    open spec fn eq_spec(&self, other: &ClaimKey) -> bool {
        *self == *other
    }
}

} // verus!

//! The configuration record: the administrator-owned policy that every
//! claim is validated against.

use vstd::prelude::*;
use crate::identity::Identity;

verus! {

/// One administrator's policy record, stored at the address derived
/// from the administrator's identity. `admin` and `verifier` are fixed
/// for the record's whole life; only the forbidden-program tag and the
/// window may later change.
#[derive(Clone, Copy, Debug)]
#[verifier::ext_equal]
pub struct Config {
    /// The identity that created the record and alone may mutate it.
    pub admin: Identity,
    /// The identity whose co-signature authorizes a claim.
    pub verifier: Identity,
    /// A namespace tag fed into claim-address derivation; never
    /// validated against anything at claim time.
    pub forbidden_program: Identity,
    /// Start of the half-open validity window, in slots.
    pub start_slot: u64,
    /// End of the half-open validity window, in slots.
    pub end_slot: u64,
    /// The nonce byte recorded at creation, needed to reproduce the
    /// record's derived address.
    pub bump: u8,
}

impl Config {
    /// Stored size in bytes: three identities, two slot counters, one
    /// nonce byte.
    pub const SIZE: usize = 32 + 32 + 32 + 8 + 8 + 1;

    /// Well-formedness: the validity window is non-empty, enforced at
    /// creation and at every update.
    pub open spec fn wf(self) -> bool {
        self.start_slot < self.end_slot
    }
}

} // verus!

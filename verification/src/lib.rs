//! An on-ledger authorization core: an administrator records a policy
//! (a verifier identity, a forbidden-program tag and a half-open slot
//! window), and a user may redeem a single one-unit award once the
//! verifier co-signs a proof hash.  Replay protection rests entirely on
//! deterministic, collision-free record addressing together with the
//! host ledger's atomic allocate-if-absent primitive, both of which are
//! modelled and proved here.

pub mod claim;
pub mod config;
pub mod errors;
pub mod identity;
pub mod laws;
pub mod layout;
pub mod ledger;
pub mod seeds;
pub mod store;

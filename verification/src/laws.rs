//! The global guarantees of the protocol, proved once and for all over
//! the ledger model.

use vstd::prelude::*;
use crate::claim::ClaimKey;
use crate::identity::Identity;
use crate::ledger::Ledger;
use crate::store::{lemma_lookup_append, lemma_lookup_finds_entry};

verus! {

/// Every stored configuration is valid: it sits at the address derived
/// from its own administrator, and its validity window is non-empty —
/// a window with `start_slot >= end_slot` can never be stored, since
/// both `initialize` and `update_context` reject it.
pub proof fn lemma_stored_config_valid(l: Ledger, addr: Identity)
    requires
        l.wf(),
        l.has_config(addr),
    ensures
        l.config_at(addr).admin == addr,
        l.config_at(addr).start_slot < l.config_at(addr).end_slot,
{
    lemma_lookup_finds_entry(l.configs@, addr);
}

/// Every stored claim record agrees with the derivation key it is
/// stored under and is marked claimed: a record retrieved at the
/// derived address names exactly the user and configuration of that
/// address, and its existence means the redemption happened.
pub proof fn lemma_stored_claim_consistent(l: Ledger, key: ClaimKey)
    requires
        l.wf(),
        l.has_claim(key),
    ensures
        l.claim_of(key)->Some_0.user == key.user,
        l.claim_of(key)->Some_0.config == key.config,
        l.claim_of(key)->Some_0.claimed,
{
    lemma_lookup_finds_entry(l.claims@, key);
}

/// A claim record is permanent: once a claim exists under `key`, it
/// still exists, unchanged, in every later ledger state (the store
/// only ever grows, which every handler's contract states as a prefix
/// relation on the claim records).
///
/// Read together with `verify_and_award`'s contract — which succeeds
/// exactly when the derived key is still free and fails with
/// `AlreadyClaimed` whenever it is occupied — this is the
/// replay-prevention law: for a fixed (config, user, window,
/// forbidden-program) tuple, at most one call ever succeeds, and every
/// later call on the identical tuple fails with `AlreadyClaimed`.
pub proof fn lemma_claim_record_permanent(pre: Ledger, post: Ledger, key: ClaimKey)
    requires
        pre.claims@.is_prefix_of(post.claims@),
        pre.has_claim(key),
    ensures
        post.has_claim(key),
        post.claim_of(key) == pre.claim_of(key),
{
    let n = pre.claims@.len() as int;
    assert(post.claims@ =~= pre.claims@ + post.claims@.skip(n));
    lemma_lookup_append(pre.claims@, post.claims@.skip(n), key);
}

} // verus!

//! The protocol core: a model of the host ledger's record store
//! together with the three state-transition handlers — `initialize`,
//! `update_context` and `verify_and_award`. Each call is atomic:
//! either every validation passes and the whole effect happens, or the
//! call returns a named error and the state is left untouched.

use vstd::prelude::*;
use crate::claim::{Claim, ClaimKey};
use crate::config::Config;
use crate::errors::AbsentError;
use crate::identity::Identity;
use crate::store::{
    contains_key, lemma_lookup_push, lemma_lookup_update_first, lookup,
};

verus! {

/// The derivation key of the claim record that `user` would create
/// under the configuration `cfg` stored at `config_addr`, with the
/// window and forbidden-program tag taken at current read time.
pub open spec fn claim_key_for(config_addr: Identity, cfg: Config, user: Identity) -> ClaimKey {
    ClaimKey {
        config: config_addr,
        user: user,
        start_slot: cfg.start_slot,
        end_slot: cfg.end_slot,
        forbidden_program: cfg.forbidden_program,
    }
}

/// One successful mint call handed to the fungible-token service:
/// `amount` units of a fresh award asset, credited to `user`'s
/// designated account, authorized by the keyless authority derived
/// from `config`.
#[derive(Clone, Copy, Debug)]
#[verifier::ext_equal]
pub struct Award {
    /// The account credited.
    pub user: Identity,
    /// The configuration address whose derived authority signed.
    pub config: Identity,
    /// Units credited; always exactly one.
    pub amount: u64,
}

/// The accounts of one `initialize` call: the authenticated caller,
/// who becomes the administrator, and the nonce byte the host found
/// for the new record's address.
#[derive(Clone, Copy, Debug)]
pub struct Initialize {
    /// The authenticated caller; recorded as `admin`.
    pub admin: Identity,
    /// The address-derivation nonce chosen by the host.
    pub bump: u8,
}

/// The accounts of one `update_context` call: the authenticated
/// caller and the address of the configuration record to mutate.
#[derive(Clone, Copy, Debug)]
pub struct UpdateContext {
    /// The authenticated caller; must equal the record's `admin`.
    pub admin: Identity,
    /// Address of the target configuration record.
    pub config: Identity,
}

/// The accounts of one `verify_and_award` call.
#[derive(Clone, Copy, Debug)]
pub struct VerifyAndAward {
    /// The authenticated redeemer.
    pub user: Identity,
    /// The identity presented as the verifier.
    pub verifier: Identity,
    /// Whether the verifier supplied a valid signature for this call.
    pub verifier_signed: bool,
    /// Address of the configuration to claim under.
    pub config: Identity,
    /// The address-derivation nonce of the new claim record.
    pub claim_bump: u8,
}

/// The model of the host ledger: configuration records keyed by their
/// derived address (a function of the administrator's identity alone),
/// claim records keyed by their derivation tuple, and the trace of
/// mint calls issued so far. Allocation order is kept; records are
/// never displaced or deleted.
pub struct Ledger {
    /// Configuration records, in allocation order.
    pub configs: Vec<(Identity, Config)>,
    /// Claim records, in allocation order.
    pub claims: Vec<(ClaimKey, Claim)>,
    /// Every mint call issued, in order.
    pub awards: Vec<Award>,
}

impl Ledger {
    /// The configuration record stored at `addr`, if any.
    pub open spec fn config_of(self, addr: Identity) -> Option<Config> {
        lookup(self.configs@, addr)
    }

    /// Whether a configuration record occupies `addr`.
    pub open spec fn has_config(self, addr: Identity) -> bool {
        contains_key(self.configs@, addr)
    }

    /// The configuration record stored at `addr`.
    pub open spec fn config_at(self, addr: Identity) -> Config
        recommends
            self.has_config(addr),
    {
        self.config_of(addr)->Some_0
    }

    /// The claim record stored under `key`, if any.
    pub open spec fn claim_of(self, key: ClaimKey) -> Option<Claim> {
        lookup(self.claims@, key)
    }

    /// Whether a claim record occupies the address derived from `key`.
    pub open spec fn has_claim(self, key: ClaimKey) -> bool {
        contains_key(self.claims@, key)
    }

    /// The derivation key a claim by `user` under the configuration at
    /// `addr` would use right now.
    pub open spec fn claim_key_of(self, addr: Identity, user: Identity) -> ClaimKey
        recommends
            self.has_config(addr),
    {
        claim_key_for(addr, self.config_at(addr), user)
    }

    /// How many units of award asset have been credited to `user`'s
    /// designated account over the ledger's whole history (under
    /// well-formedness every mint call credited exactly one unit).
    pub open spec fn units_credited(self, user: Identity) -> nat {
        self.awards@.filter(|a: Award| a.user == user).len()
    }

    /// Well-formedness, established at creation and preserved by every
    /// handler: each configuration sits at the address derived from
    /// its administrator and has a non-empty window; each claim record
    /// agrees with its derivation key and is marked claimed; every
    /// mint call credited exactly one unit.
    pub open spec fn wf(self) -> bool {
        &&& forall|i: int|
            0 <= i < self.configs@.len() ==> {
                &&& (#[trigger] self.configs@[i]).1.admin == self.configs@[i].0
                &&& self.configs@[i].1.wf()
            }
        &&& forall|i: int|
            0 <= i < self.claims@.len() ==> {
                &&& (#[trigger] self.claims@[i]).1.user == self.claims@[i].0.user
                &&& self.claims@[i].1.config == self.claims@[i].0.config
                &&& self.claims@[i].1.claimed
            }
        &&& forall|i: int|
            0 <= i < self.awards@.len() ==> (#[trigger] self.awards@[i]).amount == 1
    }

    /// An empty ledger: no records, no mint calls.
    pub fn new() -> (r: Ledger)
        ensures
            r.wf(),
            r.configs@.len() == 0,
            r.claims@.len() == 0,
            r.awards@.len() == 0,
    {
        Ledger { configs: Vec::new(), claims: Vec::new(), awards: Vec::new() }
    }

    /// Position of the configuration record at `addr`, if one exists.
    #[verifier::loop_isolation(false)]
    fn find_config(&self, addr: &Identity) -> (r: Option<usize>)
        ensures
            match r {
                Some(i) => {
                    &&& i < self.configs@.len()
                    &&& self.configs@[i as int].0 == *addr
                    &&& forall|j: int| 0 <= j < i ==> self.configs@[j].0 != *addr
                    &&& self.config_of(*addr) == Some(self.configs@[i as int].1)
                },
                None => !self.has_config(*addr),
            },
    {
        let s = &self.configs;
        let n = s.len();
        let mut i: usize = 0;
        proof {
            assert(s@.skip(0) =~= s@);
        }
        while i < n
            invariant
                n == s@.len(),
                0 <= i <= n,
                forall|j: int| 0 <= j < i ==> s@[j].0 != *addr,
                lookup(s@, *addr) == lookup(s@.skip(i as int), *addr),
            decreases n - i,
        {
            proof {
                assert(s@.skip(i as int)[0] == s@[i as int]);
            }
            if s[i].0 == *addr {
                proof {
                    assert(lookup(s@.skip(i as int), *addr) == Some(s@[i as int].1));
                }
                return Some(i);
            }
            proof {
                assert(s@.skip(i as int).drop_first() =~= s@.skip(i as int + 1));
            }
            i = i + 1;
        }
        proof {
            assert(s@.skip(n as int) =~= Seq::<(Identity, Config)>::empty());
        }
        None
    }

    /// The configuration record stored at `addr`, if any.
    pub fn get_config(&self, addr: &Identity) -> (r: Option<Config>)
        ensures
            r == self.config_of(*addr),
    {
        match self.find_config(addr) {
            Some(i) => Some(self.configs[i].1),
            None => None,
        }
    }

    /// The claim record stored under `key`, if any.
    #[verifier::loop_isolation(false)]
    pub fn get_claim(&self, key: &ClaimKey) -> (r: Option<Claim>)
        ensures
            r == self.claim_of(*key),
    {
        let s = &self.claims;
        let n = s.len();
        let mut i: usize = 0;
        proof {
            assert(s@.skip(0) =~= s@);
        }
        while i < n
            invariant
                n == s@.len(),
                0 <= i <= n,
                lookup(s@, *key) == lookup(s@.skip(i as int), *key),
            decreases n - i,
        {
            proof {
                assert(s@.skip(i as int)[0] == s@[i as int]);
            }
            if s[i].0 == *key {
                proof {
                    assert(lookup(s@.skip(i as int), *key) == Some(s@[i as int].1));
                }
                return Some(s[i].1);
            }
            proof {
                assert(s@.skip(i as int).drop_first() =~= s@.skip(i as int + 1));
            }
            i = i + 1;
        }
        proof {
            assert(s@.skip(n as int) =~= Seq::<(ClaimKey, Claim)>::empty());
        }
        None
    }

    /// Creates the caller's configuration record. Fails with
    /// `InvalidContextWindow` on an empty window and with
    /// `DuplicateConfiguration` when the caller's derived address is
    /// already occupied; otherwise records the caller as `admin` and
    /// populates every field from the arguments.
    pub fn initialize(
        &mut self,
        accounts: Initialize,
        verifier: Identity,
        forbidden_program: Identity,
        start_slot: u64,
        end_slot: u64,
    ) -> (r: Result<(), AbsentError>)
        requires
            old(self).wf(),
        ensures
            final(self).wf(),
            final(self).claims@ == old(self).claims@,
            final(self).awards@ == old(self).awards@,
            r is Ok <==> (start_slot < end_slot && !old(self).has_config(accounts.admin)),
            start_slot >= end_slot ==> {
                &&& r == Err::<(), AbsentError>(AbsentError::InvalidContextWindow)
                &&& *final(self) == *old(self)
            },
            start_slot < end_slot && old(self).has_config(accounts.admin) ==> {
                &&& r == Err::<(), AbsentError>(AbsentError::DuplicateConfiguration)
                &&& *final(self) == *old(self)
            },
            r is Ok ==> {
                &&& final(self).configs@ == old(self).configs@.push(
                    (
                        accounts.admin,
                        (Config {
                            admin: accounts.admin,
                            verifier: verifier,
                            forbidden_program: forbidden_program,
                            start_slot: start_slot,
                            end_slot: end_slot,
                            bump: accounts.bump,
                        }),
                    ),
                )
                &&& final(self).config_of(accounts.admin) == Some(
                    (Config {
                        admin: accounts.admin,
                        verifier: verifier,
                        forbidden_program: forbidden_program,
                        start_slot: start_slot,
                        end_slot: end_slot,
                        bump: accounts.bump,
                    }),
                )
                &&& forall|a: Identity|
                    a != accounts.admin ==> final(self).config_of(a) == old(self).config_of(a)
            },
    {
        if start_slot >= end_slot {
            return Err(AbsentError::InvalidContextWindow);
        }
        if self.find_config(&accounts.admin).is_some() {
            return Err(AbsentError::DuplicateConfiguration);
        }
        let cfg = Config {
            admin: accounts.admin,
            verifier: verifier,
            forbidden_program: forbidden_program,
            start_slot: start_slot,
            end_slot: end_slot,
            bump: accounts.bump,
        };
        let ghost before = self.configs@;
        self.configs.push((accounts.admin, cfg));
        proof {
            assert forall|a: Identity| #[trigger]
                lookup(self.configs@, a) == (if a == accounts.admin {
                    Some(cfg)
                } else {
                    lookup(before, a)
                }) by {
                lemma_lookup_push(before, accounts.admin, cfg, a);
            }
        }
        Ok(())
    }

    /// Overwrites the window and forbidden-program tag of the target
    /// configuration, in place. Only the recorded `admin` may succeed;
    /// any other caller fails with `Unauthorized` and the record is
    /// left unchanged. `admin` and `verifier` are immutable by design:
    /// no call can change the trust root of an existing configuration.
    pub fn update_context(
        &mut self,
        accounts: UpdateContext,
        forbidden_program: Identity,
        start_slot: u64,
        end_slot: u64,
    ) -> (r: Result<(), AbsentError>)
        requires
            old(self).wf(),
            old(self).has_config(accounts.config),
        ensures
            final(self).wf(),
            final(self).claims@ == old(self).claims@,
            final(self).awards@ == old(self).awards@,
            r is Ok <==> (accounts.admin == old(self).config_at(accounts.config).admin
                && start_slot < end_slot),
            accounts.admin != old(self).config_at(accounts.config).admin ==> {
                &&& r == Err::<(), AbsentError>(AbsentError::Unauthorized)
                &&& *final(self) == *old(self)
            },
            accounts.admin == old(self).config_at(accounts.config).admin && start_slot
                >= end_slot ==> {
                &&& r == Err::<(), AbsentError>(AbsentError::InvalidContextWindow)
                &&& *final(self) == *old(self)
            },
            r is Ok ==> {
                &&& final(self).config_of(accounts.config) == Some(
                    (Config {
                        admin: old(self).config_at(accounts.config).admin,
                        verifier: old(self).config_at(accounts.config).verifier,
                        forbidden_program: forbidden_program,
                        start_slot: start_slot,
                        end_slot: end_slot,
                        bump: old(self).config_at(accounts.config).bump,
                    }),
                )
                &&& forall|a: Identity|
                    a != accounts.config ==> final(self).config_of(a) == old(self).config_of(a)
            },
    {
        let i = match self.find_config(&accounts.config) {
            Some(i) => i,
            None => {
                proof {
                    assert(false);
                }
                return Err(AbsentError::Unauthorized);
            },
        };
        let cfg = self.configs[i].1;
        if !(accounts.admin == cfg.admin) {
            return Err(AbsentError::Unauthorized);
        }
        if start_slot >= end_slot {
            return Err(AbsentError::InvalidContextWindow);
        }
        let updated = Config {
            admin: cfg.admin,
            verifier: cfg.verifier,
            forbidden_program: forbidden_program,
            start_slot: start_slot,
            end_slot: end_slot,
            bump: cfg.bump,
        };
        let ghost before = self.configs@;
        self.configs[i] = (accounts.config, updated);
        proof {
            assert(self.configs@ =~= before.update(i as int, (before[i as int].0, updated)));
            assert forall|a: Identity| #[trigger]
                lookup(self.configs@, a) == (if a == accounts.config {
                    Some(updated)
                } else {
                    lookup(before, a)
                }) by {
                lemma_lookup_update_first(before, i as int, updated, a);
            }
        }
        Ok(())
    }

    /// The claim protocol. Validates, in order: the presented verifier
    /// identity must equal the configuration's recorded verifier
    /// (`InvalidVerifier`); the verifier must actually have co-signed
    /// this call (`VerifierMustSign`); and the claim address derived
    /// from the configuration's current window and forbidden-program
    /// tag must be free (`AlreadyClaimed`). On success the claim
    /// record is allocated there, marked claimed, and exactly one unit
    /// of a fresh award asset is minted to the user under the
    /// authority derived from the configuration's address.
    pub fn verify_and_award(&mut self, accounts: VerifyAndAward, proof_hash: [u8; 32]) -> (r:
        Result<(), AbsentError>)
        requires
            old(self).wf(),
            old(self).has_config(accounts.config),
        ensures
            final(self).wf(),
            final(self).configs@ == old(self).configs@,
            old(self).claims@.is_prefix_of(final(self).claims@),
            r is Ok <==> (accounts.verifier == old(self).config_at(accounts.config).verifier
                && accounts.verifier_signed && !old(self).has_claim(
                old(self).claim_key_of(accounts.config, accounts.user),
            )),
            accounts.verifier != old(self).config_at(accounts.config).verifier ==> {
                &&& r == Err::<(), AbsentError>(AbsentError::InvalidVerifier)
                &&& *final(self) == *old(self)
            },
            accounts.verifier == old(self).config_at(accounts.config).verifier
                && !accounts.verifier_signed ==> {
                &&& r == Err::<(), AbsentError>(AbsentError::VerifierMustSign)
                &&& *final(self) == *old(self)
            },
            accounts.verifier == old(self).config_at(accounts.config).verifier
                && accounts.verifier_signed && old(self).has_claim(
                old(self).claim_key_of(accounts.config, accounts.user),
            ) ==> {
                &&& r == Err::<(), AbsentError>(AbsentError::AlreadyClaimed)
                &&& *final(self) == *old(self)
            },
            r is Ok ==> {
                &&& final(self).claims@ == old(self).claims@.push(
                    (
                        old(self).claim_key_of(accounts.config, accounts.user),
                        (Claim {
                            user: accounts.user,
                            config: accounts.config,
                            proof_hash: proof_hash,
                            claimed: true,
                            bump: accounts.claim_bump,
                        }),
                    ),
                )
                &&& final(self).claim_of(old(self).claim_key_of(accounts.config, accounts.user))
                    == Some(
                    (Claim {
                        user: accounts.user,
                        config: accounts.config,
                        proof_hash: proof_hash,
                        claimed: true,
                        bump: accounts.claim_bump,
                    }),
                )
                &&& forall|k: ClaimKey|
                    k != old(self).claim_key_of(accounts.config, accounts.user)
                        ==> final(self).claim_of(k) == old(self).claim_of(k)
                &&& final(self).awards@ == old(self).awards@.push(
                    (Award { user: accounts.user, config: accounts.config, amount: 1u64 }),
                )
                &&& final(self).units_credited(accounts.user)
                    == old(self).units_credited(accounts.user) + 1
                &&& forall|u: Identity|
                    u != accounts.user
                        ==> final(self).units_credited(u) == old(self).units_credited(u)
            },
    {
        let cfg = match self.get_config(&accounts.config) {
            Some(c) => c,
            None => {
                proof {
                    assert(false);
                }
                return Err(AbsentError::InvalidVerifier);
            },
        };
        if !(accounts.verifier == cfg.verifier) {
            return Err(AbsentError::InvalidVerifier);
        }
        if !accounts.verifier_signed {
            return Err(AbsentError::VerifierMustSign);
        }
        let key = ClaimKey {
            config: accounts.config,
            user: accounts.user,
            start_slot: cfg.start_slot,
            end_slot: cfg.end_slot,
            forbidden_program: cfg.forbidden_program,
        };
        if self.get_claim(&key).is_some() {
            return Err(AbsentError::AlreadyClaimed);
        }
        let claim = Claim {
            user: accounts.user,
            config: accounts.config,
            proof_hash: proof_hash,
            claimed: true,
            bump: accounts.claim_bump,
        };
        let ghost before = self.claims@;
        let ghost before_awards = self.awards@;
        self.claims.push((key, claim));
        let award = Award { user: accounts.user, config: accounts.config, amount: 1 };
        self.awards.push(award);
        proof {
            assert(self.awards@.drop_last() =~= before_awards);
            assert(self.awards@.last() == award);
            assert(self.units_credited(accounts.user) == old(self).units_credited(accounts.user)
                + 1) by {
                reveal_with_fuel(Seq::filter, 2);
                let pred = |a: Award| a.user == accounts.user;
                assert(pred(award));
                assert(self.awards@.filter(pred) == before_awards.filter(pred).push(award));
            }
            assert forall|u: Identity|
                u != accounts.user implies #[trigger] self.units_credited(u) == old(
                self,
            ).units_credited(u) by {
                reveal_with_fuel(Seq::filter, 2);
                let pred = |a: Award| a.user == u;
                assert(!pred(award));
                assert(self.awards@.filter(pred) == before_awards.filter(pred));
            }
            assert(before.is_prefix_of(self.claims@)) by {
                assert(before =~= self.claims@.subrange(0, before.len() as int));
            }
            assert forall|k: ClaimKey| #[trigger]
                lookup(self.claims@, k) == (if k == key {
                    Some(claim)
                } else {
                    lookup(before, k)
                }) by {
                lemma_lookup_push(before, key, claim, k);
            }
        }
        Ok(())
    }
}

} // verus!

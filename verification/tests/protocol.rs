use absent::errors::AbsentError;
use absent::identity::Identity;
use absent::layout::encode_config;
use absent::ledger::{Initialize, Ledger, UpdateContext, VerifyAndAward};

fn id(b: u8) -> Identity {
    Identity { bytes: [b; 32] }
}

fn ledger_with_config() -> Ledger {
    let mut l = Ledger::new();
    let r = l.initialize(
        Initialize { admin: id(1), bump: 255 },
        id(2),
        id(3),
        100,
        200,
    );
    assert!(r.is_ok());
    l
}

#[test]
fn initialize_rejects_empty_window() {
    let mut l = Ledger::new();
    let r = l.initialize(Initialize { admin: id(1), bump: 0 }, id(2), id(3), 200, 100);
    assert_eq!(r, Err(AbsentError::InvalidContextWindow));
    assert!(l.get_config(&id(1)).is_none());
}

#[test]
fn initialize_rejects_equal_bounds() {
    let mut l = Ledger::new();
    let r = l.initialize(Initialize { admin: id(1), bump: 0 }, id(2), id(3), 150, 150);
    assert_eq!(r, Err(AbsentError::InvalidContextWindow));
}

#[test]
fn initialize_records_every_field() {
    let l = ledger_with_config();
    let c = l.get_config(&id(1)).unwrap();
    assert_eq!(c.admin, id(1));
    assert_eq!(c.verifier, id(2));
    assert_eq!(c.forbidden_program, id(3));
    assert_eq!(c.start_slot, 100);
    assert_eq!(c.end_slot, 200);
    assert_eq!(c.bump, 255);
}

#[test]
fn initialize_accepts_widest_window() {
    let mut l = Ledger::new();
    let r = l.initialize(Initialize { admin: id(1), bump: 0 }, id(2), id(3), 0, u64::MAX);
    assert!(r.is_ok());
}

#[test]
fn duplicate_configuration_rejected() {
    let mut l = ledger_with_config();
    let r = l.initialize(Initialize { admin: id(1), bump: 9 }, id(4), id(5), 300, 400);
    assert_eq!(r, Err(AbsentError::DuplicateConfiguration));
    let c = l.get_config(&id(1)).unwrap();
    assert_eq!(c.verifier, id(2));
    assert_eq!(c.start_slot, 100);
}

#[test]
fn two_admins_two_configurations() {
    let mut l = ledger_with_config();
    let r = l.initialize(Initialize { admin: id(7), bump: 1 }, id(8), id(9), 10, 20);
    assert!(r.is_ok());
    assert_eq!(l.get_config(&id(1)).unwrap().verifier, id(2));
    assert_eq!(l.get_config(&id(7)).unwrap().verifier, id(8));
}

#[test]
fn update_rejects_empty_window() {
    let mut l = ledger_with_config();
    let r = l.update_context(UpdateContext { admin: id(1), config: id(1) }, id(3), 300, 300);
    assert_eq!(r, Err(AbsentError::InvalidContextWindow));
    let c = l.get_config(&id(1)).unwrap();
    assert_eq!(c.start_slot, 100);
    assert_eq!(c.end_slot, 200);
}

#[test]
fn update_by_admin_changes_window_only() {
    let mut l = ledger_with_config();
    let r = l.update_context(UpdateContext { admin: id(1), config: id(1) }, id(6), 200, 300);
    assert!(r.is_ok());
    let c = l.get_config(&id(1)).unwrap();
    assert_eq!(c.admin, id(1));
    assert_eq!(c.verifier, id(2));
    assert_eq!(c.forbidden_program, id(6));
    assert_eq!(c.start_slot, 200);
    assert_eq!(c.end_slot, 300);
    assert_eq!(c.bump, 255);
}

#[test]
fn update_by_stranger_unauthorized() {
    let mut l = ledger_with_config();
    let before = encode_config(&l.get_config(&id(1)).unwrap());
    let r = l.update_context(UpdateContext { admin: id(9), config: id(1) }, id(6), 300, 400);
    assert_eq!(r, Err(AbsentError::Unauthorized));
    let after = encode_config(&l.get_config(&id(1)).unwrap());
    assert_eq!(before, after);
}

#[test]
fn update_by_stranger_with_bad_window_is_unauthorized_first() {
    let mut l = ledger_with_config();
    let r = l.update_context(UpdateContext { admin: id(9), config: id(1) }, id(6), 500, 400);
    assert_eq!(r, Err(AbsentError::Unauthorized));
}

#[test]
fn award_rejects_wrong_verifier_even_signed() {
    let mut l = ledger_with_config();
    let r = l.verify_and_award(
        VerifyAndAward {
            user: id(10),
            verifier: id(11),
            verifier_signed: true,
            config: id(1),
            claim_bump: 5,
        },
        [0xAB; 32],
    );
    assert_eq!(r, Err(AbsentError::InvalidVerifier));
    assert_eq!(l.awards.len(), 0);
}

#[test]
fn award_rejects_unsigned_verifier() {
    let mut l = ledger_with_config();
    let r = l.verify_and_award(
        VerifyAndAward {
            user: id(10),
            verifier: id(2),
            verifier_signed: false,
            config: id(1),
            claim_bump: 5,
        },
        [0xAB; 32],
    );
    assert_eq!(r, Err(AbsentError::VerifierMustSign));
    assert_eq!(l.awards.len(), 0);
}

#[test]
fn award_mints_exactly_one_unit_and_records_claim() {
    let mut l = ledger_with_config();
    let r = l.verify_and_award(
        VerifyAndAward {
            user: id(10),
            verifier: id(2),
            verifier_signed: true,
            config: id(1),
            claim_bump: 5,
        },
        [0xAB; 32],
    );
    assert!(r.is_ok());
    assert_eq!(l.awards.len(), 1);
    assert_eq!(l.awards[0].amount, 1);
    assert_eq!(l.awards[0].user, id(10));
    assert_eq!(l.awards[0].config, id(1));
    let key = absent::claim::ClaimKey {
        config: id(1),
        user: id(10),
        start_slot: 100,
        end_slot: 200,
        forbidden_program: id(3),
    };
    let c = l.get_claim(&key).unwrap();
    assert!(c.claimed);
    assert_eq!(c.user, id(10));
    assert_eq!(c.config, id(1));
    assert_eq!(c.proof_hash, [0xAB; 32]);
    assert_eq!(c.bump, 5);
}

#[test]
fn replay_rejected_until_window_changes() {
    // Admin A sets up verifier V over window [100, 200) with program P;
    // user U redeems once, cannot replay, and may redeem again only
    // after the admin moves the window (a fresh derived address).
    let a = id(1);
    let v = id(2);
    let p = id(3);
    let u = id(10);
    let h = [0xCD; 32];
    let mut l = Ledger::new();
    assert!(l
        .initialize(Initialize { admin: a, bump: 255 }, v, p, 100, 200)
        .is_ok());
    let call = VerifyAndAward {
        user: u,
        verifier: v,
        verifier_signed: true,
        config: a,
        claim_bump: 5,
    };
    assert!(l.verify_and_award(call, h).is_ok());
    assert_eq!(l.awards.len(), 1);
    assert_eq!(l.verify_and_award(call, h), Err(AbsentError::AlreadyClaimed));
    assert_eq!(l.awards.len(), 1);
    assert!(l
        .update_context(UpdateContext { admin: a, config: a }, p, 200, 300)
        .is_ok());
    assert!(l.verify_and_award(call, h).is_ok());
    assert_eq!(l.awards.len(), 2);
    assert_eq!(l.awards[1].amount, 1);
    assert_eq!(l.claims.len(), 2);
}

#[test]
fn two_users_claim_independently() {
    let mut l = ledger_with_config();
    let mk = |user: Identity| VerifyAndAward {
        user,
        verifier: id(2),
        verifier_signed: true,
        config: id(1),
        claim_bump: 0,
    };
    assert!(l.verify_and_award(mk(id(20)), [1; 32]).is_ok());
    assert!(l.verify_and_award(mk(id(21)), [2; 32]).is_ok());
    assert_eq!(l.verify_and_award(mk(id(20)), [3; 32]), Err(AbsentError::AlreadyClaimed));
    assert_eq!(l.awards.len(), 2);
    assert_eq!(l.awards[0].user, id(20));
    assert_eq!(l.awards[1].user, id(21));
}

#[test]
fn error_messages() {
    assert_eq!(AbsentError::InvalidContextWindow.message(), "Invalid context window");
    assert_eq!(AbsentError::Unauthorized.message(), "Unauthorized");
    assert_eq!(AbsentError::InvalidVerifier.message(), "Invalid verifier");
    assert_eq!(AbsentError::VerifierMustSign.message(), "Verifier must sign");
    assert_eq!(AbsentError::DuplicateConfiguration.message(), "Duplicate configuration");
    assert_eq!(AbsentError::AlreadyClaimed.message(), "Already claimed");
}

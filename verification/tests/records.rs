use absent::claim::Claim;
use absent::config::Config;
use absent::identity::Identity;
use absent::layout::{decode_claim, decode_config, encode_claim, encode_config};

fn id(b: u8) -> Identity {
    Identity { bytes: [b; 32] }
}

fn config() -> Config {
    Config {
        admin: id(1),
        verifier: id(2),
        forbidden_program: id(3),
        start_slot: 100,
        end_slot: 200,
        bump: 254,
    }
}

fn claim() -> Claim {
    Claim {
        user: id(8),
        config: id(1),
        proof_hash: [0xAB; 32],
        claimed: true,
        bump: 7,
    }
}

#[test]
fn config_record_is_exactly_113_bytes() {
    let b = encode_config(&config());
    assert_eq!(b.len(), 113);
    assert_eq!(Config::SIZE, 113);
    assert_eq!(&b[0..32], &[1u8; 32]);
    assert_eq!(&b[32..64], &[2u8; 32]);
    assert_eq!(&b[64..96], &[3u8; 32]);
    assert_eq!(&b[96..104], &100u64.to_le_bytes());
    assert_eq!(&b[104..112], &200u64.to_le_bytes());
    assert_eq!(b[112], 254);
}

#[test]
fn claim_record_is_exactly_98_bytes() {
    let b = encode_claim(&claim());
    assert_eq!(b.len(), 98);
    assert_eq!(Claim::SIZE, 98);
    assert_eq!(&b[0..32], &[8u8; 32]);
    assert_eq!(&b[32..64], &[1u8; 32]);
    assert_eq!(&b[64..96], &[0xAB; 32]);
    assert_eq!(b[96], 1);
    assert_eq!(b[97], 7);
}

#[test]
fn config_round_trips() {
    let c = config();
    let d = decode_config(&encode_config(&c)).unwrap();
    assert_eq!(d.admin, c.admin);
    assert_eq!(d.verifier, c.verifier);
    assert_eq!(d.forbidden_program, c.forbidden_program);
    assert_eq!(d.start_slot, c.start_slot);
    assert_eq!(d.end_slot, c.end_slot);
    assert_eq!(d.bump, c.bump);
}

#[test]
fn claim_round_trips() {
    let c = claim();
    let d = decode_claim(&encode_claim(&c)).unwrap();
    assert_eq!(d.user, c.user);
    assert_eq!(d.config, c.config);
    assert_eq!(d.proof_hash, c.proof_hash);
    assert_eq!(d.claimed, c.claimed);
    assert_eq!(d.bump, c.bump);
}

#[test]
fn unclaimed_flag_round_trips() {
    let mut c = claim();
    c.claimed = false;
    let b = encode_claim(&c);
    assert_eq!(b[96], 0);
    assert!(!decode_claim(&b).unwrap().claimed);
}

#[test]
fn decode_rejects_wrong_length() {
    assert!(decode_config(&[0u8; 112]).is_none());
    assert!(decode_config(&[0u8; 114]).is_none());
    assert!(decode_claim(&[0u8; 97]).is_none());
    assert!(decode_claim(&[0u8; 99]).is_none());
}

#[test]
fn decode_claim_rejects_bad_flag_byte() {
    let mut b = encode_claim(&claim());
    b[96] = 2;
    assert!(decode_claim(&b).is_none());
}

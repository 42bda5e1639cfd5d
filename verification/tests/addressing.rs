use absent::claim::ClaimKey;
use absent::identity::Identity;
use absent::seeds::{claim_seed_bytes, config_seed_bytes, mint_authority_seed_bytes};

fn id(b: u8) -> Identity {
    Identity { bytes: [b; 32] }
}

fn key() -> ClaimKey {
    ClaimKey {
        config: id(7),
        user: id(8),
        start_slot: 100,
        end_slot: 200,
        forbidden_program: id(9),
    }
}

#[test]
fn config_seeds_are_label_then_admin() {
    let s = config_seed_bytes(&id(4));
    assert_eq!(s.len(), 2);
    assert_eq!(s[0], b"config".to_vec());
    assert_eq!(s[1], vec![4u8; 32]);
}

#[test]
fn claim_seeds_are_exact() {
    let s = claim_seed_bytes(&key());
    assert_eq!(s.len(), 6);
    assert_eq!(s[0], b"claim".to_vec());
    assert_eq!(s[1], vec![7u8; 32]);
    assert_eq!(s[2], vec![8u8; 32]);
    assert_eq!(s[3], 100u64.to_le_bytes().to_vec());
    assert_eq!(s[4], 200u64.to_le_bytes().to_vec());
    assert_eq!(s[5], vec![9u8; 32]);
}

#[test]
fn mint_authority_seeds_are_label_then_config() {
    let s = mint_authority_seed_bytes(&id(7));
    assert_eq!(s.len(), 2);
    assert_eq!(s[0], b"mint_auth".to_vec());
    assert_eq!(s[1], vec![7u8; 32]);
}

#[test]
fn changed_window_changes_claim_seeds() {
    let mut other = key();
    other.end_slot = 300;
    assert_ne!(claim_seed_bytes(&key()), claim_seed_bytes(&other));
}

#[test]
fn changed_user_changes_claim_seeds() {
    let mut other = key();
    other.user = id(12);
    assert_ne!(claim_seed_bytes(&key()), claim_seed_bytes(&other));
}

#[test]
fn families_never_collide() {
    let c = config_seed_bytes(&id(7));
    let m = mint_authority_seed_bytes(&id(7));
    let k = claim_seed_bytes(&key());
    assert_ne!(c, m);
    assert_ne!(c, k);
    assert_ne!(m, k);
}

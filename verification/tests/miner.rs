use tape::error::TapeError;
use tape::miner_ops::{miner_register, miner_claim, miner_can_unregister};
use tape::utils::to_name;

fn blake3_concat(parts: &[&[u8]]) -> [u8; 32] {
    let mut hasher = blake3::Hasher::new();
    for p in parts {
        hasher.update(p);
    }
    hasher.finalize().into()
}

#[test]
fn register_seeds_challenge_from_address_and_slot() {
    let authority = [1u8; 32];
    let name = to_name(b"alice");
    let miner_address = [2u8; 32];
    let m = miner_register(&authority, &name, &miner_address, 77);
    assert_eq!(m.authority, authority);
    assert_eq!(m.name, name);
    assert_eq!(m.unclaimed_rewards, 0);
    assert_eq!(m.total_rewards, 0);
    assert_eq!(m.total_proofs, 0);
    assert_eq!(m.multiplier, 0);
    assert_eq!(m.commitment, [0u8; 32]);
    assert_eq!(
        m.challenge,
        blake3_concat(&[&miner_address, &77u64.to_le_bytes()])
    );
}

#[test]
fn claim_is_capped_by_unclaimed_rewards() {
    let mut m = miner_register(&[1u8; 32], &[0u8; 32], &[2u8; 32], 1);
    m.unclaimed_rewards = 1000;
    m.total_rewards = 1000;

    miner_claim(&mut m, 400).unwrap();
    assert_eq!(m.unclaimed_rewards, 600);

    assert_eq!(miner_claim(&mut m, 1000), Err(TapeError::ClaimTooLarge));
    assert_eq!(m.unclaimed_rewards, 600);

    // Claiming exactly what remains zeroes the balance.
    miner_claim(&mut m, 600).unwrap();
    assert_eq!(m.unclaimed_rewards, 0);
}

#[test]
fn unregister_requires_no_unclaimed_rewards() {
    let mut m = miner_register(&[1u8; 32], &[0u8; 32], &[2u8; 32], 1);
    assert!(miner_can_unregister(&m));
    m.unclaimed_rewards = 1;
    assert!(!miner_can_unregister(&m));
}

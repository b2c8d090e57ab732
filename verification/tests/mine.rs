use tape::consts::RENT_PER_SEGMENT;
use tape::error::TapeError;
use tape::init::program_initialize;
use tape::mine::miner_mine;
use tape::miner_ops::miner_register;
use tape::rent::min_finalization_rent;
use tape::state::{Archive, Block, Epoch, Miner, Tape, Writer};
use tape::tape_ops::{tape_create, tape_write, tape_finalize, tape_subsidize};
use tape::types::{PoW, PoA, ProofPath};
use tape::utils::to_name;

fn blake3_concat(parts: &[&[u8]]) -> [u8; 32] {
    let mut hasher = blake3::Hasher::new();
    for p in parts {
        hasher.update(p);
    }
    hasher.finalize().into()
}

fn leaf_hash(id: u64, segment: &[u8; 128]) -> [u8; 32] {
    blake3_concat(&[b"LEAF", &id.to_le_bytes(), segment])
}

fn zeros_from_seed(seed: &[u8; 32]) -> [[u8; 32]; 18] {
    let mut zeros = [[0u8; 32]; 18];
    let mut cur = blake3_concat(&[seed]);
    for z in zeros.iter_mut() {
        *z = cur;
        cur = blake3_concat(&[b"NODE", &cur, &cur]);
    }
    zeros
}

fn solve_pow(challenge: &[u8; 32], min_difficulty: u32) -> PoW {
    let empty: [u8; 0] = [];
    for n in 0u64..100_000 {
        let nonce = n.to_le_bytes();
        if let Ok(sol) = crankx::solve(challenge, &empty, &nonce) {
            if sol.difficulty() >= min_difficulty {
                return PoW { digest: sol.d, nonce };
            }
        }
    }
    panic!("no proof-of-work solution found");
}

fn solve_poa(pubkey: &[u8; 32], data: &[u8; 128]) -> packx::Solution {
    for bump in 0u8..=u8::MAX {
        let table = packx::build_one_bump(pubkey, bump);
        if let Some(sol) = packx::solve_one_bump(data, bump, &table, 0) {
            return sol;
        }
    }
    panic!("no packing solution found");
}

/// A funded, finalized two-segment tape plus fresh singletons and a miner.
#[allow(clippy::type_complexity)]
fn setup() -> (Archive, Epoch, Block, Tape, Writer, Miner, [u8; 32], [u8; 128], [u8; 128]) {
    let (mut archive, epoch, block) = program_initialize(1000, 50);
    let authority = [1u8; 32];
    let tape_address = [0xA1u8; 32];
    let (mut tape, mut writer) = tape_create(&authority, &to_name(b"t1"), &tape_address, 50);
    let mut data = [0u8; 256];
    for (i, b) in data.iter_mut().enumerate() {
        *b = (i % 251) as u8;
    }
    tape_write(&mut tape, &mut writer, &data, &tape_address, 51).unwrap();
    tape_subsidize(&mut tape, min_finalization_rent(2)).unwrap();
    tape_finalize(&mut tape, &mut archive, &tape_address, 1).unwrap();
    let miner = miner_register(&authority, &to_name(b"alice"), &[2u8; 32], 50);
    let mut seg0 = [0u8; 128];
    let mut seg1 = [0u8; 128];
    seg0.copy_from_slice(&data[..128]);
    seg1.copy_from_slice(&data[128..]);
    (archive, epoch, block, tape, writer, miner, tape_address, seg0, seg1)
}

#[test]
fn mine_accepts_valid_dual_proof_and_settles() {
    let (archive, mut epoch, mut block, mut tape, _writer, mut miner, tape_address, seg0, seg1) =
        setup();
    // Keep the block open after one proof so the replay below is
    // attributable to the per-block replay check.
    epoch.target_participation = 2;

    let c_challenge = blake3_concat(&[&block.challenge, &miner.challenge]);
    let c_seg = tape::mine::compute_recall_segment(&c_challenge, 2);
    let (my_seg, other_leaf) = if c_seg == 0 {
        (seg0, leaf_hash(1, &seg1))
    } else {
        (seg1, leaf_hash(0, &seg0))
    };
    let zeros = zeros_from_seed(&tape.merkle_seed);
    let mut path = [[0u8; 32]; 18];
    path[0] = other_leaf;
    path[1..].copy_from_slice(&zeros[1..]);

    let sol = solve_poa(&miner.authority, &my_seg);
    let poa = PoA {
        bump: [sol.bump, 0, 0, 0, 0, 0, 0, 0],
        seed: sol.seeds,
        nonce: sol.nonces,
        path: ProofPath(path),
    };
    let pow = solve_pow(&c_challenge, 1);

    // A valid solution below the required difficulty is rejected.
    epoch.mining_difficulty = 300;
    assert_eq!(
        miner_mine(
            &mut epoch, &mut block, &archive, &mut tape, &mut miner, &tape_address, &pow, &poa,
            2000, 60,
        ),
        Err(TapeError::SolutionTooEasy)
    );
    epoch.mining_difficulty = 1;

    // A wrong sibling path is rejected.
    let bad_poa = PoA { path: ProofPath([[0u8; 32]; 18]), ..poa };
    assert_eq!(
        miner_mine(
            &mut epoch, &mut block, &archive, &mut tape, &mut miner, &tape_address, &pow,
            &bad_poa, 2000, 60,
        ),
        Err(TapeError::CommitmentMismatch)
    );

    // The valid dual proof settles one step.
    let balance_before = tape.balance;
    miner_mine(
        &mut epoch, &mut block, &archive, &mut tape, &mut miner, &tape_address, &pow, &poa, 2000,
        60,
    )
    .unwrap();
    let block_reward = 2 * RENT_PER_SEGMENT;
    assert_eq!(miner.multiplier, 1);
    assert_eq!(miner.unclaimed_rewards, block_reward * 1 / 32);
    assert_eq!(miner.total_rewards, miner.unclaimed_rewards);
    assert_eq!(miner.total_proofs, 1);
    assert_eq!(miner.last_proof_block, 1);
    assert_eq!(miner.last_proof_at, 2000);
    // No block has elapsed since finalization, so no rent was owed.
    assert_eq!(tape.balance, balance_before);
    assert_eq!(tape.last_rent_block, 1);
    assert_eq!(block.progress, 1);
    assert_eq!(block.number, 1);

    // Replaying the identical solution within the same block is too early.
    assert_eq!(
        miner_mine(
            &mut epoch, &mut block, &archive, &mut tape, &mut miner, &tape_address, &pow, &poa,
            2001, 61,
        ),
        Err(TapeError::SolutionTooEarly)
    );
}

#[test]
fn mine_seals_block_at_participation_target() {
    let (archive, mut epoch, mut block, mut tape, _writer, mut miner, tape_address, seg0, seg1) =
        setup();
    assert_eq!(epoch.target_participation, 1);
    // Arrange the epoch so this sealed block also turns the epoch and
    // lands on an adjustment boundary.
    epoch.progress = 9;
    epoch.number = 49;

    let c_challenge = blake3_concat(&[&block.challenge, &miner.challenge]);
    let c_seg = tape::mine::compute_recall_segment(&c_challenge, 2);
    let (my_seg, other_leaf) = if c_seg == 0 {
        (seg0, leaf_hash(1, &seg1))
    } else {
        (seg1, leaf_hash(0, &seg0))
    };
    let zeros = zeros_from_seed(&tape.merkle_seed);
    let mut path = [[0u8; 32]; 18];
    path[0] = other_leaf;
    path[1..].copy_from_slice(&zeros[1..]);

    let sol = solve_poa(&miner.authority, &my_seg);
    let poa = PoA {
        bump: [sol.bump, 0, 0, 0, 0, 0, 0, 0],
        seed: sol.seeds,
        nonce: sol.nonces,
        path: ProofPath(path),
    };
    let pow = solve_pow(&c_challenge, 1);

    let challenge_before = block.challenge;
    miner_mine(
        &mut epoch, &mut block, &archive, &mut tape, &mut miner, &tape_address, &pow, &poa, 2000,
        60,
    )
    .unwrap();
    // One proof met the target: the block advanced and its challenge
    // rotated with the slot.
    assert_eq!(block.number, 2);
    assert_eq!(block.progress, 0);
    assert_eq!(block.challenge_set, 60);
    assert_eq!(
        block.challenge,
        blake3_concat(&[&challenge_before, &60u64.to_le_bytes()])
    );
    // The tenth sealed block turned the epoch onto an adjustment
    // boundary; the window finished far under ten minutes per block, so
    // difficulty and participation each stepped up once.
    assert_eq!(epoch.progress, 0);
    assert_eq!(epoch.number, 50);
    assert_eq!(epoch.last_epoch_at, 2000);
    assert_eq!(epoch.mining_difficulty, 2);
    assert_eq!(epoch.target_participation, 2);
}

#[test]
fn mine_rejects_wrong_tape() {
    let (archive, mut epoch, mut block, mut tape, _writer, mut miner, tape_address, _s0, _s1) =
        setup();
    let dummy_pow = PoW { digest: [0u8; 16], nonce: [0u8; 8] };
    let dummy_poa = PoA {
        bump: [0u8; 8],
        seed: [0u8; 16],
        nonce: [0u8; 128],
        path: ProofPath([[0u8; 32]; 18]),
    };

    // With no commitment the tape number must match the canonical recall.
    tape.number = 2;
    assert_eq!(
        miner_mine(
            &mut epoch, &mut block, &archive, &mut tape, &mut miner, &tape_address, &dummy_pow,
            &dummy_poa, 2000, 60,
        ),
        Err(TapeError::UnexpectedTape)
    );
    tape.number = 1;

    // A non-zero commitment overrides the recall: the address must match.
    miner.commitment = [9u8; 32];
    assert_eq!(
        miner_mine(
            &mut epoch, &mut block, &archive, &mut tape, &mut miner, &tape_address, &dummy_pow,
            &dummy_poa, 2000, 60,
        ),
        Err(TapeError::UnexpectedTape)
    );
}

#[test]
fn mine_rejects_replay_and_garbage() {
    let (archive, mut epoch, mut block, mut tape, _writer, mut miner, tape_address, _s0, _s1) =
        setup();
    let dummy_pow = PoW { digest: [0u8; 16], nonce: [0u8; 8] };
    let dummy_poa = PoA {
        bump: [0u8; 8],
        seed: [0u8; 16],
        nonce: [0u8; 128],
        path: ProofPath([[0u8; 32]; 18]),
    };

    // A miner that already proved this block must wait.
    miner.last_proof_block = 1;
    assert_eq!(
        miner_mine(
            &mut epoch, &mut block, &archive, &mut tape, &mut miner, &tape_address, &dummy_pow,
            &dummy_poa, 2000, 60,
        ),
        Err(TapeError::SolutionTooEarly)
    );
    miner.last_proof_block = 0;

    // Time must strictly advance past the last proof.
    miner.last_proof_at = 2000;
    assert_eq!(
        miner_mine(
            &mut epoch, &mut block, &archive, &mut tape, &mut miner, &tape_address, &dummy_pow,
            &dummy_poa, 2000, 60,
        ),
        Err(TapeError::SolutionTooEarly)
    );
    miner.last_proof_at = 0;

    // A garbage digest is not a solution.
    assert_eq!(
        miner_mine(
            &mut epoch, &mut block, &archive, &mut tape, &mut miner, &tape_address, &dummy_pow,
            &dummy_poa, 2000, 60,
        ),
        Err(TapeError::SolutionInvalid)
    );
}

use tape::consts::MAX_TAPES_PER_SPOOL;
use tape::error::TapeError;
use tape::miner_ops::miner_register;
use tape::spool_ops::{spool_create, spool_pack, spool_unpack, spool_commit, spool_owned_by};
use tape::utils::xor32;

fn value_leaf(value: &[u8; 32]) -> [u8; 32] {
    let mut hasher = blake3::Hasher::new();
    hasher.update(b"LEAF");
    hasher.update(value);
    hasher.finalize().into()
}

#[test]
fn spool_pack_then_unpack_round_trip() {
    let authority = [7u8; 32];
    let miner_address = [8u8; 32];
    let mut spool = spool_create(&authority, &miner_address, 0, 42);
    assert_eq!(spool.number, 0);
    assert_eq!(spool.total_tapes, 0);
    assert_eq!(spool.contains, [0u8; 32]);

    let value = [0xAAu8; 32];
    spool_pack(&mut spool, &value).unwrap();
    assert_eq!(spool.contains, value);
    assert_eq!(spool.total_tapes, 1);
    let root_one_packed = spool.state.get_root();
    let filter_one_packed = spool.contains;

    // Pack a second address, then unpack it again: its leaf sits at
    // index one, so its sibling path is the first leaf's hash followed
    // by empty-subtree hashes.
    let second = [0xBBu8; 32];
    spool_pack(&mut spool, &second).unwrap();
    assert_eq!(spool.contains, xor32(&value, &second));
    assert_eq!(spool.total_tapes, 2);
    let root_two_packed = spool.state.get_root();
    assert_ne!(root_two_packed, root_one_packed);

    let mut proof = spool.state.zero_values;
    proof[0] = value_leaf(&value);
    spool_unpack(&mut spool, &proof, &second).unwrap();
    assert_eq!(spool.contains, filter_one_packed);
    assert_eq!(spool.total_tapes, 1);
    // Unpacking blanks the packed leaf: the commitment returns to its
    // value before the pack.
    assert_ne!(spool.state.get_root(), root_two_packed);
    assert_eq!(spool.state.get_root(), root_one_packed);

    // A stale proof no longer verifies.
    assert_eq!(
        spool_unpack(&mut spool, &proof, &second),
        Err(TapeError::SpoolUnpackFailed)
    );
}

#[test]
fn spool_pack_respects_capacity() {
    let authority = [7u8; 32];
    let miner_address = [8u8; 32];
    let mut spool = spool_create(&authority, &miner_address, 1, 42);
    spool.total_tapes = MAX_TAPES_PER_SPOOL;
    spool.state.next_index = MAX_TAPES_PER_SPOOL;
    let before = spool;
    assert_eq!(
        spool_pack(&mut spool, &[1u8; 32]),
        Err(TapeError::SpoolTooManyTapes)
    );
    assert_eq!(spool, before);
}

#[test]
fn spool_commit_stores_commitment() {
    let authority = [7u8; 32];
    let miner_address = [8u8; 32];
    let mut spool = spool_create(&authority, &miner_address, 2, 42);
    let mut miner = miner_register(&authority, &[0u8; 32], &miner_address, 42);

    let value = [0xCDu8; 32];
    spool_pack(&mut spool, &value).unwrap();
    let proof = spool.state.zero_values;
    spool_commit(&spool, &mut miner, &proof, &value).unwrap();
    assert_eq!(miner.commitment, value);

    // A proof for a different value fails and leaves the miner unchanged.
    let r = spool_commit(&spool, &mut miner, &proof, &[0xCEu8; 32]);
    assert_eq!(r, Err(TapeError::SpoolCommitFailed));
    assert_eq!(miner.commitment, value);
}

#[test]
fn spool_ownership_check() {
    let authority = [7u8; 32];
    let spool = spool_create(&authority, &[8u8; 32], 3, 1);
    assert!(spool_owned_by(&spool, &authority));
    assert!(!spool_owned_by(&spool, &[6u8; 32]));
}

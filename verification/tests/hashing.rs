use tape::hashing::{compute_leaf, compute_value_leaf, compute_challenge, compute_next_challenge};
use tape::mine::{compute_recall_tape, compute_recall_segment};
use tape::utils::{padded_array, to_name, xor32, bytes32_eq, is_zero32};

fn blake3_concat(parts: &[&[u8]]) -> [u8; 32] {
    let mut hasher = blake3::Hasher::new();
    for p in parts {
        hasher.update(p);
    }
    hasher.finalize().into()
}

#[test]
fn leaf_hash_matches_tagged_blake3() {
    let segment = [0x5Au8; 128];
    let id: u64 = 7;
    let expected = blake3_concat(&[b"LEAF", &id.to_le_bytes(), &segment]);
    assert_eq!(compute_leaf(id, &segment), expected);
}

#[test]
fn value_leaf_hash_matches_tagged_blake3() {
    let value = [0xAAu8; 32];
    let expected = blake3_concat(&[b"LEAF", &value]);
    assert_eq!(compute_value_leaf(&value), expected);
}

#[test]
fn challenge_is_blake3_of_concatenation() {
    let a = [1u8; 32];
    let b = [2u8; 32];
    assert_eq!(compute_challenge(&a, &b), blake3_concat(&[&a, &b]));
}

#[test]
fn next_challenge_binds_slot() {
    let c = [3u8; 32];
    let slot: u64 = 99;
    assert_eq!(
        compute_next_challenge(&c, slot),
        blake3_concat(&[&c, &slot.to_le_bytes()])
    );
}

#[test]
fn recall_tape_selection() {
    let challenge = [0x01u8; 32];
    // One stored tape: always tape one.
    assert_eq!(compute_recall_tape(&challenge, 1), 1);
    // No stored tapes: tape one by convention.
    assert_eq!(compute_recall_tape(&challenge, 0), 1);
    // The first eight bytes decode to 0x0101010101010101.
    let x = 0x0101010101010101u64;
    assert_eq!(compute_recall_tape(&challenge, 7), x % 7 + 1);
}

#[test]
fn recall_segment_selection() {
    let challenge = [0x01u8; 32];
    let x = 0x0101010101010101u64;
    assert_eq!(compute_recall_segment(&challenge, 2), x % 2);
    assert_eq!(compute_recall_segment(&challenge, 0), 0);
    let mut varied = [0u8; 32];
    varied[8] = 5;
    assert_eq!(compute_recall_segment(&varied, 3), 5 % 3);
}

#[test]
fn padded_array_truncates_and_pads() {
    let out: [u8; 4] = padded_array(&[1, 2]);
    assert_eq!(out, [1, 2, 0, 0]);
    let out: [u8; 2] = padded_array(&[1, 2, 3]);
    assert_eq!(out, [1, 2]);
}

#[test]
fn to_name_pads_with_nul() {
    let name = to_name(b"alice");
    assert_eq!(&name[..5], b"alice");
    assert!(name[5..].iter().all(|&b| b == 0));
}

#[test]
fn xor32_involution() {
    let a = [0x3Cu8; 32];
    let b = [0x55u8; 32];
    let once = xor32(&a, &b);
    assert_ne!(once, a);
    assert_eq!(xor32(&once, &b), a);
}

#[test]
fn byte_comparisons() {
    let a = [7u8; 32];
    let mut b = a;
    assert!(bytes32_eq(&a, &b));
    b[31] = 8;
    assert!(!bytes32_eq(&a, &b));
    assert!(is_zero32(&[0u8; 32]));
    assert!(!is_zero32(&b));
}

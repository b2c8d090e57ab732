use tape::consts::MAX_SEGMENTS_PER_TAPE;
use tape::error::TapeError;
use tape::rent::min_finalization_rent;
use tape::state::{Archive, TapeState};
use tape::tape_ops::{
    tape_create, tape_write, tape_update, tape_set_header, tape_finalize, tape_subsidize,
    segment_verify, write_segment, update_segment,
};
use tape::types::ProofPath;
use tape::utils::to_name;

fn blake3_concat(parts: &[&[u8]]) -> [u8; 32] {
    let mut hasher = blake3::Hasher::new();
    for p in parts {
        hasher.update(p);
    }
    hasher.finalize().into()
}

fn leaf_hash(id: u64, segment: &[u8; 128]) -> [u8; 32] {
    blake3_concat(&[b"LEAF", &id.to_le_bytes(), segment])
}

fn node(a: &[u8; 32], b: &[u8; 32]) -> [u8; 32] {
    if a <= b {
        blake3_concat(&[b"NODE", a, b])
    } else {
        blake3_concat(&[b"NODE", b, a])
    }
}

fn zeros_from_seed(seed: &[u8; 32]) -> [[u8; 32]; 18] {
    let mut zeros = [[0u8; 32]; 18];
    let mut cur = blake3_concat(&[seed]);
    for z in zeros.iter_mut() {
        *z = cur;
        cur = node(&cur, &cur);
    }
    zeros
}

/// Root of an 18-level tree holding two leaves and empties elsewhere.
fn root_of_two(seed: &[u8; 32], l0: &[u8; 32], l1: &[u8; 32]) -> [u8; 32] {
    let zeros = zeros_from_seed(seed);
    let mut cur = node(l0, l1);
    for z in zeros.iter().take(18).skip(1) {
        cur = node(&cur, z);
    }
    cur
}

#[test]
fn create_write_subsidize_finalize_scenario() {
    let authority = [9u8; 32];
    let name = to_name(b"t1");
    let address = [0xABu8; 32];
    let (mut tape, mut writer) = tape_create(&authority, &name, &address, 5);
    assert_eq!(tape.state, TapeState::Created.code());
    assert_eq!(tape.total_segments, 0);
    assert_eq!(tape.balance, 0);
    assert_eq!(tape.first_slot, 5);
    assert_eq!(writer.tape, address);
    assert_eq!(tape.merkle_root, writer.state.get_root());

    let mut data = [0u8; 256];
    for (i, b) in data.iter_mut().enumerate() {
        *b = i as u8;
    }
    let ev = tape_write(&mut tape, &mut writer, &data, &address, 6).unwrap();
    assert_eq!(ev.num_added, 2);
    assert_eq!(ev.num_total, 2);
    assert_eq!(ev.prev_slot, 5);
    assert_eq!(ev.address, address);
    assert_eq!(tape.state, TapeState::Writing.code());
    assert_eq!(tape.total_segments, 2);
    assert_eq!(tape.tail_slot, 6);

    // The root must equal the two leaf hashes folded with empty siblings.
    let mut seg0 = [0u8; 128];
    let mut seg1 = [0u8; 128];
    seg0.copy_from_slice(&data[..128]);
    seg1.copy_from_slice(&data[128..]);
    let l0 = leaf_hash(0, &seg0);
    let l1 = leaf_hash(1, &seg1);
    assert_eq!(tape.merkle_root, root_of_two(&tape.merkle_seed, &l0, &l1));

    // Finalization needs a year of rent pre-funded.
    let needed = min_finalization_rent(2);
    let mut archive = Archive { tapes_stored: 0, segments_stored: 0 };
    assert_eq!(
        tape_finalize(&mut tape, &mut archive, &address, 3),
        Err(TapeError::InsufficientRent)
    );
    tape_subsidize(&mut tape, needed).unwrap();
    let ev = tape_finalize(&mut tape, &mut archive, &address, 3).unwrap();
    assert_eq!(ev.tape, 1);
    assert_eq!(ev.address, address);
    assert_eq!(tape.state, TapeState::Finalized.code());
    assert_eq!(tape.number, 1);
    assert_eq!(tape.last_rent_block, 3);
    assert_eq!(archive.tapes_stored, 1);
    assert_eq!(archive.segments_stored, 2);

    // A finalized tape refuses further writes and finalizes.
    assert_eq!(
        tape_write(&mut tape, &mut writer, &data, &address, 7),
        Err(TapeError::UnexpectedState)
    );
    assert_eq!(
        tape_finalize(&mut tape, &mut archive, &address, 4),
        Err(TapeError::UnexpectedState)
    );
}

#[test]
fn write_at_capacity_fails_tape_too_long() {
    let authority = [1u8; 32];
    let name = to_name(b"full");
    let address = [2u8; 32];
    let (mut tape, mut writer) = tape_create(&authority, &name, &address, 1);
    tape.state = TapeState::Writing.code();
    tape.total_segments = MAX_SEGMENTS_PER_TAPE;
    writer.state.next_index = MAX_SEGMENTS_PER_TAPE;
    let before = tape;
    let data = [0u8; 128];
    assert_eq!(
        tape_write(&mut tape, &mut writer, &data, &address, 2),
        Err(TapeError::TapeTooLong)
    );
    assert_eq!(tape, before);

    // One segment under the limit still fits.
    tape.total_segments = MAX_SEGMENTS_PER_TAPE - 1;
    writer.state.next_index = MAX_SEGMENTS_PER_TAPE - 1;
    let ev = tape_write(&mut tape, &mut writer, &data, &address, 2).unwrap();
    assert_eq!(ev.num_total, MAX_SEGMENTS_PER_TAPE);
}

#[test]
fn finalize_gate_is_exact() {
    let authority = [1u8; 32];
    let name = to_name(b"gate");
    let address = [2u8; 32];
    let (mut tape, mut writer) = tape_create(&authority, &name, &address, 1);
    let data = [7u8; 1280];
    tape_write(&mut tape, &mut writer, &data, &address, 2).unwrap();
    assert_eq!(tape.total_segments, 10);

    let mut archive = Archive { tapes_stored: 0, segments_stored: 0 };
    tape_subsidize(&mut tape, min_finalization_rent(10) - 1).unwrap();
    assert_eq!(
        tape_finalize(&mut tape, &mut archive, &address, 1),
        Err(TapeError::InsufficientRent)
    );
    tape_subsidize(&mut tape, 1).unwrap();
    assert!(tape_finalize(&mut tape, &mut archive, &address, 1).is_ok());
}

#[test]
fn update_replaces_segment_and_rejects_stale_data() {
    let authority = [3u8; 32];
    let name = to_name(b"upd");
    let address = [4u8; 32];
    let (mut tape, mut writer) = tape_create(&authority, &name, &address, 1);

    let mut old_seg = [0u8; 128];
    old_seg[..32].copy_from_slice(&[0x11u8; 32]);
    tape_write(&mut tape, &mut writer, &old_seg, &address, 2).unwrap();

    // The single leaf sits at index zero: its sibling path is the run of
    // empty-subtree hashes.
    let proof = ProofPath(writer.state.zero_values);
    let mut new_seg = [0u8; 128];
    new_seg[..32].copy_from_slice(&[0x22u8; 32]);

    let ev = tape_update(
        &mut tape, &mut writer, 0, &old_seg, &new_seg, &proof, &address, 3,
    )
    .unwrap();
    assert_eq!(ev.segment_number, 0);
    assert_eq!(ev.prev_slot, 2);

    // The new root folds the new leaf along the same path.
    let zeros = zeros_from_seed(&tape.merkle_seed);
    let mut expect = leaf_hash(0, &new_seg);
    for z in zeros.iter() {
        expect = node(&expect, z);
    }
    assert_eq!(tape.merkle_root, expect);

    // Replaying the update with the stale old segment must fail.
    assert_eq!(
        tape_update(&mut tape, &mut writer, 0, &old_seg, &new_seg, &proof, &address, 4),
        Err(TapeError::WriteFailed)
    );
}

#[test]
fn every_written_segment_verifies_against_the_root() {
    let authority = [8u8; 32];
    let name = to_name(b"proofs");
    let address = [9u8; 32];
    let (mut tape, mut writer) = tape_create(&authority, &name, &address, 1);

    let mut data = [0u8; 384];
    for (i, b) in data.iter_mut().enumerate() {
        *b = (i * 7 % 256) as u8;
    }
    tape_write(&mut tape, &mut writer, &data, &address, 2).unwrap();

    // Rebuild the canonical padded tree bottom-up to extract each
    // segment's sibling path.
    let zeros = zeros_from_seed(&tape.merkle_seed);
    let mut segs = [[0u8; 128]; 3];
    for (i, seg) in segs.iter_mut().enumerate() {
        seg.copy_from_slice(&data[i * 128..(i + 1) * 128]);
    }
    let leaves: Vec<[u8; 32]> = (0..3).map(|i| leaf_hash(i as u64, &segs[i])).collect();

    for (idx, seg) in segs.iter().enumerate() {
        let mut path = [[0u8; 32]; 18];
        let mut layer: Vec<[u8; 32]> = leaves.clone();
        let mut pos = idx;
        for (level, slot) in path.iter_mut().enumerate() {
            let sib = pos ^ 1;
            *slot = if sib < layer.len() { layer[sib] } else { zeros[level] };
            let mut next = Vec::new();
            let mut p = 0;
            while p < layer.len() {
                let left = layer[p];
                let right = if p + 1 < layer.len() { layer[p + 1] } else { zeros[level] };
                next.push(node(&left, &right));
                p += 2;
            }
            layer = next;
            pos /= 2;
        }
        let proof = ProofPath(path);
        assert!(segment_verify(&tape.merkle_root, idx as u64, seg, &proof));
        // The same path with the wrong segment or index fails.
        assert!(!segment_verify(&tape.merkle_root, idx as u64, &[0xFFu8; 128], &proof));
        assert!(!segment_verify(&tape.merkle_root, idx as u64 + 1, seg, &proof));
    }
}

#[test]
fn set_header_only_before_finalize() {
    let authority = [5u8; 32];
    let name = to_name(b"hdr");
    let address = [6u8; 32];
    let (mut tape, _writer) = tape_create(&authority, &name, &address, 1);
    let header = [0xEEu8; 64];
    tape_set_header(&mut tape, &header).unwrap();
    assert_eq!(tape.header, header);
    tape.state = TapeState::Finalized.code();
    assert_eq!(
        tape_set_header(&mut tape, &[0u8; 64]),
        Err(TapeError::UnexpectedState)
    );
    assert_eq!(tape.header, header);
}

#[test]
fn subsidize_saturates() {
    let authority = [5u8; 32];
    let name = to_name(b"sat");
    let address = [6u8; 32];
    let (mut tape, _writer) = tape_create(&authority, &name, &address, 1);
    tape_subsidize(&mut tape, 40).unwrap();
    assert_eq!(tape.balance, 40);
    tape_subsidize(&mut tape, u64::MAX).unwrap();
    assert_eq!(tape.balance, u64::MAX);
}

#[test]
fn segment_helpers_mirror_tape_write_and_update() {
    let authority = [2u8; 32];
    let address = [3u8; 32];
    let (mut tape, mut writer) = tape_create(&authority, &to_name(b"segs"), &address, 1);

    // Writing through the tree helper matches the handler's root.
    let seg = [0x42u8; 128];
    write_segment(&mut writer.state, 0, &seg).unwrap();
    let (mut tape2, mut writer2) = tape_create(&authority, &to_name(b"segs"), &address, 1);
    tape_write(&mut tape2, &mut writer2, &seg, &address, 2).unwrap();
    assert_eq!(writer.state.get_root(), writer2.state.get_root());
    let _ = &mut tape;

    // Updating through the tree helper accepts the valid path and
    // rejects a stale one.
    let proof = writer.state.zero_values;
    let new_seg = [0x43u8; 128];
    update_segment(&mut writer.state, 0, &seg, &new_seg, &proof).unwrap();
    assert_eq!(
        update_segment(&mut writer.state, 0, &seg, &new_seg, &proof),
        Err(TapeError::WriteFailed)
    );
}

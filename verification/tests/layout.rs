use tape::event::{WriteEvent, UpdateEvent, FinalizeEvent};
use tape::init::program_initialize;
use tape::miner_ops::miner_register;
use tape::spool_ops::{spool_create, spool_pack};
use tape::state::{Archive, Epoch, Block, Tape, Miner, Spool, Writer, Treasury};
use tape::tape_ops::{tape_create, tape_write};
use tape::utils::to_name;

#[test]
fn archive_record_round_trip() {
    let a = Archive { tapes_stored: 3, segments_stored: 77 };
    let bytes = a.to_bytes();
    assert_eq!(bytes.len(), 24);
    assert_eq!(bytes[0], 1);
    assert_eq!(&bytes[8..16], &3u64.to_le_bytes());
    assert_eq!(Archive::try_from_bytes(&bytes), Some(a));
    assert_eq!(Archive::try_from_bytes(&bytes[..16]), None);
    let mut wrong = bytes.clone();
    wrong[0] = 2;
    assert_eq!(Archive::try_from_bytes(&wrong), None);
}

#[test]
fn singleton_records_round_trip() {
    let (_, epoch, block) = program_initialize(123456, 42);
    let eb = epoch.to_bytes();
    assert_eq!(eb.len(), 72);
    assert_eq!(Epoch::try_from_bytes(&eb), Some(epoch));
    let bb = block.to_bytes();
    assert_eq!(bb.len(), 80);
    assert_eq!(Block::try_from_bytes(&bb), Some(block));
    let tb = Treasury {}.to_bytes();
    assert_eq!(tb.len(), 8);
    assert_eq!(Treasury::try_from_bytes(&tb), Some(Treasury {}));
    // A record parses only under its own kind tag.
    assert_eq!(Epoch::try_from_bytes(&bb[..72]), None);
}

#[test]
fn negative_timestamps_survive_the_round_trip() {
    let (_, mut epoch, _) = program_initialize(0, 0);
    epoch.last_epoch_at = -12345;
    let eb = epoch.to_bytes();
    assert_eq!(Epoch::try_from_bytes(&eb), Some(epoch));
}

#[test]
fn tape_and_writer_records_round_trip() {
    let authority = [1u8; 32];
    let address = [2u8; 32];
    let (mut tape, mut writer) = tape_create(&authority, &to_name(b"t"), &address, 9);
    tape_write(&mut tape, &mut writer, &[5u8; 200], &address, 10).unwrap();
    let tb = tape.to_bytes();
    assert_eq!(tb.len(), 256);
    assert_eq!(Tape::try_from_bytes(&tb), Some(tape));
    let wb = writer.to_bytes();
    assert_eq!(wb.len(), 1232);
    assert_eq!(Writer::try_from_bytes(&wb), Some(writer));
}

#[test]
fn miner_and_spool_records_round_trip() {
    let mut miner = miner_register(&[1u8; 32], &to_name(b"m"), &[2u8; 32], 3);
    miner.last_proof_at = -7;
    miner.unclaimed_rewards = 55;
    let mb = miner.to_bytes();
    assert_eq!(mb.len(), 184);
    assert_eq!(Miner::try_from_bytes(&mb), Some(miner));

    let mut spool = spool_create(&[1u8; 32], &[2u8; 32], 4, 5);
    spool_pack(&mut spool, &[0xEEu8; 32]).unwrap();
    let sb = spool.to_bytes();
    assert_eq!(sb.len(), 816);
    assert_eq!(Spool::try_from_bytes(&sb), Some(spool));
}

#[test]
fn event_records_have_tagged_layout() {
    let w = WriteEvent { num_added: 2, num_total: 5, prev_slot: 9, address: [3u8; 32] };
    let wb = w.to_bytes();
    assert_eq!(wb.len(), 64);
    assert_eq!(wb[0], 1);
    assert_eq!(&wb[8..16], &2u64.to_le_bytes());
    assert_eq!(&wb[32..], &[3u8; 32]);

    let u = UpdateEvent { segment_number: 4, prev_slot: 9, address: [3u8; 32] };
    let ub = u.to_bytes();
    assert_eq!(ub.len(), 56);
    assert_eq!(ub[0], 2);

    let f = FinalizeEvent { tape: 1, address: [3u8; 32] };
    let fb = f.to_bytes();
    assert_eq!(fb.len(), 48);
    assert_eq!(fb[0], 3);
    assert_eq!(&fb[8..16], &1u64.to_le_bytes());
}

use tape::instruction::TapeInstruction;
use tape::instruction::tape::{parse_create, parse_update, parse_set_header, parse_subsidize};
use tape::instruction::miner::{parse_register, parse_mine, parse_claim};
use tape::instruction::spool::{parse_pack, parse_unpack, parse_commit, parse_destroy};
use tape::instruction::program::parse_airdrop;

#[test]
fn discriminator_bytes_match_wire_protocol() {
    assert_eq!(TapeInstruction::Initialize.code(), 0x01);
    assert_eq!(TapeInstruction::Airdrop.code(), 0x02);
    assert_eq!(TapeInstruction::TapeCreate.code(), 0x10);
    assert_eq!(TapeInstruction::TapeSubsidize.code(), 0x15);
    assert_eq!(TapeInstruction::MinerRegister.code(), 0x20);
    assert_eq!(TapeInstruction::MinerClaim.code(), 0x23);
    assert_eq!(TapeInstruction::SpoolCreate.code(), 0x40);
    assert_eq!(TapeInstruction::SpoolCommit.code(), 0x44);
}

#[test]
fn discriminator_decoding_is_exact() {
    assert_eq!(
        TapeInstruction::try_from_byte(0x12),
        Some(TapeInstruction::TapeUpdate)
    );
    assert_eq!(
        TapeInstruction::try_from_byte(0x22),
        Some(TapeInstruction::MinerMine)
    );
    assert_eq!(TapeInstruction::try_from_byte(0x03), None);
    assert_eq!(TapeInstruction::try_from_byte(0x16), None);
    assert_eq!(TapeInstruction::try_from_byte(0xFF), None);
    // Every discriminator decodes back to its operation.
    for byte in 0u8..=0xFF {
        if let Some(i) = TapeInstruction::try_from_byte(byte) {
            assert_eq!(i.code(), byte);
        }
    }
}

#[test]
fn name_payloads_parse_exactly() {
    let name = [7u8; 32];
    assert_eq!(parse_create(&name).unwrap().name, name);
    assert_eq!(parse_register(&name).unwrap().name, name);
    assert!(parse_create(&name[..31]).is_none());
    assert!(parse_register(&[0u8; 33]).is_none());
}

#[test]
fn update_payload_parses_fields_in_order() {
    let mut data = Vec::new();
    data.extend_from_slice(&42u64.to_le_bytes());
    data.extend_from_slice(&[0x11u8; 128]);
    data.extend_from_slice(&[0x22u8; 128]);
    for i in 0..18u8 {
        data.extend_from_slice(&[i; 32]);
    }
    let u = parse_update(&data).unwrap();
    assert_eq!(u.segment_number, 42);
    assert_eq!(u.old_data, [0x11u8; 128]);
    assert_eq!(u.new_data, [0x22u8; 128]);
    assert_eq!(u.proof.0[0], [0u8; 32]);
    assert_eq!(u.proof.0[17], [17u8; 32]);
    data.push(0);
    assert!(parse_update(&data).is_none());
}

#[test]
fn mine_payload_parses_fields_in_order() {
    let mut data = Vec::new();
    data.extend_from_slice(&[0xD0u8; 16]); // digest
    data.extend_from_slice(&[0xD1u8; 8]); // nonce
    data.extend_from_slice(&[0xD2u8; 8]); // bump
    data.extend_from_slice(&[0xD3u8; 16]); // packing seeds
    data.extend_from_slice(&[0xD4u8; 128]); // packing nonces
    for i in 0..18u8 {
        data.extend_from_slice(&[i; 32]);
    }
    let m = parse_mine(&data).unwrap();
    assert_eq!(m.pow.digest, [0xD0u8; 16]);
    assert_eq!(m.pow.nonce, [0xD1u8; 8]);
    assert_eq!(m.poa.bump, [0xD2u8; 8]);
    assert_eq!(m.poa.seed, [0xD3u8; 16]);
    assert_eq!(m.poa.nonce, [0xD4u8; 128]);
    assert_eq!(m.poa.path.0[17], [17u8; 32]);
    assert!(parse_mine(&data[..751]).is_none());
}

#[test]
fn small_payloads_parse_exactly() {
    assert_eq!(parse_subsidize(&5u64.to_le_bytes()).unwrap().amount, 5);
    assert_eq!(parse_claim(&6u64.to_le_bytes()).unwrap().amount, 6);
    assert_eq!(parse_airdrop(&7u64.to_le_bytes()).unwrap().amount, 7);
    assert_eq!(parse_destroy(&8u64.to_le_bytes()).unwrap().number, 8);
    assert!(parse_claim(&[0u8; 7]).is_none());
    assert_eq!(parse_set_header(&[9u8; 64]).unwrap().header, [9u8; 64]);
    assert!(parse_set_header(&[9u8; 63]).is_none());
    assert_eq!(parse_pack(&[4u8; 32]).unwrap().value, [4u8; 32]);
}

#[test]
fn spool_proof_payloads_parse_fields_in_order() {
    let mut data = Vec::new();
    data.extend_from_slice(&3u64.to_le_bytes());
    for i in 0..10u8 {
        data.extend_from_slice(&[i; 32]);
    }
    data.extend_from_slice(&[0xCCu8; 32]);
    let u = parse_unpack(&data).unwrap();
    assert_eq!(u.index, 3);
    assert_eq!(u.proof[9], [9u8; 32]);
    assert_eq!(u.value, [0xCCu8; 32]);
    let c = parse_commit(&data).unwrap();
    assert_eq!(c.index, 3);
    assert_eq!(c.value, [0xCCu8; 32]);
    assert!(parse_commit(&data[..359]).is_none());
}

//! Instruction wire format: a single-byte discriminator selecting the
//! operation, followed by that operation's fixed-layout payload.

use vstd::prelude::*;

pub mod tape;
pub mod miner;
pub mod spool;
pub mod program;

verus! {

/// The operation selected by an instruction's first byte.
#[derive(Clone, Copy, Debug, PartialEq, Eq, Structural)]
pub enum TapeInstruction {
    Unknown,
    Initialize,
    Airdrop,
    TapeCreate,
    TapeWrite,
    TapeUpdate,
    TapeFinalize,
    TapeSetHeader,
    TapeSubsidize,
    MinerRegister,
    MinerUnregister,
    MinerMine,
    MinerClaim,
    SpoolCreate,
    SpoolDestroy,
    SpoolPack,
    SpoolUnpack,
    SpoolCommit,
}

impl TapeInstruction {
    /// The discriminator byte of this operation.
    pub open spec fn spec_code(self) -> u8 {
        match self {
            TapeInstruction::Unknown => 0x00,
            TapeInstruction::Initialize => 0x01,
            TapeInstruction::Airdrop => 0x02,
            TapeInstruction::TapeCreate => 0x10,
            TapeInstruction::TapeWrite => 0x11,
            TapeInstruction::TapeUpdate => 0x12,
            TapeInstruction::TapeFinalize => 0x13,
            TapeInstruction::TapeSetHeader => 0x14,
            TapeInstruction::TapeSubsidize => 0x15,
            TapeInstruction::MinerRegister => 0x20,
            TapeInstruction::MinerUnregister => 0x21,
            TapeInstruction::MinerMine => 0x22,
            TapeInstruction::MinerClaim => 0x23,
            TapeInstruction::SpoolCreate => 0x40,
            TapeInstruction::SpoolDestroy => 0x41,
            TapeInstruction::SpoolPack => 0x42,
            TapeInstruction::SpoolUnpack => 0x43,
            TapeInstruction::SpoolCommit => 0x44,
        }
    }

    /// The discriminator byte of this operation.
    #[verifier::when_used_as_spec(spec_code)]
    pub fn code(self) -> (c: u8)
        ensures
            c == self.spec_code(),
    {
        match self {
            TapeInstruction::Unknown => 0x00,
            TapeInstruction::Initialize => 0x01,
            TapeInstruction::Airdrop => 0x02,
            TapeInstruction::TapeCreate => 0x10,
            TapeInstruction::TapeWrite => 0x11,
            TapeInstruction::TapeUpdate => 0x12,
            TapeInstruction::TapeFinalize => 0x13,
            TapeInstruction::TapeSetHeader => 0x14,
            TapeInstruction::TapeSubsidize => 0x15,
            TapeInstruction::MinerRegister => 0x20,
            TapeInstruction::MinerUnregister => 0x21,
            TapeInstruction::MinerMine => 0x22,
            TapeInstruction::MinerClaim => 0x23,
            TapeInstruction::SpoolCreate => 0x40,
            TapeInstruction::SpoolDestroy => 0x41,
            TapeInstruction::SpoolPack => 0x42,
            TapeInstruction::SpoolUnpack => 0x43,
            TapeInstruction::SpoolCommit => 0x44,
        }
    }

    /// The operation a discriminator byte selects, if any.
    pub open spec fn spec_from_byte(value: u8) -> Option<TapeInstruction> {
        match value {
            0x00u8 => Some(TapeInstruction::Unknown),
            0x01u8 => Some(TapeInstruction::Initialize),
            0x02u8 => Some(TapeInstruction::Airdrop),
            0x10u8 => Some(TapeInstruction::TapeCreate),
            0x11u8 => Some(TapeInstruction::TapeWrite),
            0x12u8 => Some(TapeInstruction::TapeUpdate),
            0x13u8 => Some(TapeInstruction::TapeFinalize),
            0x14u8 => Some(TapeInstruction::TapeSetHeader),
            0x15u8 => Some(TapeInstruction::TapeSubsidize),
            0x20u8 => Some(TapeInstruction::MinerRegister),
            0x21u8 => Some(TapeInstruction::MinerUnregister),
            0x22u8 => Some(TapeInstruction::MinerMine),
            0x23u8 => Some(TapeInstruction::MinerClaim),
            0x40u8 => Some(TapeInstruction::SpoolCreate),
            0x41u8 => Some(TapeInstruction::SpoolDestroy),
            0x42u8 => Some(TapeInstruction::SpoolPack),
            0x43u8 => Some(TapeInstruction::SpoolUnpack),
            0x44u8 => Some(TapeInstruction::SpoolCommit),
            _ => None,
        }
    }

    /// Decode a discriminator byte.
    pub fn try_from_byte(value: u8) -> (r: Option<TapeInstruction>)
        ensures
            r == TapeInstruction::spec_from_byte(value),
    {
        match value {
            0x00 => Some(TapeInstruction::Unknown),
            0x01 => Some(TapeInstruction::Initialize),
            0x02 => Some(TapeInstruction::Airdrop),
            0x10 => Some(TapeInstruction::TapeCreate),
            0x11 => Some(TapeInstruction::TapeWrite),
            0x12 => Some(TapeInstruction::TapeUpdate),
            0x13 => Some(TapeInstruction::TapeFinalize),
            0x14 => Some(TapeInstruction::TapeSetHeader),
            0x15 => Some(TapeInstruction::TapeSubsidize),
            0x20 => Some(TapeInstruction::MinerRegister),
            0x21 => Some(TapeInstruction::MinerUnregister),
            0x22 => Some(TapeInstruction::MinerMine),
            0x23 => Some(TapeInstruction::MinerClaim),
            0x40 => Some(TapeInstruction::SpoolCreate),
            0x41 => Some(TapeInstruction::SpoolDestroy),
            0x42 => Some(TapeInstruction::SpoolPack),
            0x43 => Some(TapeInstruction::SpoolUnpack),
            0x44 => Some(TapeInstruction::SpoolCommit),
            _ => None,
        }
    }
}

/// Decoding any operation's own discriminator byte yields it back.
pub proof fn lemma_instruction_code_round_trip(i: TapeInstruction)
    ensures
        TapeInstruction::spec_from_byte(i.spec_code()) == Some(i),
{
}

/// A byte that decodes at all decodes to the operation carrying it.
pub proof fn lemma_instruction_byte_round_trip(value: u8)
    ensures
        match TapeInstruction::spec_from_byte(value) {
            Some(i) => i.spec_code() == value,
            None => true,
        },
{
}

} // verus!

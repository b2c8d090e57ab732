//! Protocol error taxonomy, with the numeric codes of the wire protocol.

use vstd::prelude::*;

verus! {

/// Errors a protocol handler can return. Each carries a fixed numeric code
/// surfaced to the host as a custom error.
#[derive(Clone, Copy, Debug, PartialEq, Eq, Structural)]
pub enum TapeError {
    /// Unknown error.
    UnknownError,
    /// The provided tape is in an unexpected state.
    UnexpectedState,
    /// The tape write failed.
    WriteFailed,
    /// The tape is too long.
    TapeTooLong,
    /// The tape does not have enough rent.
    InsufficientRent,
    /// The provided hash is invalid.
    SolutionInvalid,
    /// The provided tape doesn't match the expected tape.
    UnexpectedTape,
    /// The provided hash did not satisfy the minimum required difficulty.
    SolutionTooEasy,
    /// The provided solution is too early.
    SolutionTooEarly,
    /// The provided claim is too large.
    ClaimTooLarge,
    /// Computed commitment does not match the miner commitment.
    CommitmentMismatch,
    /// Failed to pack the tape into the spool.
    SpoolPackFailed,
    /// Failed to unpack the tape from the spool.
    SpoolUnpackFailed,
    /// Too many tapes in the spool.
    SpoolTooManyTapes,
    /// Spool commit failed.
    SpoolCommitFailed,
}

impl TapeError {
    /// The numeric error code reported to the host.
    pub open spec fn spec_code(self) -> u32 {
        match self {
            TapeError::UnknownError => 0,
            TapeError::UnexpectedState => 0x10,
            TapeError::WriteFailed => 0x11,
            TapeError::TapeTooLong => 0x12,
            TapeError::InsufficientRent => 0x13,
            TapeError::SolutionInvalid => 0x20,
            TapeError::UnexpectedTape => 0x21,
            TapeError::SolutionTooEasy => 0x22,
            TapeError::SolutionTooEarly => 0x23,
            TapeError::ClaimTooLarge => 0x24,
            TapeError::CommitmentMismatch => 0x25,
            TapeError::SpoolPackFailed => 0x30,
            TapeError::SpoolUnpackFailed => 0x31,
            TapeError::SpoolTooManyTapes => 0x32,
            TapeError::SpoolCommitFailed => 0x33,
        }
    }

    /// The numeric error code reported to the host.
    #[verifier::when_used_as_spec(spec_code)]
    pub fn code(self) -> (c: u32)
        ensures
            c == self.spec_code(),
    {
        match self {
            TapeError::UnknownError => 0,
            TapeError::UnexpectedState => 0x10,
            TapeError::WriteFailed => 0x11,
            TapeError::TapeTooLong => 0x12,
            TapeError::InsufficientRent => 0x13,
            TapeError::SolutionInvalid => 0x20,
            TapeError::UnexpectedTape => 0x21,
            TapeError::SolutionTooEasy => 0x22,
            TapeError::SolutionTooEarly => 0x23,
            TapeError::ClaimTooLarge => 0x24,
            TapeError::CommitmentMismatch => 0x25,
            TapeError::SpoolPackFailed => 0x30,
            TapeError::SpoolUnpackFailed => 0x31,
            TapeError::SpoolTooManyTapes => 0x32,
            TapeError::SpoolCommitFailed => 0x33,
        }
    }
}

/// Return `Ok(())` when the condition holds, the given error otherwise.
pub fn check_condition(condition: bool, err: TapeError) -> (r: Result<(), TapeError>)
    ensures
        r == if condition { Ok::<(), TapeError>(()) } else { Err::<(), TapeError>(err) },
{
    if condition {
        Ok(())
    } else {
        Err(err)
    }
}

} // verus!

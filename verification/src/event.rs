//! Event records emitted by the tape handlers to the host's log stream.

use vstd::prelude::*;

verus! {

/// Kind tag stored in the first byte of an emitted event record.
#[derive(Clone, Copy, Debug, PartialEq, Eq, Structural)]
pub enum EventType {
    Unknown,
    WriteEvent,
    UpdateEvent,
    FinalizeEvent,
}

impl EventType {
    /// The numeric kind tag of this event type.
    pub open spec fn spec_code(self) -> u8 {
        match self {
            EventType::Unknown => 0,
            EventType::WriteEvent => 1,
            EventType::UpdateEvent => 2,
            EventType::FinalizeEvent => 3,
        }
    }

    /// The numeric kind tag of this event type.
    #[verifier::when_used_as_spec(spec_code)]
    pub fn code(self) -> (c: u8)
        ensures
            c == self.spec_code(),
    {
        match self {
            EventType::Unknown => 0,
            EventType::WriteEvent => 1,
            EventType::UpdateEvent => 2,
            EventType::FinalizeEvent => 3,
        }
    }
}

/// Emitted after a successful tape write.
#[derive(Clone, Copy, Debug, PartialEq)]
pub struct WriteEvent {
    /// Segments appended by this write.
    pub num_added: u64,
    /// Total segments stored after this write.
    pub num_total: u64,
    /// The tape's tail slot before this write.
    pub prev_slot: u64,
    /// Address of the written tape.
    pub address: [u8; 32],
}

/// Emitted after a successful segment update.
#[derive(Clone, Copy, Debug, PartialEq)]
pub struct UpdateEvent {
    /// Index of the replaced segment.
    pub segment_number: u64,
    /// The tape's tail slot before this update.
    pub prev_slot: u64,
    /// Address of the updated tape.
    pub address: [u8; 32],
}

/// Emitted after a successful finalization.
#[derive(Clone, Copy, Debug, PartialEq)]
pub struct FinalizeEvent {
    /// The finalized tape's one-based id.
    pub tape: u64,
    /// Address of the finalized tape.
    pub address: [u8; 32],
}

} // verus!

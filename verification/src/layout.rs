//! Persisted record layout: every account is stored as a little-endian
//! 64-bit kind tag followed by the entity's fields, packed little-endian
//! in declaration order.

use vstd::prelude::*;
use vstd::bytes::{spec_u64_to_le_bytes, spec_u64_from_le_bytes, u64_to_le_bytes};
use crate::consts::{SEGMENT_TREE_HEIGHT, TAPE_TREE_HEIGHT};
use crate::event::{EventType, WriteEvent, UpdateEvent, FinalizeEvent};
use crate::hashing::push_bytes;
use crate::merkle::MerkleTree;
use crate::state::{
    Archive, Epoch, Block, Tape, Miner, Spool, Writer, Treasury, AccountType,
};
use crate::utils::{read_u64_le, read_array, read_hashes};

verus! {

/// The little-endian bytes of a signed 64-bit field: its two's-complement
/// bit pattern.
pub open spec fn spec_i64_le(x: i64) -> Seq<u8> {
    spec_u64_to_le_bytes(x as u64)
}

/// Append a little-endian 64-bit integer.
pub fn push_u64_le(out: &mut Vec<u8>, x: u64)
    ensures
        final(out)@ == old(out)@ + spec_u64_to_le_bytes(x),
{
    let bytes = u64_to_le_bytes(x);
    push_bytes(out, bytes.as_slice());
}

/// Append a little-endian signed 64-bit integer, as its bit pattern.
pub fn push_i64_le(out: &mut Vec<u8>, x: i64)
    ensures
        final(out)@ == old(out)@ + spec_i64_le(x),
{
    let unsigned: u64 = #[verifier::truncate] (x as u64);
    push_u64_le(out, unsigned);
}

/// Read a signed 64-bit field back from its bit pattern.
pub fn read_i64_le(data: &[u8], off: usize) -> (x: i64)
    requires
        off + 8 <= data@.len(),
    ensures
        x == spec_u64_from_le_bytes(data@.subrange(off as int, off + 8)) as i64,
{
    let unsigned = read_u64_le(data, off);
    #[verifier::truncate] (unsigned as i64)
}

/// An unsigned bit pattern survives the signed round trip.
pub proof fn lemma_u64_bits_round_trip(x: u64)
    ensures
        (x as i64) as u64 == x,
{
    assert((x as i64) as u64 == x) by (bit_vector);
}

/// The concatenated bytes of a run of 32-byte hashes.
pub open spec fn spec_hashes_bytes(s: Seq<[u8; 32]>) -> Seq<u8>
    decreases s.len(),
{
    if s.len() == 0 {
        Seq::empty()
    } else {
        spec_hashes_bytes(s.drop_last()) + s.last()@
    }
}

/// A run of hashes has 32 bytes per hash.
pub proof fn lemma_hashes_bytes_len(s: Seq<[u8; 32]>)
    ensures
        spec_hashes_bytes(s).len() == 32 * s.len(),
    decreases s.len(),
{
    if s.len() > 0 {
        lemma_hashes_bytes_len(s.drop_last());
    }
}

/// Hashes read back from consecutive 32-byte subranges of a buffer
/// concatenate to that stretch of the buffer.
pub proof fn lemma_hashes_bytes_of_subranges(s: Seq<[u8; 32]>, data: Seq<u8>, off: int)
    requires
        0 <= off,
        off + 32 * s.len() <= data.len(),
        forall|i: int|
            0 <= i < s.len() ==> #[trigger] s[i]@ == data.subrange(off + 32 * i, off + 32 * i + 32),
    ensures
        spec_hashes_bytes(s) == data.subrange(off, off + 32 * s.len()),
    decreases s.len(),
{
    if s.len() == 0 {
        assert(spec_hashes_bytes(s) =~= data.subrange(off, off));
    } else {
        let n = s.len() as int;
        let front = s.drop_last();
        assert forall|i: int| 0 <= i < front.len() implies #[trigger] front[i]@ == data.subrange(
            off + 32 * i,
            off + 32 * i + 32,
        ) by {
            assert(front[i] == s[i]);
        }
        lemma_hashes_bytes_of_subranges(front, data, off);
        assert(s.last()@ == data.subrange(off + 32 * (n - 1), off + 32 * (n - 1) + 32));
        assert(spec_hashes_bytes(s) =~= data.subrange(off, off + 32 * n));
    }
}

/// Append a run of 32-byte hashes.
pub fn push_hashes<const N: usize>(out: &mut Vec<u8>, hashes: &[[u8; 32]; N])
    ensures
        final(out)@ == old(out)@ + spec_hashes_bytes(hashes@),
{
    let mut i: usize = 0;
    while i < N
        invariant
            0 <= i <= N,
            out@ == old(out)@ + spec_hashes_bytes(hashes@.take(i as int)),
        decreases N - i,
    {
        push_bytes(out, hashes[i].as_slice());
        proof {
            let taken = hashes@.take(i as int + 1);
            assert(taken.drop_last() =~= hashes@.take(i as int));
            assert(taken.last() == hashes@[i as int]);
            assert(out@ =~= old(out)@ + spec_hashes_bytes(taken));
        }
        i = i + 1;
    }
    proof {
        assert(hashes@.take(N as int) =~= hashes@);
    }
}

/// The stored form of a Merkle accumulator of height `N`.
pub open spec fn spec_tree_bytes<const N: usize>(t: MerkleTree<N>) -> Seq<u8> {
    t.root@ + spec_hashes_bytes(t.filled_subtrees@) + spec_hashes_bytes(t.zero_values@)
        + spec_u64_to_le_bytes(t.next_index)
}

/// Append the stored form of a Merkle accumulator.
pub fn push_tree<const N: usize>(out: &mut Vec<u8>, t: &MerkleTree<N>)
    ensures
        final(out)@ == old(out)@ + spec_tree_bytes::<N>(*t),
{
    push_bytes(out, t.root.as_slice());
    push_hashes(out, &t.filled_subtrees);
    push_hashes(out, &t.zero_values);
    push_u64_le(out, t.next_index);
}

/// Read a stored Merkle accumulator back from a buffer at an offset.
pub fn read_tree<const N: usize>(data: &[u8], off: usize) -> (t: MerkleTree<N>)
    requires
        off + 40 + 64 * N <= data@.len(),
    ensures
        spec_tree_bytes::<N>(t) == data@.subrange(off as int, off + 40 + 64 * N),
{
    let n = data.len();
    proof {
        assert(off + 40 + 64 * N <= n);
        assert(off + 32 + 32 * N + 32 * N + 8 <= n);
    }
    let root = read_array::<32>(data, off);
    let filled_subtrees = read_hashes::<N>(data, off + 32);
    let zeros_off = off + 32 + 32 * N;
    let zero_values = read_hashes::<N>(data, zeros_off);
    let next_off = off + 32 + 64 * N;
    let next_index = read_u64_le(data, next_off);
    let t = MerkleTree { root, filled_subtrees, zero_values, next_index };
    proof {
        lemma_hashes_bytes_of_subranges(filled_subtrees@, data@, off + 32);
        lemma_hashes_bytes_of_subranges(zero_values@, data@, zeros_off as int);
        lemma_hashes_bytes_len(filled_subtrees@);
        lemma_hashes_bytes_len(zero_values@);
        vstd::bytes::lemma_auto_spec_u64_to_from_le_bytes();
        assert(spec_tree_bytes::<N>(t) =~= data@.subrange(off as int, off + 40 + 64 * N));
    }
    t
}

/// The stored form of the archive record.
pub open spec fn spec_archive_bytes(a: Archive) -> Seq<u8> {
    spec_u64_to_le_bytes(AccountType::Archive.spec_code() as u64)
        + spec_u64_to_le_bytes(a.tapes_stored) + spec_u64_to_le_bytes(a.segments_stored)
}

impl Archive {
    /// Serialize this record to its stored form.
    pub fn to_bytes(&self) -> (out: Vec<u8>)
        ensures
            out@ == spec_archive_bytes(*self),
    {
        let mut out: Vec<u8> = Vec::new();
        push_u64_le(&mut out, AccountType::Archive.code() as u64);
        push_u64_le(&mut out, self.tapes_stored);
        push_u64_le(&mut out, self.segments_stored);
        out
    }

    /// Parse a stored archive record; `None` exactly when the length or
    /// the kind tag is wrong, and the parsed record re-serializes to the
    /// input.
    pub fn try_from_bytes(data: &[u8]) -> (r: Option<Archive>)
        ensures
            match r {
                Some(a) => spec_archive_bytes(a) == data@,
                None => data@.len() != 24 || spec_u64_from_le_bytes(data@.subrange(0, 8))
                    != AccountType::Archive.spec_code() as u64,
            },
    {
        if data.len() != 24 {
            return None;
        }
        let disc = read_u64_le(data, 0);
        if disc != AccountType::Archive.code() as u64 {
            return None;
        }
        let a = Archive {
            tapes_stored: read_u64_le(data, 8),
            segments_stored: read_u64_le(data, 16),
        };
        proof {
            vstd::bytes::lemma_auto_spec_u64_to_from_le_bytes();
            assert(spec_archive_bytes(a) =~= data@);
        }
        Some(a)
    }
}

/// The stored form of the epoch record.
pub open spec fn spec_epoch_bytes(e: Epoch) -> Seq<u8> {
    spec_u64_to_le_bytes(AccountType::Epoch.spec_code() as u64) + spec_u64_to_le_bytes(e.number)
        + spec_u64_to_le_bytes(e.progress) + spec_u64_to_le_bytes(e.mining_difficulty)
        + spec_u64_to_le_bytes(e.packing_difficulty) + spec_u64_to_le_bytes(e.target_participation)
        + spec_u64_to_le_bytes(e.reward_rate) + spec_u64_to_le_bytes(e.duplicates) + spec_i64_le(
        e.last_epoch_at,
    )
}

impl Epoch {
    /// Serialize this record to its stored form.
    pub fn to_bytes(&self) -> (out: Vec<u8>)
        ensures
            out@ == spec_epoch_bytes(*self),
    {
        let mut out: Vec<u8> = Vec::new();
        push_u64_le(&mut out, AccountType::Epoch.code() as u64);
        push_u64_le(&mut out, self.number);
        push_u64_le(&mut out, self.progress);
        push_u64_le(&mut out, self.mining_difficulty);
        push_u64_le(&mut out, self.packing_difficulty);
        push_u64_le(&mut out, self.target_participation);
        push_u64_le(&mut out, self.reward_rate);
        push_u64_le(&mut out, self.duplicates);
        push_i64_le(&mut out, self.last_epoch_at);
        out
    }

    /// Parse a stored epoch record; the parsed record re-serializes to the
    /// input.
    pub fn try_from_bytes(data: &[u8]) -> (r: Option<Epoch>)
        ensures
            match r {
                Some(e) => spec_epoch_bytes(e) == data@,
                None => data@.len() != 72 || spec_u64_from_le_bytes(data@.subrange(0, 8))
                    != AccountType::Epoch.spec_code() as u64,
            },
    {
        if data.len() != 72 {
            return None;
        }
        let disc = read_u64_le(data, 0);
        if disc != AccountType::Epoch.code() as u64 {
            return None;
        }
        let e = Epoch {
            number: read_u64_le(data, 8),
            progress: read_u64_le(data, 16),
            mining_difficulty: read_u64_le(data, 24),
            packing_difficulty: read_u64_le(data, 32),
            target_participation: read_u64_le(data, 40),
            reward_rate: read_u64_le(data, 48),
            duplicates: read_u64_le(data, 56),
            last_epoch_at: read_i64_le(data, 64),
        };
        proof {
            vstd::bytes::lemma_auto_spec_u64_to_from_le_bytes();
            lemma_u64_bits_round_trip(spec_u64_from_le_bytes(data@.subrange(64, 72)));
            assert(spec_epoch_bytes(e) =~= data@);
        }
        Some(e)
    }
}

/// The stored form of the block record.
pub open spec fn spec_block_bytes(b: Block) -> Seq<u8> {
    spec_u64_to_le_bytes(AccountType::Block.spec_code() as u64) + spec_u64_to_le_bytes(b.number)
        + spec_u64_to_le_bytes(b.progress) + b.challenge@ + spec_u64_to_le_bytes(b.challenge_set)
        + spec_i64_le(b.last_proof_at) + spec_i64_le(b.last_block_at)
}

impl Block {
    /// Serialize this record to its stored form.
    pub fn to_bytes(&self) -> (out: Vec<u8>)
        ensures
            out@ == spec_block_bytes(*self),
    {
        let mut out: Vec<u8> = Vec::new();
        push_u64_le(&mut out, AccountType::Block.code() as u64);
        push_u64_le(&mut out, self.number);
        push_u64_le(&mut out, self.progress);
        push_bytes(&mut out, self.challenge.as_slice());
        push_u64_le(&mut out, self.challenge_set);
        push_i64_le(&mut out, self.last_proof_at);
        push_i64_le(&mut out, self.last_block_at);
        out
    }

    /// Parse a stored block record; the parsed record re-serializes to the
    /// input.
    pub fn try_from_bytes(data: &[u8]) -> (r: Option<Block>)
        ensures
            match r {
                Some(b) => spec_block_bytes(b) == data@,
                None => data@.len() != 80 || spec_u64_from_le_bytes(data@.subrange(0, 8))
                    != AccountType::Block.spec_code() as u64,
            },
    {
        if data.len() != 80 {
            return None;
        }
        let disc = read_u64_le(data, 0);
        if disc != AccountType::Block.code() as u64 {
            return None;
        }
        let b = Block {
            number: read_u64_le(data, 8),
            progress: read_u64_le(data, 16),
            challenge: read_array::<32>(data, 24),
            challenge_set: read_u64_le(data, 56),
            last_proof_at: read_i64_le(data, 64),
            last_block_at: read_i64_le(data, 72),
        };
        proof {
            vstd::bytes::lemma_auto_spec_u64_to_from_le_bytes();
            lemma_u64_bits_round_trip(spec_u64_from_le_bytes(data@.subrange(64, 72)));
            lemma_u64_bits_round_trip(spec_u64_from_le_bytes(data@.subrange(72, 80)));
            assert(spec_block_bytes(b) =~= data@);
        }
        Some(b)
    }
}

/// The stored form of a tape record.
pub open spec fn spec_tape_bytes(t: Tape) -> Seq<u8> {
    spec_u64_to_le_bytes(AccountType::Tape.spec_code() as u64) + spec_u64_to_le_bytes(t.number)
        + spec_u64_to_le_bytes(t.state) + t.authority@ + t.name@ + t.merkle_seed@ + t.merkle_root@
        + t.header@ + spec_u64_to_le_bytes(t.first_slot) + spec_u64_to_le_bytes(t.tail_slot)
        + spec_u64_to_le_bytes(t.balance) + spec_u64_to_le_bytes(t.last_rent_block)
        + spec_u64_to_le_bytes(t.total_segments)
}

impl Tape {
    /// Serialize this record to its stored form.
    pub fn to_bytes(&self) -> (out: Vec<u8>)
        ensures
            out@ == spec_tape_bytes(*self),
    {
        let mut out: Vec<u8> = Vec::new();
        push_u64_le(&mut out, AccountType::Tape.code() as u64);
        push_u64_le(&mut out, self.number);
        push_u64_le(&mut out, self.state);
        push_bytes(&mut out, self.authority.as_slice());
        push_bytes(&mut out, self.name.as_slice());
        push_bytes(&mut out, self.merkle_seed.as_slice());
        push_bytes(&mut out, self.merkle_root.as_slice());
        push_bytes(&mut out, self.header.as_slice());
        push_u64_le(&mut out, self.first_slot);
        push_u64_le(&mut out, self.tail_slot);
        push_u64_le(&mut out, self.balance);
        push_u64_le(&mut out, self.last_rent_block);
        push_u64_le(&mut out, self.total_segments);
        out
    }

    /// Parse a stored tape record; the parsed record re-serializes to the
    /// input.
    pub fn try_from_bytes(data: &[u8]) -> (r: Option<Tape>)
        ensures
            match r {
                Some(t) => spec_tape_bytes(t) == data@,
                None => data@.len() != 256 || spec_u64_from_le_bytes(data@.subrange(0, 8))
                    != AccountType::Tape.spec_code() as u64,
            },
    {
        if data.len() != 256 {
            return None;
        }
        let disc = read_u64_le(data, 0);
        if disc != AccountType::Tape.code() as u64 {
            return None;
        }
        let t = Tape {
            number: read_u64_le(data, 8),
            state: read_u64_le(data, 16),
            authority: read_array::<32>(data, 24),
            name: read_array::<32>(data, 56),
            merkle_seed: read_array::<32>(data, 88),
            merkle_root: read_array::<32>(data, 120),
            header: read_array::<64>(data, 152),
            first_slot: read_u64_le(data, 216),
            tail_slot: read_u64_le(data, 224),
            balance: read_u64_le(data, 232),
            last_rent_block: read_u64_le(data, 240),
            total_segments: read_u64_le(data, 248),
        };
        proof {
            vstd::bytes::lemma_auto_spec_u64_to_from_le_bytes();
            assert(spec_tape_bytes(t) =~= data@);
        }
        Some(t)
    }
}

/// The stored form of a miner record.
pub open spec fn spec_miner_bytes(m: Miner) -> Seq<u8> {
    spec_u64_to_le_bytes(AccountType::Miner.spec_code() as u64) + m.authority@ + m.name@
        + spec_u64_to_le_bytes(m.unclaimed_rewards) + m.challenge@ + m.commitment@
        + spec_u64_to_le_bytes(m.multiplier) + spec_u64_to_le_bytes(m.last_proof_block)
        + spec_i64_le(m.last_proof_at) + spec_u64_to_le_bytes(m.total_proofs)
        + spec_u64_to_le_bytes(m.total_rewards)
}

impl Miner {
    /// Serialize this record to its stored form.
    pub fn to_bytes(&self) -> (out: Vec<u8>)
        ensures
            out@ == spec_miner_bytes(*self),
    {
        let mut out: Vec<u8> = Vec::new();
        push_u64_le(&mut out, AccountType::Miner.code() as u64);
        push_bytes(&mut out, self.authority.as_slice());
        push_bytes(&mut out, self.name.as_slice());
        push_u64_le(&mut out, self.unclaimed_rewards);
        push_bytes(&mut out, self.challenge.as_slice());
        push_bytes(&mut out, self.commitment.as_slice());
        push_u64_le(&mut out, self.multiplier);
        push_u64_le(&mut out, self.last_proof_block);
        push_i64_le(&mut out, self.last_proof_at);
        push_u64_le(&mut out, self.total_proofs);
        push_u64_le(&mut out, self.total_rewards);
        out
    }

    /// Parse a stored miner record; the parsed record re-serializes to the
    /// input.
    pub fn try_from_bytes(data: &[u8]) -> (r: Option<Miner>)
        ensures
            match r {
                Some(m) => spec_miner_bytes(m) == data@,
                None => data@.len() != 184 || spec_u64_from_le_bytes(data@.subrange(0, 8))
                    != AccountType::Miner.spec_code() as u64,
            },
    {
        if data.len() != 184 {
            return None;
        }
        let disc = read_u64_le(data, 0);
        if disc != AccountType::Miner.code() as u64 {
            return None;
        }
        let m = Miner {
            authority: read_array::<32>(data, 8),
            name: read_array::<32>(data, 40),
            unclaimed_rewards: read_u64_le(data, 72),
            challenge: read_array::<32>(data, 80),
            commitment: read_array::<32>(data, 112),
            multiplier: read_u64_le(data, 144),
            last_proof_block: read_u64_le(data, 152),
            last_proof_at: read_i64_le(data, 160),
            total_proofs: read_u64_le(data, 168),
            total_rewards: read_u64_le(data, 176),
        };
        proof {
            vstd::bytes::lemma_auto_spec_u64_to_from_le_bytes();
            lemma_u64_bits_round_trip(spec_u64_from_le_bytes(data@.subrange(160, 168)));
            assert(spec_miner_bytes(m) =~= data@);
        }
        Some(m)
    }
}

/// The stored form of a writer record.
pub open spec fn spec_writer_bytes(w: Writer) -> Seq<u8> {
    spec_u64_to_le_bytes(AccountType::Writer.spec_code() as u64) + w.tape@ + spec_tree_bytes::<
        SEGMENT_TREE_HEIGHT,
    >(w.state)
}

impl Writer {
    /// Serialize this record to its stored form.
    pub fn to_bytes(&self) -> (out: Vec<u8>)
        ensures
            out@ == spec_writer_bytes(*self),
    {
        let mut out: Vec<u8> = Vec::new();
        push_u64_le(&mut out, AccountType::Writer.code() as u64);
        push_bytes(&mut out, self.tape.as_slice());
        push_tree(&mut out, &self.state);
        out
    }

    /// Parse a stored writer record; the parsed record re-serializes to
    /// the input.
    pub fn try_from_bytes(data: &[u8]) -> (r: Option<Writer>)
        ensures
            match r {
                Some(w) => spec_writer_bytes(w) == data@,
                None => data@.len() != 1232 || spec_u64_from_le_bytes(data@.subrange(0, 8))
                    != AccountType::Writer.spec_code() as u64,
            },
    {
        if data.len() != 1232 {
            return None;
        }
        let disc = read_u64_le(data, 0);
        if disc != AccountType::Writer.code() as u64 {
            return None;
        }
        let w = Writer {
            tape: read_array::<32>(data, 8),
            state: read_tree::<SEGMENT_TREE_HEIGHT>(data, 40),
        };
        proof {
            vstd::bytes::lemma_auto_spec_u64_to_from_le_bytes();
            assert(spec_writer_bytes(w) =~= data@);
        }
        Some(w)
    }
}

/// The stored form of a spool record.
pub open spec fn spec_spool_bytes(s: Spool) -> Seq<u8> {
    spec_u64_to_le_bytes(AccountType::Spool.spec_code() as u64) + spec_u64_to_le_bytes(s.number)
        + s.authority@ + spec_tree_bytes::<TAPE_TREE_HEIGHT>(s.state) + s.seed@ + s.contains@
        + spec_u64_to_le_bytes(s.total_tapes) + spec_u64_to_le_bytes(s.last_proof_block)
        + spec_i64_le(s.last_proof_at)
}

impl Spool {
    /// Serialize this record to its stored form.
    pub fn to_bytes(&self) -> (out: Vec<u8>)
        ensures
            out@ == spec_spool_bytes(*self),
    {
        let mut out: Vec<u8> = Vec::new();
        push_u64_le(&mut out, AccountType::Spool.code() as u64);
        push_u64_le(&mut out, self.number);
        push_bytes(&mut out, self.authority.as_slice());
        push_tree(&mut out, &self.state);
        push_bytes(&mut out, self.seed.as_slice());
        push_bytes(&mut out, self.contains.as_slice());
        push_u64_le(&mut out, self.total_tapes);
        push_u64_le(&mut out, self.last_proof_block);
        push_i64_le(&mut out, self.last_proof_at);
        out
    }

    /// Parse a stored spool record; the parsed record re-serializes to the
    /// input.
    pub fn try_from_bytes(data: &[u8]) -> (r: Option<Spool>)
        ensures
            match r {
                Some(s) => spec_spool_bytes(s) == data@,
                None => data@.len() != 816 || spec_u64_from_le_bytes(data@.subrange(0, 8))
                    != AccountType::Spool.spec_code() as u64,
            },
    {
        if data.len() != 816 {
            return None;
        }
        let disc = read_u64_le(data, 0);
        if disc != AccountType::Spool.code() as u64 {
            return None;
        }
        let s = Spool {
            number: read_u64_le(data, 8),
            authority: read_array::<32>(data, 16),
            state: read_tree::<TAPE_TREE_HEIGHT>(data, 48),
            seed: read_array::<32>(data, 728),
            contains: read_array::<32>(data, 760),
            total_tapes: read_u64_le(data, 792),
            last_proof_block: read_u64_le(data, 800),
            last_proof_at: read_i64_le(data, 808),
        };
        proof {
            vstd::bytes::lemma_auto_spec_u64_to_from_le_bytes();
            lemma_u64_bits_round_trip(spec_u64_from_le_bytes(data@.subrange(808, 816)));
            assert(spec_spool_bytes(s) =~= data@);
        }
        Some(s)
    }
}

/// The stored form of the treasury record: the kind tag alone.
pub open spec fn spec_treasury_bytes(t: Treasury) -> Seq<u8> {
    spec_u64_to_le_bytes(AccountType::Treasury.spec_code() as u64)
}

impl Treasury {
    /// Serialize this record to its stored form.
    pub fn to_bytes(&self) -> (out: Vec<u8>)
        ensures
            out@ == spec_treasury_bytes(*self),
    {
        let mut out: Vec<u8> = Vec::new();
        push_u64_le(&mut out, AccountType::Treasury.code() as u64);
        out
    }

    /// Parse a stored treasury record.
    pub fn try_from_bytes(data: &[u8]) -> (r: Option<Treasury>)
        ensures
            match r {
                Some(t) => spec_treasury_bytes(t) == data@,
                None => data@.len() != 8 || spec_u64_from_le_bytes(data@.subrange(0, 8))
                    != AccountType::Treasury.spec_code() as u64,
            },
    {
        if data.len() != 8 {
            return None;
        }
        let disc = read_u64_le(data, 0);
        if disc != AccountType::Treasury.code() as u64 {
            return None;
        }
        proof {
            vstd::bytes::lemma_auto_spec_u64_to_from_le_bytes();
            assert(spec_treasury_bytes(Treasury {  }) =~= data@);
        }
        Some(Treasury {  })
    }
}

/// The logged form of a write event.
pub open spec fn spec_write_event_bytes(e: WriteEvent) -> Seq<u8> {
    spec_u64_to_le_bytes(EventType::WriteEvent.spec_code() as u64) + spec_u64_to_le_bytes(
        e.num_added,
    ) + spec_u64_to_le_bytes(e.num_total) + spec_u64_to_le_bytes(e.prev_slot) + e.address@
}

impl WriteEvent {
    /// Serialize this event to its logged form.
    pub fn to_bytes(&self) -> (out: Vec<u8>)
        ensures
            out@ == spec_write_event_bytes(*self),
    {
        let mut out: Vec<u8> = Vec::new();
        push_u64_le(&mut out, EventType::WriteEvent.code() as u64);
        push_u64_le(&mut out, self.num_added);
        push_u64_le(&mut out, self.num_total);
        push_u64_le(&mut out, self.prev_slot);
        push_bytes(&mut out, self.address.as_slice());
        out
    }
}

/// The logged form of an update event.
pub open spec fn spec_update_event_bytes(e: UpdateEvent) -> Seq<u8> {
    spec_u64_to_le_bytes(EventType::UpdateEvent.spec_code() as u64) + spec_u64_to_le_bytes(
        e.segment_number,
    ) + spec_u64_to_le_bytes(e.prev_slot) + e.address@
}

impl UpdateEvent {
    /// Serialize this event to its logged form.
    pub fn to_bytes(&self) -> (out: Vec<u8>)
        ensures
            out@ == spec_update_event_bytes(*self),
    {
        let mut out: Vec<u8> = Vec::new();
        push_u64_le(&mut out, EventType::UpdateEvent.code() as u64);
        push_u64_le(&mut out, self.segment_number);
        push_u64_le(&mut out, self.prev_slot);
        push_bytes(&mut out, self.address.as_slice());
        out
    }
}

/// The logged form of a finalize event.
pub open spec fn spec_finalize_event_bytes(e: FinalizeEvent) -> Seq<u8> {
    spec_u64_to_le_bytes(EventType::FinalizeEvent.spec_code() as u64) + spec_u64_to_le_bytes(
        e.tape,
    ) + e.address@
}

impl FinalizeEvent {
    /// Serialize this event to its logged form.
    pub fn to_bytes(&self) -> (out: Vec<u8>)
        ensures
            out@ == spec_finalize_event_bytes(*self),
    {
        let mut out: Vec<u8> = Vec::new();
        push_u64_le(&mut out, EventType::FinalizeEvent.code() as u64);
        push_u64_le(&mut out, self.tape);
        push_bytes(&mut out, self.address.as_slice());
        out
    }
}

} // verus!

//! On-chain state machine of an incentivized data-storage protocol.
//!
//! Users publish immutable append-only logs ("tapes") whose contents are
//! committed as Merkle roots; miners prove possession of randomly recalled
//! segments and claim newly minted rewards funded by per-segment rent.

pub mod consts;
pub mod stdspec;
pub mod error;
pub mod hashing;
pub mod merkle;
pub mod state;
pub mod rent;
pub mod utils;
pub mod types;
pub mod pow;
pub mod poa;
pub mod event;
pub mod tape_ops;
pub mod miner_ops;
pub mod spool_ops;
pub mod mine;
pub mod init;
pub mod instruction;
pub mod layout;
pub mod inclusion;

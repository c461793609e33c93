//! Binary wire-protocol primitives of a blockchain client: a tagged-union
//! codec for transaction output targets and a fixed-width 256-bit hash type
//! that participates in both the raw blob codec and the generic storage-entry
//! format.

pub mod error;
pub mod hash;
pub mod storage;
pub mod stream;
pub mod tx_out_target;

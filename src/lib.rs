//! Normalization of a blockchain node's raw RPC blocks, logs and receipts into
//! canonical storage records, and tracking of which block heights of a chain
//! are fully indexed.

pub mod block;
pub mod chain;
pub mod hex;
pub mod log;
pub mod quantity;
pub mod receipt;
pub mod tracker;

use vstd::prelude::*;

use crate::block::opt_hash_text;
use crate::hex::{format_address, format_hash, format_hashes, hex_text};

verus! {

/// A log entry as a node's RPC interface reports it. Fields that belong to
/// the block context are absent while the log is pending.
#[derive(Debug, Clone)]
pub struct RawLog {
    pub address: [u8; 20],
    pub topics: Vec<[u8; 32]>,
    pub data: Vec<u8>,
    pub transaction_hash: Option<[u8; 32]>,
    pub log_index: Option<u64>,
    pub transaction_log_index: Option<u64>,
    pub removed: Option<bool>,
}

/// A log entry ready for storage.
#[derive(Debug, Clone, PartialEq, Eq)]
pub struct DatabaseLog {
    pub address: String,
    pub chain: i64,
    pub data: Vec<u8>,
    pub hash: String,
    pub log_index: i32,
    pub removed: bool,
    pub topics: Vec<String>,
    pub transaction_log_index: i32,
}

/// An optional 64-bit index narrowed to 32 bits, `0` when absent.
pub open spec fn narrow_index(i: Option<u64>) -> i32 {
    match i {
        Some(v) => v as i32,
        None => 0i32,
    }
}

fn narrow_or_zero(i: Option<u64>) -> (r: i32)
    ensures
        r == narrow_index(i),
{
    match i {
        Some(v) => #[verifier::truncate] (v as i32),
        None => 0,
    }
}

impl DatabaseLog {
    /// Normalizes a raw log for `chain`. Topics keep their order; an absent
    /// transaction hash becomes `0x`, absent indices `0` and an absent
    /// `removed` flag `false`.
    pub fn from_rpc(log: RawLog, chain: i64) -> (r: DatabaseLog)
        ensures
            r.address@ == hex_text(log.address@),
            r.chain == chain,
            r.topics@.len() == log.topics@.len(),
            forall|i: int| 0 <= i < r.topics@.len()
                ==> (#[trigger] r.topics@[i])@ == hex_text(log.topics@[i]@),
            r.data@ == log.data@,
            r.hash@ == opt_hash_text(log.transaction_hash),
            r.removed == (log.removed == Some(true)),
            r.log_index == narrow_index(log.log_index),
            r.transaction_log_index == narrow_index(log.transaction_log_index),
    {
        let hash: String = match &log.transaction_hash {
            Some(h) => format_hash(h),
            None => {
                proof {
                    reveal_strlit("0x");
                }
                String::from_str("0x")
            },
        };
        let removed: bool = match log.removed {
            Some(b) => b,
            None => false,
        };
        DatabaseLog {
            address: format_address(&log.address),
            chain,
            topics: format_hashes(&log.topics),
            data: log.data,
            hash,
            removed,
            log_index: narrow_or_zero(log.log_index),
            transaction_log_index: narrow_or_zero(log.transaction_log_index),
        }
    }
}

} // verus!

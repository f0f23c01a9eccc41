use vstd::prelude::*;

use crate::hex::{format_address, format_hash, format_hashes, format_nonce, hex_text};
use crate::quantity::{decimal, ether_text, format_ether, format_number, Quantity};

verus! {

/// Finality of a stored block. Normalization always yields `Unfinalized`;
/// a later finality pass moves stored blocks on to `Secure` and `Finalized`.
#[derive(Debug, Clone, Copy, PartialEq, Eq, Structural)]
pub enum BlockStatus {
    Unfinalized,
    Secure,
    Finalized,
}

/// A block as a node's RPC interface reports it, with transactions counted.
/// Fields that a pending block or an older fork lacks are optional.
#[derive(Debug, Clone)]
pub struct RawBlock {
    pub hash: Option<[u8; 32]>,
    pub parent_hash: [u8; 32],
    pub uncles_hash: [u8; 32],
    pub author: Option<[u8; 20]>,
    pub state_root: [u8; 32],
    pub transactions_root: [u8; 32],
    pub receipts_root: [u8; 32],
    pub number: Option<u64>,
    pub gas_used: u64,
    pub gas_limit: u64,
    pub extra_data: Vec<u8>,
    pub logs_bloom: Option<Vec<u8>>,
    pub timestamp: u64,
    pub difficulty: Quantity,
    pub total_difficulty: Option<Quantity>,
    pub uncles: Vec<[u8; 32]>,
    pub transaction_count: usize,
    pub size: Option<u64>,
    pub mix_hash: Option<[u8; 32]>,
    pub nonce: Option<[u8; 8]>,
    pub base_fee_per_gas: Option<Quantity>,
}

/// A block ready for storage. The base fee is in ether, written out in full.
#[derive(Debug, Clone, PartialEq, Eq)]
pub struct DatabaseBlock {
    pub base_fee_per_gas: Option<String>,
    pub chain: i64,
    pub difficulty: String,
    pub extra_data: Vec<u8>,
    pub gas_limit: i64,
    pub gas_used: i64,
    pub hash: String,
    pub logs_bloom: Vec<u8>,
    pub miner: String,
    pub mix_hash: String,
    pub nonce: String,
    pub number: i64,
    pub parent_hash: String,
    pub receipts_root: String,
    pub sha3_uncles: String,
    pub size: i32,
    pub state_root: String,
    pub status: BlockStatus,
    pub timestamp: i64,
    pub total_difficulty: String,
    pub transactions: i32,
    pub transactions_root: String,
    pub uncles: Vec<String>,
}

/// The placeholder stored for an absent hash or difficulty.
pub open spec fn empty_hex() -> Seq<char> {
    seq!['0', 'x']
}

/// The canonical text of an optional hash, `0x` when it is absent.
pub open spec fn opt_hash_text(h: Option<[u8; 32]>) -> Seq<char> {
    match h {
        Some(h) => hex_text(h@),
        None => empty_hex(),
    }
}

/// The twenty zero bytes of the null address.
pub open spec fn zero_address() -> Seq<u8> {
    Seq::new(20, |i: int| 0u8)
}

fn hash_or_empty(h: &Option<[u8; 32]>) -> (r: String)
    ensures
        r@ == opt_hash_text(*h),
{
    match h {
        Some(h) => format_hash(h),
        None => {
            proof {
                reveal_strlit("0x");
            }
            String::from_str("0x")
        },
    }
}

impl DatabaseBlock {
    /// Normalizes a raw block for `chain`. Absent fields get fixed
    /// defaults: no base fee, nonce `0`, hash and mix hash `0x`, number and size
    /// `0`, total difficulty `0x`, the null address as miner, and an empty bloom.
    /// Wide quantities are narrowed by truncation.
    pub fn from_rpc(block: &RawBlock, chain: i64) -> (r: DatabaseBlock)
        ensures
            r.chain == chain,
            r.base_fee_per_gas is Some <==> block.base_fee_per_gas is Some,
            block.base_fee_per_gas matches Some(fee) ==> r.base_fee_per_gas->0@ == ether_text(fee@),
            r.nonce@ == match block.nonce {
                Some(n) => hex_text(n@),
                None => seq!['0'],
            },
            r.uncles@.len() == block.uncles@.len(),
            forall|i: int| 0 <= i < r.uncles@.len()
                ==> (#[trigger] r.uncles@[i])@ == hex_text(block.uncles@[i]@),
            r.mix_hash@ == opt_hash_text(block.mix_hash),
            r.hash@ == opt_hash_text(block.hash),
            r.number == match block.number {
                Some(n) => n as i64,
                None => 0i64,
            },
            r.size == match block.size {
                Some(s) => s as i32,
                None => 0i32,
            },
            r.total_difficulty@ == match block.total_difficulty {
                Some(d) => decimal(d@),
                None => empty_hex(),
            },
            r.miner@ == match block.author {
                Some(a) => hex_text(a@),
                None => hex_text(zero_address()),
            },
            r.difficulty@ == decimal(block.difficulty@),
            r.extra_data@ == block.extra_data@,
            r.gas_limit == block.gas_limit as i64,
            r.gas_used == block.gas_used as i64,
            r.logs_bloom@ == match block.logs_bloom {
                Some(b) => b@,
                None => Seq::<u8>::empty(),
            },
            r.parent_hash@ == hex_text(block.parent_hash@),
            r.receipts_root@ == hex_text(block.receipts_root@),
            r.sha3_uncles@ == hex_text(block.uncles_hash@),
            r.state_root@ == hex_text(block.state_root@),
            r.transactions_root@ == hex_text(block.transactions_root@),
            r.timestamp == block.timestamp as i64,
            r.transactions == block.transaction_count as i32,
            r.status == BlockStatus::Unfinalized,
    {
        let base_fee_per_gas: Option<String> = match &block.base_fee_per_gas {
            None => None,
            Some(fee) => Some(format_ether(fee)),
        };
        let nonce: String = match &block.nonce {
            None => {
                proof {
                    reveal_strlit("0");
                }
                String::from_str("0")
            },
            Some(n) => format_nonce(n),
        };
        let uncles = format_hashes(&block.uncles);
        let mix_hash = hash_or_empty(&block.mix_hash);
        let hash = hash_or_empty(&block.hash);
        let number: i64 = match block.number {
            None => 0,
            Some(n) => #[verifier::truncate] (n as i64),
        };
        let size: i32 = match block.size {
            None => 0,
            Some(s) => #[verifier::truncate] (s as i32),
        };
        let total_difficulty: String = match &block.total_difficulty {
            None => {
                proof {
                    reveal_strlit("0x");
                }
                String::from_str("0x")
            },
            Some(d) => format_number(d),
        };
        let miner: String = match &block.author {
            None => {
                let zero: [u8; 20] = [0u8; 20];
                assert(zero@ =~= zero_address());
                format_address(&zero)
            },
            Some(a) => format_address(a),
        };
        let logs_bloom: Vec<u8> = match &block.logs_bloom {
            None => Vec::new(),
            Some(b) => b.clone(),
        };
        DatabaseBlock {
            base_fee_per_gas,
            chain,
            difficulty: format_number(&block.difficulty),
            extra_data: block.extra_data.clone(),
            gas_limit: #[verifier::truncate] (block.gas_limit as i64),
            gas_used: #[verifier::truncate] (block.gas_used as i64),
            hash,
            logs_bloom,
            miner,
            mix_hash,
            nonce,
            number,
            parent_hash: format_hash(&block.parent_hash),
            receipts_root: format_hash(&block.receipts_root),
            sha3_uncles: format_hash(&block.uncles_hash),
            size,
            state_root: format_hash(&block.state_root),
            status: BlockStatus::Unfinalized,
            timestamp: #[verifier::truncate] (block.timestamp as i64),
            total_difficulty,
            transactions: #[verifier::truncate] (block.transaction_count as i32),
            transactions_root: format_hash(&block.transactions_root),
            uncles,
        }
    }
}

} // verus!

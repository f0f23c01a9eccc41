use vstd::prelude::*;

use crate::hex::{format_address, format_hash, hex_text};

verus! {

/// Outcome of a transaction. Normalization yields `Reverted` or `Succeed`;
/// `Pending` stands for a receipt asked for before inclusion.
#[derive(Debug, Clone, Copy, PartialEq, Eq, Structural)]
pub enum TransactionStatus {
    Reverted,
    Succeed,
    Pending,
}

/// A transaction receipt as a node's RPC interface reports it.
#[derive(Debug, Clone)]
pub struct RawReceipt {
    pub transaction_hash: [u8; 32],
    pub cumulative_gas_used: u64,
    pub gas_used: Option<u64>,
    pub contract_address: Option<[u8; 20]>,
    pub status: Option<u64>,
    pub effective_gas_price: Option<u64>,
}

/// A receipt ready for storage.
#[derive(Debug, Clone, PartialEq, Eq)]
pub struct DatabaseReceipt {
    pub contract_address: Option<String>,
    pub cumulative_gas_used: i64,
    pub effective_gas_price: Option<i64>,
    pub gas_used: i64,
    pub hash: String,
    pub status: TransactionStatus,
}

/// The status that a raw status code stands for: a receipt without the code
/// predates it and succeeded, `0` means reverted, any other code success.
pub open spec fn status_of(code: Option<u64>) -> TransactionStatus {
    match code {
        None => TransactionStatus::Succeed,
        Some(c) => if c == 0 {
            TransactionStatus::Reverted
        } else {
            TransactionStatus::Succeed
        },
    }
}

impl DatabaseReceipt {
    /// Normalizes a raw receipt. The contract address is present only for a
    /// contract creation; an absent gas used becomes `0`.
    pub fn from_rpc(receipt: &RawReceipt) -> (r: DatabaseReceipt)
        ensures
            r.contract_address is Some <==> receipt.contract_address is Some,
            receipt.contract_address matches Some(a) ==> r.contract_address->0@ == hex_text(a@),
            r.status == status_of(receipt.status),
            receipt.status is None ==> r.status == TransactionStatus::Succeed,
            receipt.status == Some(0u64) ==> r.status == TransactionStatus::Reverted,
            receipt.status matches Some(c) && c != 0 ==> r.status == TransactionStatus::Succeed,
            r.effective_gas_price == match receipt.effective_gas_price {
                Some(p) => Some(p as i64),
                None => None::<i64>,
            },
            r.gas_used == match receipt.gas_used {
                Some(g) => g as i64,
                None => 0i64,
            },
            r.cumulative_gas_used == receipt.cumulative_gas_used as i64,
            r.hash@ == hex_text(receipt.transaction_hash@),
    {
        let contract_address: Option<String> = match &receipt.contract_address {
            None => None,
            Some(a) => Some(format_address(a)),
        };
        let status: TransactionStatus = match receipt.status {
            None => TransactionStatus::Succeed,
            Some(code) => {
                if code == 0 {
                    TransactionStatus::Reverted
                } else {
                    TransactionStatus::Succeed
                }
            },
        };
        let effective_gas_price: Option<i64> = match receipt.effective_gas_price {
            None => None,
            Some(p) => Some(#[verifier::truncate] (p as i64)),
        };
        let gas_used: i64 = match receipt.gas_used {
            None => 0,
            Some(g) => #[verifier::truncate] (g as i64),
        };
        DatabaseReceipt {
            contract_address,
            cumulative_gas_used: #[verifier::truncate] (receipt.cumulative_gas_used as i64),
            effective_gas_price,
            gas_used,
            hash: format_hash(&receipt.transaction_hash),
            status,
        }
    }
}

} // verus!

use evm_indexer::block::{BlockStatus, DatabaseBlock, RawBlock};
use evm_indexer::hex::{canonicalize_hex, format_address, format_bytes, format_hash, format_nonce};
use evm_indexer::log::{DatabaseLog, RawLog};
use evm_indexer::quantity::{format_ether, format_number, Quantity};
use evm_indexer::receipt::{DatabaseReceipt, RawReceipt, TransactionStatus};

fn bare_block() -> RawBlock {
    RawBlock {
        hash: None,
        parent_hash: [0x11; 32],
        uncles_hash: [0x22; 32],
        author: None,
        state_root: [0x33; 32],
        transactions_root: [0x44; 32],
        receipts_root: [0x55; 32],
        number: None,
        gas_used: 21_000,
        gas_limit: 30_000_000,
        extra_data: vec![1, 2, 3],
        logs_bloom: None,
        timestamp: 1_700_000_000,
        difficulty: Quantity::from_u64(0),
        total_difficulty: None,
        uncles: vec![],
        transaction_count: 0,
        size: None,
        mix_hash: None,
        nonce: None,
        base_fee_per_gas: None,
    }
}

fn bare_receipt() -> RawReceipt {
    RawReceipt {
        transaction_hash: [0xab; 32],
        cumulative_gas_used: 50_000,
        gas_used: Some(21_000),
        contract_address: None,
        status: None,
        effective_gas_price: None,
    }
}

#[test]
fn block_missing_optional_fields_get_defaults() {
    let b = DatabaseBlock::from_rpc(&bare_block(), 1);
    assert_eq!(b.base_fee_per_gas, None);
    assert_eq!(b.nonce, "0");
    assert_eq!(b.mix_hash, "0x");
    assert_eq!(b.hash, "0x");
    assert_eq!(b.number, 0);
    assert_eq!(b.size, 0);
    assert_eq!(b.total_difficulty, "0x");
    assert_eq!(b.miner, "0x0000000000000000000000000000000000000000");
    assert_eq!(b.logs_bloom, Vec::<u8>::new());
    assert!(b.uncles.is_empty());
    assert_eq!(b.status, BlockStatus::Unfinalized);
    assert_eq!(b.chain, 1);
}

#[test]
fn block_example_with_base_fee() {
    let mut raw = bare_block();
    raw.number = Some(100);
    raw.base_fee_per_gas = Some(Quantity::from_u64(1_000_000_000));
    let b = DatabaseBlock::from_rpc(&raw, 1);
    assert_eq!(b.number, 100);
    let fee = b.base_fee_per_gas.clone().unwrap();
    assert_eq!(fee, "0.000000001000000000");
    assert_eq!(fee.parse::<f64>().unwrap(), 0.000000001);
    assert_eq!(b.hash, "0x");
    assert_eq!(b.mix_hash, "0x");
    assert_eq!(b.status, BlockStatus::Unfinalized);
}

#[test]
fn block_present_fields_are_rendered() {
    let mut raw = bare_block();
    raw.hash = Some([0xAB; 32]);
    raw.author = Some([0xFE; 20]);
    raw.nonce = Some([0, 0, 0, 0, 0, 0, 0x01, 0x2c]);
    raw.size = Some(540);
    raw.total_difficulty = Some(Quantity::from_limbs([0, 1, 0, 0]));
    raw.difficulty = Quantity::from_u64(131_072);
    raw.uncles = vec![[0x01; 32], [0x02; 32]];
    raw.transaction_count = 7;
    raw.logs_bloom = Some(vec![0xff; 4]);
    let b = DatabaseBlock::from_rpc(&raw, 137);
    assert_eq!(b.hash, format!("0x{}", "ab".repeat(32)));
    assert_eq!(b.miner, format!("0x{}", "fe".repeat(20)));
    assert_eq!(b.nonce, "0x000000000000012c");
    assert_eq!(b.size, 540);
    assert_eq!(b.total_difficulty, "18446744073709551616");
    assert_eq!(b.difficulty, "131072");
    assert_eq!(b.uncles, vec![format!("0x{}", "01".repeat(32)), format!("0x{}", "02".repeat(32))]);
    assert_eq!(b.transactions, 7);
    assert_eq!(b.logs_bloom, vec![0xff; 4]);
    assert_eq!(b.parent_hash, format!("0x{}", "11".repeat(32)));
    assert_eq!(b.sha3_uncles, format!("0x{}", "22".repeat(32)));
    assert_eq!(b.state_root, format!("0x{}", "33".repeat(32)));
    assert_eq!(b.transactions_root, format!("0x{}", "44".repeat(32)));
    assert_eq!(b.receipts_root, format!("0x{}", "55".repeat(32)));
    assert_eq!(b.gas_used, 21_000);
    assert_eq!(b.gas_limit, 30_000_000);
    assert_eq!(b.timestamp, 1_700_000_000);
    assert_eq!(b.extra_data, vec![1, 2, 3]);
    assert_eq!(b.chain, 137);
}

#[test]
fn block_wide_quantities_are_truncated() {
    let mut raw = bare_block();
    raw.gas_limit = u64::MAX;
    raw.number = Some(u64::MAX);
    raw.size = Some(0x1_0000_0005);
    let b = DatabaseBlock::from_rpc(&raw, 1);
    assert_eq!(b.gas_limit, -1);
    assert_eq!(b.number, -1);
    assert_eq!(b.size, 5);
}

#[test]
fn receipt_absent_status_succeeds() {
    let r = DatabaseReceipt::from_rpc(&bare_receipt());
    assert_eq!(r.status, TransactionStatus::Succeed);
}

#[test]
fn receipt_zero_status_reverts() {
    let mut raw = bare_receipt();
    raw.status = Some(0);
    let r = DatabaseReceipt::from_rpc(&raw);
    assert_eq!(r.status, TransactionStatus::Reverted);
    assert_eq!(r.contract_address, None);
}

#[test]
fn receipt_nonzero_status_succeeds() {
    for code in [1u64, 2, u64::MAX] {
        let mut raw = bare_receipt();
        raw.status = Some(code);
        assert_eq!(DatabaseReceipt::from_rpc(&raw).status, TransactionStatus::Succeed);
    }
}

#[test]
fn receipt_fields_are_rendered() {
    let mut raw = bare_receipt();
    raw.contract_address = Some([0x0a; 20]);
    raw.effective_gas_price = Some(2_000_000_000);
    raw.gas_used = None;
    let r = DatabaseReceipt::from_rpc(&raw);
    assert_eq!(r.contract_address, Some(format!("0x{}", "0a".repeat(20))));
    assert_eq!(r.effective_gas_price, Some(2_000_000_000));
    assert_eq!(r.gas_used, 0);
    assert_eq!(r.cumulative_gas_used, 50_000);
    assert_eq!(r.hash, format!("0x{}", "ab".repeat(32)));
}

#[test]
fn log_is_rendered() {
    let raw = RawLog {
        address: [0xC0; 20],
        topics: vec![[0x01; 32], [0xEE; 32]],
        data: vec![9, 8, 7],
        transaction_hash: Some([0x5a; 32]),
        log_index: Some(3),
        transaction_log_index: Some(0x1_0000_0001),
        removed: Some(true),
    };
    let l = DatabaseLog::from_rpc(raw, 10);
    assert_eq!(l.address, format!("0x{}", "c0".repeat(20)));
    assert_eq!(l.topics, vec![format!("0x{}", "01".repeat(32)), format!("0x{}", "ee".repeat(32))]);
    assert_eq!(l.data, vec![9, 8, 7]);
    assert_eq!(l.hash, format!("0x{}", "5a".repeat(32)));
    assert_eq!(l.log_index, 3);
    assert_eq!(l.transaction_log_index, 1);
    assert!(l.removed);
    assert_eq!(l.chain, 10);
}

#[test]
fn log_missing_fields_get_defaults() {
    let raw = RawLog {
        address: [0; 20],
        topics: vec![],
        data: vec![],
        transaction_hash: None,
        log_index: None,
        transaction_log_index: None,
        removed: None,
    };
    let l = DatabaseLog::from_rpc(raw, 1);
    assert_eq!(l.hash, "0x");
    assert_eq!(l.log_index, 0);
    assert_eq!(l.transaction_log_index, 0);
    assert!(!l.removed);
    assert!(l.topics.is_empty());
}

#[test]
fn hex_formatting() {
    assert_eq!(format_bytes(&[]), "0x");
    assert_eq!(format_bytes(&[0x00, 0x9f, 0xa0, 0xff]), "0x009fa0ff");
    assert_eq!(format_nonce(&[0xde, 0xad, 0xbe, 0xef, 0, 1, 2, 3]), "0xdeadbeef00010203");
    assert_eq!(format_address(&[0u8; 20]).len(), 42);
    assert_eq!(format_hash(&[0x7f; 32]).len(), 66);
}

#[test]
fn canonicalization_is_idempotent() {
    let mixed = format!("0X{}", "aB".repeat(32));
    let once = canonicalize_hex(&mixed, 32).unwrap();
    assert_eq!(once, format!("0x{}", "ab".repeat(32)));
    let twice = canonicalize_hex(&once, 32).unwrap();
    assert_eq!(twice, once);
    let formatted = format_address(&[0x3c; 20]);
    assert_eq!(canonicalize_hex(&formatted, 20), Some(formatted.clone()));
}

#[test]
fn canonicalization_rejects_malformed_text() {
    assert_eq!(canonicalize_hex("0x12", 32), None);
    assert_eq!(canonicalize_hex(&format!("1x{}", "00".repeat(20)), 20), None);
    assert_eq!(canonicalize_hex(&format!("0x{}g", "0".repeat(39)), 20), None);
    assert_eq!(canonicalize_hex("", 0), None);
    assert_eq!(canonicalize_hex("0x", 0), Some(String::from("0x")));
}

#[test]
fn quantity_formatting() {
    assert_eq!(format_number(&Quantity::from_u64(0)), "0");
    assert_eq!(format_number(&Quantity::from_u64(1234)), "1234");
    assert_eq!(format_number(&Quantity::from_limbs([5, 0, 0, 1])), "6277101735386680763835789423207666416102355444464034512901");
    assert_eq!(format_ether(&Quantity::from_u64(0)), "0.000000000000000000");
    assert_eq!(format_ether(&Quantity::from_u64(1_500_000_000_000_000_000)), "1.500000000000000000");
    assert_eq!(format_ether(&Quantity::from_u64(u64::MAX)), "18.446744073709551615");
}

use reth_node_core_runtime::receipt::{
    logs_bloom, Address, Log, OtherFields, Receipt, ReceiptBuilder, ReceiptError, TransactionMeta,
    TransactionSigned, TxKind, TxSignature,
};

fn log(tag: u8) -> Log {
    Log { address: Address([tag; 20]), topics: vec![[tag; 32]], data: vec![tag] }
}

fn receipt(cumulative: u64, n_logs: u8) -> Receipt {
    Receipt {
        tx_type: 2,
        success: true,
        cumulative_gas_used: cumulative,
        logs: (0..n_logs).map(log).collect(),
    }
}

fn meta(index: u64, excess_blob_gas: Option<u64>) -> TransactionMeta {
    TransactionMeta {
        tx_hash: [7; 32],
        index,
        block_hash: [9; 32],
        block_number: 100,
        base_fee: Some(10),
        excess_blob_gas,
        timestamp: 1_700_000_000,
    }
}

fn hex32(s: &str) -> [u8; 32] {
    let mut out = [0u8; 32];
    for i in 0..32 {
        out[i] = u8::from_str_radix(&s[2 * i..2 * i + 2], 16).unwrap();
    }
    out
}

/// A signature over `signature_hash()` by `signer()`.
fn good_signature() -> TxSignature {
    TxSignature {
        r: hex32("48b55bfa915ac795c431978d8a6a992b628d557da5ff759b307d495a36649353"),
        s: hex32("efffd310ac743f371de3b9f7f9cb56c0b28ad43601b4ab949f53faa07bd2c804"),
        y_parity: false,
    }
}

fn signature_hash() -> [u8; 32] {
    hex32("5eb4f5a33c621f32a8622d5f943b6b102994dfe4e5aebbefe69bb1b2aa0fc93e")
}

fn signer() -> Address {
    Address(hex20("0f65fe9276bc9a24ae7083ae28e2660ef72df99e"))
}

fn call_tx(valid: bool) -> TransactionSigned {
    let signature = if valid {
        good_signature()
    } else {
        TxSignature { r: [0; 32], s: [0; 32], y_parity: false }
    };
    TransactionSigned {
        signature,
        signature_hash: signature_hash(),
        kind: TxKind::Call(Address([0xaa; 20])),
        nonce: 3,
        tx_type: 2,
        max_fee_per_gas: 100,
        max_priority_fee_per_gas: Some(5),
        blob_gas_used: None,
    }
}

fn hex20(s: &str) -> [u8; 20] {
    let mut out = [0u8; 20];
    for i in 0..20 {
        out[i] = u8::from_str_radix(&s[2 * i..2 * i + 2], 16).unwrap();
    }
    out
}

#[test]
fn gas_used_is_delta_of_cumulative_gas_and_log_indices_are_offset() {
    let all = vec![receipt(21000, 2), receipt(42000, 3), receipt(84000, 2)];
    let tx = call_tx(true);
    let b = ReceiptBuilder::new(&tx, meta(2, None), &all[2], &all).unwrap();
    assert_eq!(b.base.gas_used, 42000);
    assert_eq!(b.base.cumulative_gas_used, 84000);
    assert_eq!(b.base.logs.len(), 2);
    assert_eq!(b.base.logs[0].log_index, Some(5));
    assert_eq!(b.base.logs[1].log_index, Some(6));
    assert_eq!(b.base.logs[1].inner, log(1));
    assert_eq!(b.base.logs[0].block_hash, Some([9; 32]));
    assert_eq!(b.base.logs[0].transaction_index, Some(2));
    assert!(!b.base.logs[0].removed);
    assert_eq!(b.base.to, Some(Address([0xaa; 20])));
    assert_eq!(b.base.contract_address, None);
    assert_eq!(b.base.from, signer());
    assert_eq!(b.base.state_root, None);
}

#[test]
fn first_transaction_uses_its_cumulative_gas() {
    let all = vec![receipt(21000, 1), receipt(42000, 0)];
    let tx = call_tx(true);
    let b = ReceiptBuilder::new(&tx, meta(0, None), &all[0], &all).unwrap();
    assert_eq!(b.base.gas_used, 21000);
    assert_eq!(b.base.logs[0].log_index, Some(0));
}

#[test]
fn missing_previous_receipt_gives_zero_gas() {
    let all = vec![receipt(21000, 1)];
    let r = receipt(50000, 0);
    let tx = call_tx(true);
    let b = ReceiptBuilder::new(&tx, meta(5, None), &r, &all).unwrap();
    assert_eq!(b.base.gas_used, 0);
}

#[test]
fn unrecoverable_signer_is_an_error() {
    let all = vec![receipt(21000, 0)];
    let tx = call_tx(false);
    let r = ReceiptBuilder::new(&tx, meta(0, None), &all[0], &all);
    assert_eq!(r.err(), Some(ReceiptError::InvalidTransactionSignature));
}

#[test]
fn contract_creation_gets_the_create_address() {
    let mut tx = call_tx(true);
    tx.kind = TxKind::Create;
    tx.nonce = 0;
    let all = vec![receipt(53000, 0)];
    let b = ReceiptBuilder::new(&tx, meta(0, None), &all[0], &all).unwrap();
    assert_eq!(b.base.to, None);
    let expected = alloy_primitives::Address::from(signer().0).create(0).into_array();
    assert_eq!(b.base.contract_address, Some(Address(expected)));
    assert_ne!(expected, signer().0);
    tx.nonce = 1;
    let b = ReceiptBuilder::new(&tx, meta(0, None), &all[0], &all).unwrap();
    let expected = alloy_primitives::Address::from(signer().0).create(1).into_array();
    assert_eq!(b.base.contract_address, Some(Address(expected)));
}

#[test]
fn signer_is_recovered_from_the_signature() {
    let all = vec![receipt(21000, 0)];
    let b = ReceiptBuilder::new(&call_tx(true), meta(0, None), &all[0], &all).unwrap();
    assert_eq!(b.base.from, signer());
    let mut tx = call_tx(true);
    tx.signature_hash = [1; 32];
    let b = ReceiptBuilder::new(&tx, meta(0, None), &all[0], &all).unwrap();
    assert_ne!(b.base.from, signer());
}

#[test]
fn blob_gas_price_only_for_blob_transactions() {
    let all = vec![receipt(21000, 0)];
    let mut tx = call_tx(true);
    let b = ReceiptBuilder::new(&tx, meta(0, Some(10 * 1024 * 1024)), &all[0], &all).unwrap();
    assert_eq!(b.base.blob_gas_price, None);
    assert_eq!(b.base.blob_gas_used, None);
    tx.blob_gas_used = Some(131072);
    let b = ReceiptBuilder::new(&tx, meta(0, Some(10 * 1024 * 1024)), &all[0], &all).unwrap();
    assert_eq!(b.base.blob_gas_price, Some(23));
    assert_eq!(b.base.blob_gas_used, Some(131072));
    let b = ReceiptBuilder::new(&tx, meta(0, Some(0)), &all[0], &all).unwrap();
    assert_eq!(b.base.blob_gas_price, Some(1));
    let b = ReceiptBuilder::new(&tx, meta(0, None), &all[0], &all).unwrap();
    assert_eq!(b.base.blob_gas_price, None);
}

#[test]
fn effective_gas_price_follows_base_fee() {
    let tx = call_tx(true);
    assert_eq!(tx.effective_gas_price(Some(10)), 15);
    assert_eq!(tx.effective_gas_price(Some(98)), 100);
    assert_eq!(tx.effective_gas_price(Some(200)), 100);
    assert_eq!(tx.effective_gas_price(None), 100);
    let mut legacy = call_tx(false);
    legacy.max_priority_fee_per_gas = None;
    assert_eq!(legacy.effective_gas_price(Some(10)), 100);
}

#[test]
fn bloom_of_logs_marks_bits() {
    let empty: Vec<Log> = Vec::new();
    assert!(logs_bloom(&empty).iter().all(|b| *b == 0));
    let logs = vec![log(1), log(2)];
    let bloom = logs_bloom(&logs);
    let bits: u32 = bloom.iter().map(|b| b.count_ones()).sum();
    assert!(bits > 0 && bits <= 12);
    let all = vec![Receipt { tx_type: 2, success: false, cumulative_gas_used: 1, logs }];
    let tx = call_tx(true);
    let b = ReceiptBuilder::new(&tx, meta(0, None), &all[0], &all).unwrap();
    assert_eq!(b.base.logs_bloom, bloom);
    assert!(!b.base.status);
}

#[test]
fn other_fields_are_added_and_a_repeated_name_takes_the_new_value() {
    let all = vec![receipt(21000, 0)];
    let tx = call_tx(true);
    let b = ReceiptBuilder::new(&tx, meta(0, None), &all[0], &all).unwrap();
    let mut first = OtherFields::new();
    first.insert("l1Fee".to_string(), "1".to_string());
    first.insert("l1GasUsed".to_string(), "2".to_string());
    let b = b.add_other_fields(first);
    let mut second = OtherFields::new();
    second.insert("l1Fee".to_string(), "9".to_string());
    second.insert("l1FeeScalar".to_string(), "3".to_string());
    let b = b.add_other_fields(second);
    let r = b.build();
    assert_eq!(r.other.len(), 3);
    assert_eq!(r.other.get(&"l1Fee".to_string()), Some("9".to_string()));
    assert_eq!(r.other.get(&"l1GasUsed".to_string()), Some("2".to_string()));
    assert_eq!(r.other.get(&"l1FeeScalar".to_string()), Some("3".to_string()));
    assert_eq!(r.other.get(&"missing".to_string()), None);
    assert_eq!(r.inner.gas_used, 21000);
}

#[test]
fn inserting_a_name_twice_keeps_one_field() {
    let mut f = OtherFields::new();
    f.insert("a".to_string(), "1".to_string());
    f.insert("a".to_string(), "2".to_string());
    assert_eq!(f.len(), 1);
    assert_eq!(f.get(&"a".to_string()), Some("2".to_string()));
}

use receipt_doc::decimal::U256;
use receipt_doc::doc::Value;
use receipt_doc::mapper::map_receipt;
use receipt_doc::receipt::{Log, Receipt};

fn sample_log() -> Log {
    Log {
        address: vec![0x11; 20],
        topics: vec![vec![0x22; 32], vec![0x33; 32]],
        data: vec![0xde, 0xad, 0xbe, 0xef],
        block_hash: Some(vec![0x44; 32]),
        block_number: Some(100),
        transaction_hash: Some(vec![0x55; 32]),
        transaction_index: Some(5),
        log_index: Some(0),
        log_type: None,
        removed: Some(false),
    }
}

fn sample_receipt() -> Receipt {
    Receipt {
        transaction_hash: vec![0xaa; 32],
        transaction_index: 5,
        block_hash: Some(vec![0xbb; 32]),
        block_number: Some(1234),
        from: vec![0xcc; 20],
        to: Some(vec![0xdd; 20]),
        cumulative_gas_used: U256::from_u64(21000),
        gas_used: Some(U256::from_u64(21000)),
        contract_address: None,
        logs: vec![sample_log()],
        status: Some(1),
        root: None,
        logs_bloom: vec![0x00; 256],
        transaction_type: Some(2),
        effective_gas_price: Some(U256::from_u64(1_000_000_000)),
    }
}

fn keys(entries: &[(String, Value)]) -> Vec<&str> {
    entries.iter().map(|e| e.0.as_str()).collect()
}

#[test]
fn receipt_key_set_and_order() {
    let d = map_receipt(&sample_receipt());
    assert_eq!(
        keys(&d.entries),
        vec![
            "transactionHash",
            "transactionIndex",
            "blockHash",
            "blockNumber",
            "from",
            "to",
            "cumulativeGasUsed",
            "gasUsed",
            "contractAddress",
            "logs",
            "status",
            "root",
            "logs_bloom",
            "type",
            "effectiveGasPrice",
        ]
    );
}

#[test]
fn log_key_set_and_order() {
    let d = map_receipt(&sample_receipt());
    let logs = match &d.entries[9].1 {
        Value::Arr(a) => a,
        other => panic!("logs should be an array, got {:?}", other),
    };
    let sub = match &logs[0] {
        Value::Doc(sub) => sub,
        other => panic!("log entry should be a sub-document, got {:?}", other),
    };
    assert_eq!(
        keys(&sub.entries),
        vec![
            "address",
            "topics",
            "data",
            "blockHash",
            "blockNumber",
            "transactionHash",
            "transactionIndex",
            "logIndex",
            "type",
            "removed",
        ]
    );
}

#[test]
fn encoded_scalar_fields() {
    let d = map_receipt(&sample_receipt());
    assert_eq!(
        d.entries[0].1,
        Value::Str(format!("0x{}", "aa".repeat(32)))
    );
    assert_eq!(d.entries[1].1, Value::I64(5));
    assert_eq!(
        d.entries[2].1,
        Value::Str(format!("0x{}", "bb".repeat(32)))
    );
    assert_eq!(d.entries[3].1, Value::I64(1234));
    assert_eq!(
        d.entries[4].1,
        Value::Str(format!("0x{}", "cc".repeat(20)))
    );
    assert_eq!(
        d.entries[5].1,
        Value::Str(format!("0x{}", "dd".repeat(20)))
    );
    assert_eq!(d.entries[6].1, Value::Str("21000".to_string()));
    assert_eq!(d.entries[7].1, Value::Str("21000".to_string()));
    assert_eq!(d.entries[8].1, Value::Null);
    assert_eq!(d.entries[10].1, Value::I32(1));
    assert_eq!(d.entries[11].1, Value::Null);
    assert_eq!(
        d.entries[12].1,
        Value::Str(format!("0x{}", "00".repeat(256)))
    );
    assert_eq!(d.entries[13].1, Value::I64(2));
    assert_eq!(d.entries[14].1, Value::Str("1000000000".to_string()));
}

#[test]
fn encoded_log_fields() {
    let d = map_receipt(&sample_receipt());
    let logs = match &d.entries[9].1 {
        Value::Arr(a) => a,
        other => panic!("logs should be an array, got {:?}", other),
    };
    let sub = match &logs[0] {
        Value::Doc(sub) => &sub.entries,
        other => panic!("log entry should be a sub-document, got {:?}", other),
    };
    assert_eq!(sub[0].1, Value::Str(format!("0x{}", "11".repeat(20))));
    match &sub[1].1 {
        Value::Arr(topics) => {
            assert_eq!(topics.len(), 2);
            assert_eq!(topics[0], Value::Str(format!("0x{}", "22".repeat(32))));
            assert_eq!(topics[1], Value::Str(format!("0x{}", "33".repeat(32))));
        }
        other => panic!("topics should be an array, got {:?}", other),
    }
    assert_eq!(sub[2].1, Value::Str("0xdeadbeef".to_string()));
    assert_eq!(sub[3].1, Value::Str(format!("0x{}", "44".repeat(32))));
    assert_eq!(sub[4].1, Value::I64(100));
    assert_eq!(sub[5].1, Value::Str(format!("0x{}", "55".repeat(32))));
    assert_eq!(sub[6].1, Value::I64(5));
    assert_eq!(sub[7].1, Value::I64(0));
    assert_eq!(sub[8].1, Value::Null);
    assert_eq!(sub[9].1, Value::Bool(false));
}

#[test]
fn pending_receipt_yields_explicit_nulls() {
    let mut r = sample_receipt();
    r.block_hash = None;
    r.block_number = None;
    r.to = None;
    r.gas_used = None;
    r.contract_address = None;
    r.status = None;
    r.root = None;
    r.transaction_type = None;
    r.effective_gas_price = None;
    let d = map_receipt(&r);
    assert_eq!(d.entries.len(), 15);
    for i in [2, 3, 5, 7, 8, 10, 11, 13, 14] {
        assert_eq!(d.entries[i].1, Value::Null, "entry {} should be null", i);
    }
}

#[test]
fn bare_log_yields_explicit_nulls() {
    let mut r = sample_receipt();
    r.logs = vec![Log {
        address: vec![0x01; 20],
        topics: vec![],
        data: vec![],
        block_hash: None,
        block_number: None,
        transaction_hash: None,
        transaction_index: None,
        log_index: None,
        log_type: None,
        removed: None,
    }];
    let d = map_receipt(&r);
    let logs = match &d.entries[9].1 {
        Value::Arr(a) => a,
        other => panic!("logs should be an array, got {:?}", other),
    };
    let sub = match &logs[0] {
        Value::Doc(sub) => &sub.entries,
        other => panic!("log entry should be a sub-document, got {:?}", other),
    };
    assert_eq!(sub.len(), 10);
    assert_eq!(sub[1].1, Value::Arr(vec![]));
    assert_eq!(sub[2].1, Value::Str("0x".to_string()));
    for i in [3, 4, 5, 6, 7, 8, 9] {
        assert_eq!(sub[i].1, Value::Null, "log entry {} should be null", i);
    }
}

#[test]
fn log_array_length_and_order_preserved() {
    let mut r = sample_receipt();
    let mut logs = Vec::new();
    for i in 0..7u64 {
        let mut l = sample_log();
        l.log_index = Some(i);
        logs.push(l);
    }
    r.logs = logs;
    let d = map_receipt(&r);
    match &d.entries[9].1 {
        Value::Arr(a) => {
            assert_eq!(a.len(), 7);
            for (i, v) in a.iter().enumerate() {
                match v {
                    Value::Doc(sub) => {
                        assert_eq!(sub.entries[7].1, Value::I64(i as i64));
                    }
                    other => panic!("log entry should be a sub-document, got {:?}", other),
                }
            }
        }
        other => panic!("logs should be an array, got {:?}", other),
    }
}

#[test]
fn empty_log_sequence_yields_empty_array() {
    let mut r = sample_receipt();
    r.logs = vec![];
    let d = map_receipt(&r);
    assert_eq!(d.entries[9].1, Value::Arr(vec![]));
}

#[test]
fn status_one_to_none_and_removed_false_scenario() {
    let mut r = sample_receipt();
    r.transaction_index = 5;
    r.status = Some(1);
    r.to = None;
    let mut l = sample_log();
    l.removed = Some(false);
    l.log_index = None;
    r.logs = vec![l];
    let d = map_receipt(&r);
    assert_eq!(d.entries[5].0, "to");
    assert_eq!(d.entries[5].1, Value::Null);
    assert_eq!(d.entries[10].0, "status");
    assert_eq!(d.entries[10].1, Value::I32(1));
    match &d.entries[9].1 {
        Value::Arr(a) => {
            assert_eq!(a.len(), 1);
            match &a[0] {
                Value::Doc(sub) => {
                    assert_eq!(sub.entries[9].0, "removed");
                    assert_eq!(sub.entries[9].1, Value::Bool(false));
                    assert_eq!(sub.entries[7].0, "logIndex");
                    assert_eq!(sub.entries[7].1, Value::Null);
                }
                other => panic!("log entry should be a sub-document, got {:?}", other),
            }
        }
        other => panic!("logs should be an array, got {:?}", other),
    }
}

#[test]
fn gas_used_beyond_2_pow_53_is_exact_decimal_string() {
    let mut r = sample_receipt();
    // 2^60, far beyond the 2^53 safe range of float-backed numbers.
    r.gas_used = Some(U256::from_u64(1u64 << 60));
    let d = map_receipt(&r);
    assert_eq!(d.entries[7].0, "gasUsed");
    assert_eq!(
        d.entries[7].1,
        Value::Str("1152921504606846976".to_string())
    );
}

#[test]
fn large_indices_wrap_as_64_bit_integers() {
    let mut r = sample_receipt();
    r.transaction_index = u64::MAX;
    r.status = Some(u32::MAX);
    let d = map_receipt(&r);
    assert_eq!(d.entries[1].1, Value::I64(-1));
    assert_eq!(d.entries[10].1, Value::I32(-1));
}

#[test]
fn legacy_log_type_tag_is_kept() {
    let mut r = sample_receipt();
    let mut l = sample_log();
    l.log_type = Some("mined".to_string());
    r.logs = vec![l];
    let d = map_receipt(&r);
    match &d.entries[9].1 {
        Value::Arr(a) => match &a[0] {
            Value::Doc(sub) => {
                assert_eq!(sub.entries[8].0, "type");
                assert_eq!(sub.entries[8].1, Value::Str("mined".to_string()));
            }
            other => panic!("log entry should be a sub-document, got {:?}", other),
        },
        other => panic!("logs should be an array, got {:?}", other),
    }
}

//! The receipt-to-document mapper: a pure, total conversion of a
//! transaction receipt into a generic document with a fixed key set in
//! a fixed order.
//!
//! `spec_map` and `spec_map_log` are the mathematical statement of the
//! mapping; `map_receipt` and `map_log` are the executable conversion,
//! proved to produce exactly the modelled document.

use vstd::prelude::*;
use crate::decimal::{U256, dec_of, dec_str};
use crate::doc::{Document, GValue, Value};
use crate::hexcodec::{hex_field_of, hex_field_str};
use crate::receipt::{Log, Receipt};

verus! {

/// The 64-bit two's-complement reinterpretation of a 64-bit unsigned
/// value, the form the document's 64-bit integer kind stores.
pub open spec fn i64_of_u64(n: u64) -> i64 {
    if n <= i64::MAX {
        n as i64
    } else {
        (n - 0x1_0000_0000_0000_0000) as i64
    }
}

/// The 32-bit two's-complement reinterpretation of a 32-bit unsigned
/// value, the form the document's 32-bit integer kind stores.
pub open spec fn i32_of_u32(n: u32) -> i32 {
    if n <= i32::MAX {
        n as i32
    } else {
        (n - 0x1_0000_0000) as i32
    }
}

/// An optional byte field: `0x`-prefixed hex string, or null.
pub open spec fn opt_bytes_value(o: Option<Vec<u8>>) -> GValue {
    match o {
        Some(b) => GValue::Str(hex_field_of(b@)),
        None => GValue::Null,
    }
}

/// An optional 64-bit integer field: 64-bit integer, or null.
pub open spec fn opt_u64_value(o: Option<u64>) -> GValue {
    match o {
        Some(n) => GValue::I64(i64_of_u64(n)),
        None => GValue::Null,
    }
}

/// An optional status field: 32-bit integer, or null.
pub open spec fn opt_u32_value(o: Option<u32>) -> GValue {
    match o {
        Some(n) => GValue::I32(i32_of_u32(n)),
        None => GValue::Null,
    }
}

/// An optional large-integer field: exact decimal string, or null.
pub open spec fn opt_dec_value(o: Option<U256>) -> GValue {
    match o {
        Some(g) => GValue::Str(dec_of(g.value())),
        None => GValue::Null,
    }
}

/// An optional string field: the string itself, or null.
pub open spec fn opt_str_value(o: Option<String>) -> GValue {
    match o {
        Some(s) => GValue::Str(s@),
        None => GValue::Null,
    }
}

/// An optional boolean field: the boolean itself, or null.
pub open spec fn opt_bool_value(o: Option<bool>) -> GValue {
    match o {
        Some(b) => GValue::Bool(b),
        None => GValue::Null,
    }
}

/// The modelled sub-document of one log entry: its keys in the fixed
/// order, every optional field either encoded or explicitly null.
pub open spec fn spec_map_log(l: Log) -> Seq<(Seq<char>, GValue)> {
    seq![
        ("address"@, GValue::Str(hex_field_of(l.address@))),
        (
            "topics"@,
            GValue::Arr(Seq::new(l.topics@.len(), |i: int| GValue::Str(hex_field_of(l.topics@[i]@)))),
        ),
        ("data"@, GValue::Str(hex_field_of(l.data@))),
        ("blockHash"@, opt_bytes_value(l.block_hash)),
        ("blockNumber"@, opt_u64_value(l.block_number)),
        ("transactionHash"@, opt_bytes_value(l.transaction_hash)),
        ("transactionIndex"@, opt_u64_value(l.transaction_index)),
        ("logIndex"@, opt_u64_value(l.log_index)),
        ("type"@, opt_str_value(l.log_type)),
        ("removed"@, opt_bool_value(l.removed)),
    ]
}

/// The modelled document of a whole receipt: the fifteen keys in the
/// fixed order, with hex-string, integer, decimal-string, log-array
/// and null values as the encoding rules state.
pub open spec fn spec_map(r: Receipt) -> Seq<(Seq<char>, GValue)> {
    seq![
        ("transactionHash"@, GValue::Str(hex_field_of(r.transaction_hash@))),
        ("transactionIndex"@, GValue::I64(i64_of_u64(r.transaction_index))),
        ("blockHash"@, opt_bytes_value(r.block_hash)),
        ("blockNumber"@, opt_u64_value(r.block_number)),
        ("from"@, GValue::Str(hex_field_of(r.from@))),
        ("to"@, opt_bytes_value(r.to)),
        ("cumulativeGasUsed"@, GValue::Str(dec_of(r.cumulative_gas_used.value()))),
        ("gasUsed"@, opt_dec_value(r.gas_used)),
        ("contractAddress"@, opt_bytes_value(r.contract_address)),
        (
            "logs"@,
            GValue::Arr(Seq::new(r.logs@.len(), |i: int| GValue::Doc(spec_map_log(r.logs@[i])))),
        ),
        ("status"@, opt_u32_value(r.status)),
        ("root"@, opt_bytes_value(r.root)),
        ("logs_bloom"@, GValue::Str(hex_field_of(r.logs_bloom@))),
        ("type"@, opt_u64_value(r.transaction_type)),
        ("effectiveGasPrice"@, opt_dec_value(r.effective_gas_price)),
    ]
}

/// Two's-complement reinterpretation of a 64-bit unsigned value.
pub fn wrap_to_i64(n: u64) -> (r: i64)
    ensures
        r == i64_of_u64(n),
{
    if n <= 0x7fff_ffff_ffff_ffff {
        n as i64
    } else {
        let m: u64 = n - 0x8000_0000_0000_0000;
        (m as i64) + i64::MIN
    }
}

/// Two's-complement reinterpretation of a 32-bit unsigned value.
pub fn wrap_to_i32(n: u32) -> (r: i32)
    ensures
        r == i32_of_u32(n),
{
    if n <= 0x7fff_ffff {
        n as i32
    } else {
        let m: u32 = n - 0x8000_0000;
        (m as i32) + i32::MIN
    }
}

/// Converts one log entry into its sub-document.
pub fn map_log(l: &Log) -> (d: Document)
    ensures
        d.gview() == spec_map_log(*l),
{
    let mut d = Document::new();
    d.insert("address", Value::Str(hex_field_str(l.address.as_slice())));
    let mut topics: Vec<Value> = Vec::new();
    let mut i: usize = 0;
    while i < l.topics.len()
        invariant
            i <= l.topics@.len(),
            topics@.len() == i,
            forall|j: int|
                0 <= j < i ==> topics@[j].gview() == GValue::Str(hex_field_of(l.topics@[j]@)),
        decreases l.topics@.len() - i,
    {
        topics.push(Value::Str(hex_field_str(l.topics[i].as_slice())));
        i = i + 1;
    }
    let topics_value = Value::Arr(topics);
    proof {
        assert(topics_value.gview() matches GValue::Arr(s) && s =~= Seq::new(
            l.topics@.len(),
            |i: int| GValue::Str(hex_field_of(l.topics@[i]@)),
        ));
    }
    d.insert("topics", topics_value);
    d.insert("data", Value::Str(hex_field_str(l.data.as_slice())));
    match &l.block_hash {
        Some(b) => d.insert("blockHash", Value::Str(hex_field_str(b.as_slice()))),
        None => d.insert("blockHash", Value::Null),
    }
    match &l.block_number {
        Some(n) => d.insert("blockNumber", Value::I64(wrap_to_i64(*n))),
        None => d.insert("blockNumber", Value::Null),
    }
    match &l.transaction_hash {
        Some(b) => d.insert("transactionHash", Value::Str(hex_field_str(b.as_slice()))),
        None => d.insert("transactionHash", Value::Null),
    }
    match &l.transaction_index {
        Some(n) => d.insert("transactionIndex", Value::I64(wrap_to_i64(*n))),
        None => d.insert("transactionIndex", Value::Null),
    }
    match &l.log_index {
        Some(n) => d.insert("logIndex", Value::I64(wrap_to_i64(*n))),
        None => d.insert("logIndex", Value::Null),
    }
    match &l.log_type {
        Some(s) => d.insert("type", Value::Str(s.clone())),
        None => d.insert("type", Value::Null),
    }
    match &l.removed {
        Some(b) => d.insert("removed", Value::Bool(*b)),
        None => d.insert("removed", Value::Null),
    }
    proof {
        assert(d.gview() =~~= spec_map_log(*l));
    }
    d
}

/// Converts a transaction receipt into its document. The conversion
/// is total: every receipt yields exactly the document `spec_map`
/// states, with no key dropped and every absent optional field mapped
/// to an explicit null.
#[verifier::rlimit(100)]
pub fn map_receipt(r: &Receipt) -> (d: Document)
    ensures
        d.gview() == spec_map(*r),
{
    let mut d = Document::new();
    d.insert("transactionHash", Value::Str(hex_field_str(r.transaction_hash.as_slice())));
    d.insert("transactionIndex", Value::I64(wrap_to_i64(r.transaction_index)));
    match &r.block_hash {
        Some(b) => d.insert("blockHash", Value::Str(hex_field_str(b.as_slice()))),
        None => d.insert("blockHash", Value::Null),
    }
    match &r.block_number {
        Some(n) => d.insert("blockNumber", Value::I64(wrap_to_i64(*n))),
        None => d.insert("blockNumber", Value::Null),
    }
    d.insert("from", Value::Str(hex_field_str(r.from.as_slice())));
    match &r.to {
        Some(b) => d.insert("to", Value::Str(hex_field_str(b.as_slice()))),
        None => d.insert("to", Value::Null),
    }
    d.insert("cumulativeGasUsed", Value::Str(dec_str(&r.cumulative_gas_used)));
    match &r.gas_used {
        Some(g) => d.insert("gasUsed", Value::Str(dec_str(g))),
        None => d.insert("gasUsed", Value::Null),
    }
    match &r.contract_address {
        Some(b) => d.insert("contractAddress", Value::Str(hex_field_str(b.as_slice()))),
        None => d.insert("contractAddress", Value::Null),
    }
    let mut logs: Vec<Value> = Vec::new();
    let mut i: usize = 0;
    while i < r.logs.len()
        invariant
            i <= r.logs@.len(),
            logs@.len() == i,
            forall|j: int| 0 <= j < i ==> logs@[j].gview() == GValue::Doc(spec_map_log(r.logs@[j])),
        decreases r.logs@.len() - i,
    {
        let sub = map_log(&r.logs[i]);
        proof {
            assert(Value::Doc(sub).gview() matches GValue::Doc(s) && s =~= sub.gview());
        }
        logs.push(Value::Doc(sub));
        i = i + 1;
    }
    let logs_value = Value::Arr(logs);
    proof {
        assert(logs_value.gview() matches GValue::Arr(s) && s =~= Seq::new(
            r.logs@.len(),
            |i: int| GValue::Doc(spec_map_log(r.logs@[i])),
        ));
    }
    d.insert("logs", logs_value);
    match &r.status {
        Some(n) => d.insert("status", Value::I32(wrap_to_i32(*n))),
        None => d.insert("status", Value::Null),
    }
    match &r.root {
        Some(b) => d.insert("root", Value::Str(hex_field_str(b.as_slice()))),
        None => d.insert("root", Value::Null),
    }
    d.insert("logs_bloom", Value::Str(hex_field_str(r.logs_bloom.as_slice())));
    match &r.transaction_type {
        Some(n) => d.insert("type", Value::I64(wrap_to_i64(*n))),
        None => d.insert("type", Value::Null),
    }
    match &r.effective_gas_price {
        Some(g) => d.insert("effectiveGasPrice", Value::Str(dec_str(g))),
        None => d.insert("effectiveGasPrice", Value::Null),
    }
    proof {
        assert(d.gview() =~~= spec_map(*r));
    }
    d
}

} // verus!

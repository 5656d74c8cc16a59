//! Document-shape laws: the fixed key set and order, the explicit-null
//! policy for absent optional fields, and preservation of the log
//! sequence. Together with the round-trip lemmas in `hexcodec` and
//! `decimal`, these state the observable guarantees of the mapping.

use vstd::prelude::*;
use crate::decimal::{lemma_dec_round_trip, parse_dec};
use crate::doc::{Document, GValue};
use crate::hexcodec::{hex_decode, lemma_hex_field_round_trip};
use crate::mapper::{spec_map, spec_map_log};
use crate::receipt::{Log, Receipt};

verus! {

/// Every receipt's document carries exactly the fifteen specified
/// keys, in the specified order, with no extra or missing key.
pub proof fn lemma_doc_key_order(r: Receipt)
    ensures
        Document::keys_of(spec_map(r)) =~= seq![
            "transactionHash"@,
            "transactionIndex"@,
            "blockHash"@,
            "blockNumber"@,
            "from"@,
            "to"@,
            "cumulativeGasUsed"@,
            "gasUsed"@,
            "contractAddress"@,
            "logs"@,
            "status"@,
            "root"@,
            "logs_bloom"@,
            "type"@,
            "effectiveGasPrice"@,
        ],
{
}

/// Every log's sub-document carries exactly the ten specified keys,
/// in the specified order.
pub proof fn lemma_log_key_order(l: Log)
    ensures
        Document::keys_of(spec_map_log(l)) =~= seq![
            "address"@,
            "topics"@,
            "data"@,
            "blockHash"@,
            "blockNumber"@,
            "transactionHash"@,
            "transactionIndex"@,
            "logIndex"@,
            "type"@,
            "removed"@,
        ],
{
}

/// An absent optional receipt field always yields an explicit null at
/// its key; the key itself is always present, since the document
/// always has all fifteen entries.
pub proof fn lemma_null_policy(r: Receipt)
    ensures
        spec_map(r).len() == 15,
        r.block_hash is None ==> spec_map(r)[2].1 == GValue::Null,
        r.block_number is None ==> spec_map(r)[3].1 == GValue::Null,
        r.to is None ==> spec_map(r)[5].1 == GValue::Null,
        r.gas_used is None ==> spec_map(r)[7].1 == GValue::Null,
        r.contract_address is None ==> spec_map(r)[8].1 == GValue::Null,
        r.status is None ==> spec_map(r)[10].1 == GValue::Null,
        r.root is None ==> spec_map(r)[11].1 == GValue::Null,
        r.transaction_type is None ==> spec_map(r)[13].1 == GValue::Null,
        r.effective_gas_price is None ==> spec_map(r)[14].1 == GValue::Null,
{
}

/// An absent optional log field always yields an explicit null at its
/// key in the log's sub-document.
pub proof fn lemma_log_null_policy(l: Log)
    ensures
        spec_map_log(l).len() == 10,
        l.block_hash is None ==> spec_map_log(l)[3].1 == GValue::Null,
        l.block_number is None ==> spec_map_log(l)[4].1 == GValue::Null,
        l.transaction_hash is None ==> spec_map_log(l)[5].1 == GValue::Null,
        l.transaction_index is None ==> spec_map_log(l)[6].1 == GValue::Null,
        l.log_index is None ==> spec_map_log(l)[7].1 == GValue::Null,
        l.log_type is None ==> spec_map_log(l)[8].1 == GValue::Null,
        l.removed is None ==> spec_map_log(l)[9].1 == GValue::Null,
{
}

/// Hex-string fields lose nothing: stripping the `0x` prefix and
/// hex-decoding the mandatory byte-valued fields of the document
/// recovers exactly the receipt's original byte sequences.
pub proof fn lemma_hex_fields_recoverable(r: Receipt)
    ensures
        spec_map(r)[0].1 matches GValue::Str(s) && hex_decode(s.skip(2)) == r.transaction_hash@,
        spec_map(r)[4].1 matches GValue::Str(s) && hex_decode(s.skip(2)) == r.from@,
        spec_map(r)[12].1 matches GValue::Str(s) && hex_decode(s.skip(2)) == r.logs_bloom@,
{
    lemma_hex_field_round_trip(r.transaction_hash@);
    lemma_hex_field_round_trip(r.from@);
    lemma_hex_field_round_trip(r.logs_bloom@);
}

/// Hex-string fields of a log sub-document lose nothing either.
pub proof fn lemma_log_hex_fields_recoverable(l: Log)
    ensures
        spec_map_log(l)[0].1 matches GValue::Str(s) && hex_decode(s.skip(2)) == l.address@,
        spec_map_log(l)[2].1 matches GValue::Str(s) && hex_decode(s.skip(2)) == l.data@,
        spec_map_log(l)[1].1 matches GValue::Arr(a) && (forall|i: int|
            0 <= i < l.topics@.len() ==> ((#[trigger] a[i]) matches GValue::Str(s) && hex_decode(
                s.skip(2),
            ) == l.topics@[i]@)),
{
    lemma_hex_field_round_trip(l.address@);
    lemma_hex_field_round_trip(l.data@);
    assert forall|i: int| 0 <= i < l.topics@.len() implies ((#[trigger] spec_map_log(
        l,
    )[1].1->Arr_0[i]) matches GValue::Str(s) && hex_decode(s.skip(2)) == l.topics@[i]@) by {
        lemma_hex_field_round_trip(l.topics@[i]@);
    }
}

/// Decimal-string fields lose no precision: parsing them back yields
/// the exact original large-integer value.
pub proof fn lemma_decimal_fields_recoverable(r: Receipt)
    ensures
        spec_map(r)[6].1 matches GValue::Str(s) && parse_dec(s) == r.cumulative_gas_used.value(),
        r.gas_used matches Some(g) ==> spec_map(r)[7].1 matches GValue::Str(s) && parse_dec(s)
            == g.value(),
        r.effective_gas_price matches Some(g) ==> spec_map(r)[14].1 matches GValue::Str(s)
            && parse_dec(s) == g.value(),
{
    lemma_dec_round_trip(r.cumulative_gas_used.value());
    match r.gas_used {
        Some(g) => lemma_dec_round_trip(g.value()),
        None => (),
    }
    match r.effective_gas_price {
        Some(g) => lemma_dec_round_trip(g.value()),
        None => (),
    }
}

/// The logs array has exactly one sub-document per input log, in the
/// input order.
pub proof fn lemma_logs_preserved(r: Receipt)
    ensures
        spec_map(r)[9].0 == "logs"@,
        spec_map(r)[9].1 matches GValue::Arr(a) && a.len() == r.logs@.len() && (forall|i: int|
            0 <= i < r.logs@.len() ==> a[i] == GValue::Doc(spec_map_log(r.logs@[i]))),
{
}

} // verus!

//! The transaction receipt structure consumed by the mapper, held as
//! plain values: byte sequences for hashes, addresses and the bloom
//! filter, 64-bit indices, and four-limb 256-bit gas quantities.

use vstd::prelude::*;
use crate::decimal::U256;

verus! {

/// One event emitted during transaction execution.
#[derive(Debug)]
pub struct Log {
    /// Emitting contract address (20 bytes).
    pub address: Vec<u8>,
    /// Ordered topic values (32 bytes each).
    pub topics: Vec<Vec<u8>>,
    /// Opaque data payload.
    pub data: Vec<u8>,
    /// Hash of the containing block, absent while pending.
    pub block_hash: Option<Vec<u8>>,
    /// Number of the containing block, absent while pending.
    pub block_number: Option<u64>,
    /// Hash of the parent transaction.
    pub transaction_hash: Option<Vec<u8>>,
    /// Index of the parent transaction.
    pub transaction_index: Option<u64>,
    /// Position of the log within the block.
    pub log_index: Option<u64>,
    /// Legacy log type tag, rarely populated.
    pub log_type: Option<String>,
    /// True if the log was reverted by a chain reorganization.
    pub removed: Option<bool>,
}

/// The outcome record of a finalized transaction.
#[derive(Debug)]
pub struct Receipt {
    /// Transaction hash (32 bytes).
    pub transaction_hash: Vec<u8>,
    /// Index of the transaction within its block.
    pub transaction_index: u64,
    /// Hash of the containing block, absent while pending.
    pub block_hash: Option<Vec<u8>>,
    /// Number of the containing block, absent while pending.
    pub block_number: Option<u64>,
    /// Sender address (20 bytes).
    pub from: Vec<u8>,
    /// Recipient address, absent for contract creation.
    pub to: Option<Vec<u8>>,
    /// Cumulative gas used in the block up to this transaction.
    pub cumulative_gas_used: U256,
    /// Gas used by this transaction alone.
    pub gas_used: Option<U256>,
    /// Created contract address, present only for contract creation.
    pub contract_address: Option<Vec<u8>>,
    /// Logs emitted during execution.
    pub logs: Vec<Log>,
    /// Status code: 1 for success, 0 for failure.
    pub status: Option<u32>,
    /// Post-transaction state root (32 bytes), used by pre-status
    /// chain versions.
    pub root: Option<Vec<u8>>,
    /// Logs bloom filter (256 bytes).
    pub logs_bloom: Vec<u8>,
    /// Transaction type.
    pub transaction_type: Option<u64>,
    /// Effective gas price.
    pub effective_gas_price: Option<U256>,
}

} // verus!

//! Data model of the adapter.
//!
//! The ledger client's round-trips (block lookup, header decode, receipt
//! retrieval, transaction follow-up) are performed by the caller; each
//! outcome is handed back to the library as one of the event types below,
//! so every decision the adapter takes on an outcome is verified.

use vstd::prelude::*;

verus! {

/// A typed identifier selecting one block: by its signature (the block's
/// canonical hash in this ledger), by height, or the symbolic latest block.
pub enum BlockKey {
    Signature(String),
    Number(u64),
    Latest,
}

/// The decoded fields of a block header that the adapter reads.
pub struct BlockHeader {
    pub block_num: u64,
    pub previous_block_id: String,
    pub state_root_hash: String,
}

/// One batch of a native block: an ordered list of transaction identifiers.
pub struct Batch {
    pub transaction_ids: Vec<String>,
}

/// The ledger's native block record: undecoded header bytes, the header
/// signature (the block's hash), and the ordered batches.
pub struct NativeBlock {
    pub header: Vec<u8>,
    pub header_signature: String,
    pub batches: Vec<Batch>,
}

/// One transaction's execution outcome: its identifier and gas consumed.
pub struct Receipt {
    pub transaction_id: String,
    pub gas_used: u64,
}

/// A structured error of the exposed operations.
///
/// `ParameterError` reports caller input that fails structural validation;
/// `InternalFault` reports anything unexpected from the backend, with no
/// backend detail leaked to the caller.
pub enum RpcError {
    ParameterError(String),
    InternalFault,
}

/// Outcome of looking a block up by key.
pub enum BlockLookup {
    Found(NativeBlock),
    NotFound,
    Fault,
}

/// Outcome of decoding a block's header bytes.
pub enum HeaderDecode {
    Decoded(BlockHeader),
    Undecodable,
}

/// Outcome of retrieving the ordered receipts of a block.
pub enum ReceiptsLookup {
    Found(Vec<Receipt>),
    Fault,
}

/// Outcome of the follow-up lookup of one full transaction, already
/// rendered to the caller's transaction-object representation `T`.
pub enum TxnLookup<T> {
    Found(T),
    Fault,
}

/// Outcome of fetching the chain head and decoding its header.
pub enum HeadLookup {
    Found(HeaderDecode),
    Fault,
}

/// Outcome of resolving a caller-supplied height/tag string through the
/// ledger client's key resolver.
pub enum KeyResolution {
    Resolved(BlockKey),
    Malformed,
}

} // verus!

//! Block rendering: resolves a block, aggregates its receipts, and
//! assembles the wire-protocol block object.
//!
//! The ledger round-trips (block lookup, header decode, receipt retrieval,
//! per-transaction follow-ups) are performed by the caller, one at a time,
//! driven by a [`BlockRender`] session: the session says which round-trip
//! is due next, the caller hands the outcome back, and each transition's
//! contract pins down exactly what the outcome leads to. A lookup failure
//! at any stage aborts the whole operation with an internal fault — a
//! partial block object is never produced.

use vstd::prelude::*;
use vstd::pervasive::unreached;

use crate::codec::{hex_prefix, hex_str, num_to_hex, zero_bytes_str, zerobytes};
use crate::types::{BlockHeader, BlockKey, BlockLookup, HeaderDecode, NativeBlock, Receipt,
    ReceiptsLookup, TxnLookup};

verus! {

/// The transaction list of a block view: bare hex-encoded identifiers in
/// summary mode, or the caller's full transaction objects `T` in full mode.
pub enum TxnList<T> {
    Ids(Vec<String>),
    Full(Vec<T>),
}

/// The assembled wire-protocol block object. The fields are exactly the
/// protocol's key set: the first six are derived from the native block,
/// the rest are protocol-mandated placeholders with no native source,
/// always emitted as zero-valued encodings of their declared byte width.
pub struct BlockView<T> {
    pub number: String,
    pub hash: String,
    pub parent_hash: String,
    pub state_root: String,
    pub transactions: TxnList<T>,
    pub gas_used: String,
    pub nonce: String,
    pub sha3_uncles: String,
    pub logs_bloom: String,
    pub transactions_root: String,
    pub receipts_root: String,
    pub miner: String,
    pub difficulty: String,
    pub total_difficulty: String,
    pub extra_data: String,
    pub size: String,
    pub gas_limit: String,
    pub uncles: Vec<String>,
}

/// The exact sum of the receipts' gas values.
pub open spec fn spec_total_gas(rs: Seq<Receipt>) -> int
    decreases rs.len(),
{
    if rs.len() == 0 {
        0
    } else {
        spec_total_gas(rs.drop_last()) + rs.last().gas_used
    }
}

proof fn lemma_total_gas_take_step(rs: Seq<Receipt>, i: int)
    requires
        0 <= i < rs.len(),
    ensures
        spec_total_gas(rs.take(i + 1)) == spec_total_gas(rs.take(i)) + rs[i].gas_used,
{
    assert(rs.take(i + 1).drop_last() =~= rs.take(i));
    assert(rs.take(i + 1).last() == rs[i]);
}

proof fn lemma_total_gas_mono(rs: Seq<Receipt>, i: int)
    requires
        0 <= i <= rs.len(),
    ensures
        spec_total_gas(rs.take(i)) <= spec_total_gas(rs),
    decreases rs.len() - i,
{
    if i == rs.len() {
        assert(rs.take(i) =~= rs);
    } else {
        lemma_total_gas_take_step(rs, i);
        lemma_total_gas_mono(rs, i + 1);
    }
}

/// Sums the receipts' gas values; `None` exactly when the sum does not
/// fit in a `u64`.
fn sum_gas(rs: &Vec<Receipt>) -> (r: Option<u64>)
    ensures
        match r {
            Some(g) => g == spec_total_gas(rs@),
            None => spec_total_gas(rs@) > u64::MAX,
        },
{
    let mut total: u64 = 0;
    let mut i: usize = 0;
    let mut overflow = false;
    while i < rs.len() && !overflow
        invariant
            i <= rs@.len(),
            !overflow ==> total == spec_total_gas(rs@.take(i as int)),
            overflow ==> spec_total_gas(rs@) > u64::MAX,
        decreases rs@.len() - i,
    {
        proof {
            lemma_total_gas_take_step(rs@, i as int);
        }
        match total.checked_add(rs[i].gas_used) {
            Some(t) => {
                total = t;
            },
            None => {
                proof {
                    lemma_total_gas_mono(rs@, i + 1);
                }
                overflow = true;
            },
        }
        i = i + 1;
    }
    if overflow {
        None
    } else {
        proof {
            assert(rs@.take(rs@.len() as int) =~= rs@);
        }
        Some(total)
    }
}

/// The summary-mode transaction list: each receipt's transaction
/// identifier, hex-encoded, in block order.
fn summary_ids(rs: &Vec<Receipt>) -> (ids: Vec<String>)
    ensures
        ids@.len() == rs@.len(),
        forall|i: int| 0 <= i < rs@.len() ==> ids@[i]@ == seq!['0', 'x'] + rs@[i].transaction_id@,
{
    let mut ids: Vec<String> = Vec::new();
    let mut i: usize = 0;
    while i < rs.len()
        invariant
            i <= rs@.len(),
            ids@.len() == i,
            forall|j: int| 0 <= j < i ==> ids@[j]@ == seq!['0', 'x'] + rs@[j].transaction_id@,
        decreases rs@.len() - i,
    {
        ids.push(hex_prefix(rs[i].transaction_id.as_str()));
        i = i + 1;
    }
    ids
}

/// What every assembled block view states of its fields: the derived
/// fields encode the header, the signature and the gas total, and every
/// placeholder field carries its protocol-declared zero encoding.
pub open spec fn view_matches<T>(v: BlockView<T>, h: BlockHeader, sig: Seq<char>, gas: int) -> bool {
    &&& v.number@ == hex_str(h.block_num as nat)
    &&& v.hash@ == seq!['0', 'x'] + sig
    &&& v.parent_hash@ == seq!['0', 'x'] + h.previous_block_id@
    &&& v.state_root@ == seq!['0', 'x'] + h.state_root_hash@
    &&& v.gas_used@ == hex_str(gas as nat)
    &&& v.nonce@ == zero_bytes_str(8)
    &&& v.sha3_uncles@ == zero_bytes_str(32)
    &&& v.logs_bloom@ == zero_bytes_str(256)
    &&& v.transactions_root@ == zero_bytes_str(32)
    &&& v.receipts_root@ == zero_bytes_str(32)
    &&& v.miner@ == zero_bytes_str(20)
    &&& v.difficulty@ == zero_bytes_str(0)
    &&& v.total_difficulty@ == zero_bytes_str(0)
    &&& v.extra_data@ == zero_bytes_str(0)
    &&& v.size@ == zero_bytes_str(0)
    &&& v.gas_limit@ == zero_bytes_str(0)
    &&& v.uncles@.len() == 0
}

/// Assembles the block view from the decoded header, the block's
/// signature, the prepared transaction list and the aggregated gas total.
pub fn build_block_view<T>(header: &BlockHeader, signature: &str, transactions: TxnList<T>, gas: u64) -> (v: BlockView<T>)
    ensures
        view_matches(v, *header, signature@, gas as int),
        v.transactions == transactions,
{
    BlockView {
        number: num_to_hex(header.block_num),
        hash: hex_prefix(signature),
        parent_hash: hex_prefix(header.previous_block_id.as_str()),
        state_root: hex_prefix(header.state_root_hash.as_str()),
        transactions,
        gas_used: num_to_hex(gas),
        nonce: zerobytes(8),
        sha3_uncles: zerobytes(32),
        logs_bloom: zerobytes(256),
        transactions_root: zerobytes(32),
        receipts_root: zerobytes(32),
        miner: zerobytes(20),
        difficulty: zerobytes(0),
        total_difficulty: zerobytes(0),
        extra_data: zerobytes(0),
        size: zerobytes(0),
        gas_limit: zerobytes(0),
        uncles: Vec::new(),
    }
}

/// The result of a finished render: the assembled block view, the
/// successful `Null` for a block that does not exist, or an opaque
/// internal fault.
pub enum RenderOutcome<T> {
    Block(BlockView<T>),
    Null,
    InternalFault,
}

/// Where a render session stands: which ledger round-trip it awaits, or
/// its outcome.
pub enum RenderState<T> {
    AwaitBlock,
    AwaitHeader { block: NativeBlock },
    AwaitReceipts { block: NativeBlock, header: BlockHeader },
    AwaitTxn {
        signature: String,
        header: BlockHeader,
        receipts: Vec<Receipt>,
        next: usize,
        objs: Vec<T>,
        gas: u64,
    },
    Done { outcome: RenderOutcome<T> },
}

/// The ledger round-trip a session asks its driver to perform next.
pub enum RenderAction<'a, T> {
    FetchBlock(&'a BlockKey),
    DecodeHeader(&'a Vec<u8>),
    FetchReceipts(&'a NativeBlock),
    FetchTxn(&'a String),
    Finished(&'a RenderOutcome<T>),
}

/// The session finished with the opaque internal fault.
pub open spec fn done_fault<T>(st: RenderState<T>) -> bool {
    st == (RenderState::<T>::Done { outcome: RenderOutcome::InternalFault })
}

/// The session finished with the successful `Null` result: the requested
/// block does not exist.
pub open spec fn done_null<T>(st: RenderState<T>) -> bool {
    st == (RenderState::<T>::Done { outcome: RenderOutcome::Null })
}

/// A finished summary-mode render: the block view is assembled from the
/// header and signature, its gas total is the exact sum over `rs`, and
/// its transaction list holds one hex-encoded identifier per receipt, in
/// block order.
pub open spec fn summary_done<T>(st: RenderState<T>, h: BlockHeader, sig: Seq<char>, rs: Seq<Receipt>) -> bool {
    st matches RenderState::Done { outcome: RenderOutcome::Block(v) }
        && view_matches(v, h, sig, spec_total_gas(rs))
        && (v.transactions matches TxnList::Ids(ids)
            && ids@.len() == rs.len()
            && (forall|i: int| 0 <= i < rs.len() ==> ids@[i]@ == seq!['0', 'x']
                + rs[i].transaction_id@))
}

/// A finished full-mode render: as [`summary_done`], except that the
/// transaction list holds exactly the objects the driver handed in, one
/// per receipt, in the order they were handed in.
pub open spec fn full_done<T>(st: RenderState<T>, h: BlockHeader, sig: Seq<char>, rs: Seq<Receipt>, objs: Seq<T>) -> bool {
    st matches RenderState::Done { outcome: RenderOutcome::Block(v) }
        && view_matches(v, h, sig, spec_total_gas(rs))
        && (v.transactions matches TxnList::Full(os) && os@ == objs)
}

/// One block-render session: resolves `key`, and renders the block with
/// full transaction objects when `full` is set, bare identifiers when not.
pub struct BlockRender<T> {
    pub key: BlockKey,
    pub full: bool,
    pub state: RenderState<T>,
}

impl<T> BlockRender<T> {
    /// Internal consistency of a session awaiting a follow-up lookup: the
    /// objects collected so far are one per receipt already visited, and
    /// the gas accumulated so far is the exact sum over those receipts.
    pub open spec fn inv(self) -> bool {
        match self.state {
            RenderState::AwaitTxn { receipts, next, objs, gas, .. } => {
                &&& self.full
                &&& (next as int) < receipts@.len()
                &&& objs@.len() == next as int
                &&& gas == spec_total_gas(receipts@.take(next as int))
            },
            _ => true,
        }
    }

    /// Starts a render session for `key`.
    pub fn new(key: BlockKey, full: bool) -> (m: Self)
        ensures
            m.key == key,
            m.full == full,
            m.state is AwaitBlock,
            m.inv(),
    {
        BlockRender { key, full, state: RenderState::AwaitBlock }
    }

    /// The round-trip due next, with the data it needs borrowed from the
    /// session.
    pub fn action(&self) -> (a: RenderAction<'_, T>)
        requires
            self.inv(),
        ensures
            match self.state {
                RenderState::AwaitBlock => a matches RenderAction::FetchBlock(k) && *k
                    == self.key,
                RenderState::AwaitHeader { block } => a matches RenderAction::DecodeHeader(bytes)
                    && bytes@ == block.header@,
                RenderState::AwaitReceipts { block, .. } => a matches RenderAction::FetchReceipts(
                    b,
                ) && *b == block,
                RenderState::AwaitTxn { receipts, next, .. } => a matches RenderAction::FetchTxn(
                    id,
                ) && id@ == receipts@[next as int].transaction_id@,
                RenderState::Done { outcome } => a matches RenderAction::Finished(o) && *o
                    == outcome,
            },
    {
        match &self.state {
            RenderState::AwaitBlock => RenderAction::FetchBlock(&self.key),
            RenderState::AwaitHeader { block } => RenderAction::DecodeHeader(&block.header),
            RenderState::AwaitReceipts { block, .. } => RenderAction::FetchReceipts(block),
            RenderState::AwaitTxn { receipts, next, .. } => RenderAction::FetchTxn(
                &receipts[*next].transaction_id,
            ),
            RenderState::Done { outcome } => RenderAction::Finished(outcome),
        }
    }

    /// Takes the outcome of the block lookup. A block that does not exist
    /// finishes the session with the successful `Null` result — for every
    /// key form, and never with an error; a backend fault finishes it with
    /// the internal fault; a found block moves on to the header decode.
    pub fn on_block(self, lk: BlockLookup) -> (m: Self)
        requires
            self.state is AwaitBlock,
        ensures
            m.key == self.key,
            m.full == self.full,
            m.inv(),
            match lk {
                BlockLookup::NotFound => done_null(m.state),
                BlockLookup::Fault => done_fault(m.state),
                BlockLookup::Found(b) => m.state == (RenderState::<T>::AwaitHeader { block: b }),
            },
    {
        let BlockRender { key, full, state: _ } = self;
        match lk {
            BlockLookup::NotFound => BlockRender {
                key,
                full,
                state: RenderState::Done { outcome: RenderOutcome::Null },
            },
            BlockLookup::Fault => BlockRender {
                key,
                full,
                state: RenderState::Done { outcome: RenderOutcome::InternalFault },
            },
            BlockLookup::Found(b) => BlockRender {
                key,
                full,
                state: RenderState::AwaitHeader { block: b },
            },
        }
    }

    /// Takes the outcome of decoding the block's header bytes. Undecodable
    /// header bytes are an internal fault; a decoded header moves on to
    /// the receipt retrieval.
    pub fn on_header(self, d: HeaderDecode) -> (m: Self)
        requires
            self.state is AwaitHeader,
        ensures
            m.key == self.key,
            m.full == self.full,
            m.inv(),
            self.state matches RenderState::AwaitHeader { block } ==> match d {
                HeaderDecode::Undecodable => done_fault(m.state),
                HeaderDecode::Decoded(h) => m.state == (RenderState::<T>::AwaitReceipts {
                    block,
                    header: h,
                }),
            },
    {
        let BlockRender { key, full, state } = self;
        match state {
            RenderState::AwaitHeader { block } => match d {
                HeaderDecode::Undecodable => BlockRender {
                    key,
                    full,
                    state: RenderState::Done { outcome: RenderOutcome::InternalFault },
                },
                HeaderDecode::Decoded(h) => BlockRender {
                    key,
                    full,
                    state: RenderState::AwaitReceipts { block, header: h },
                },
            },
            _ => unreached(),
        }
    }

    /// Takes the outcome of the receipt retrieval. A fault finishes the
    /// session with the internal fault. In summary mode the session
    /// finishes at once with the assembled view (gas beyond `u64::MAX` is
    /// an internal fault). In full mode it moves on to the follow-up
    /// transaction lookups, or finishes at once when there are no
    /// receipts.
    pub fn on_receipts(self, rl: ReceiptsLookup) -> (m: Self)
        requires
            self.state is AwaitReceipts,
        ensures
            m.key == self.key,
            m.full == self.full,
            m.inv(),
            self.state matches RenderState::AwaitReceipts { block, header } ==> match rl {
                ReceiptsLookup::Fault => done_fault(m.state),
                ReceiptsLookup::Found(rs) => if !self.full {
                    if spec_total_gas(rs@) <= u64::MAX {
                        summary_done(m.state, header, block.header_signature@, rs@)
                    } else {
                        done_fault(m.state)
                    }
                } else {
                    if rs@.len() == 0 {
                        full_done(m.state, header, block.header_signature@, rs@, Seq::<T>::empty())
                    } else {
                        m.state matches RenderState::AwaitTxn {
                            signature,
                            header: h2,
                            receipts,
                            next,
                            objs,
                            gas,
                        } && signature@ == block.header_signature@ && h2 == header && receipts@
                            == rs@ && next == 0usize && objs@.len() == 0 && gas == 0u64
                    }
                },
            },
    {
        let BlockRender { key, full, state } = self;
        match state {
            RenderState::AwaitReceipts { block, header } => match rl {
                ReceiptsLookup::Fault => BlockRender {
                    key,
                    full,
                    state: RenderState::Done { outcome: RenderOutcome::InternalFault },
                },
                ReceiptsLookup::Found(rs) => {
                    if !full {
                        match sum_gas(&rs) {
                            Some(g) => {
                                let ids = summary_ids(&rs);
                                let v = build_block_view(
                                    &header,
                                    block.header_signature.as_str(),
                                    TxnList::Ids(ids),
                                    g,
                                );
                                BlockRender {
                                    key,
                                    full,
                                    state: RenderState::Done { outcome: RenderOutcome::Block(v) },
                                }
                            },
                            None => BlockRender {
                                key,
                                full,
                                state: RenderState::Done {
                                    outcome: RenderOutcome::InternalFault,
                                },
                            },
                        }
                    } else {
                        if rs.len() == 0 {
                            let v = build_block_view(
                                &header,
                                block.header_signature.as_str(),
                                TxnList::Full(Vec::new()),
                                0,
                            );
                            BlockRender {
                                key,
                                full,
                                state: RenderState::Done { outcome: RenderOutcome::Block(v) },
                            }
                        } else {
                            BlockRender {
                                key,
                                full,
                                state: RenderState::AwaitTxn {
                                    signature: block.header_signature,
                                    header,
                                    receipts: rs,
                                    next: 0,
                                    objs: Vec::new(),
                                    gas: 0,
                                },
                            }
                        }
                    }
                },
            },
            _ => unreached(),
        }
    }

    /// Takes the outcome of one follow-up transaction lookup. A lookup
    /// failure aborts the whole operation with the internal fault — the
    /// partially collected list is discarded, never returned. A found
    /// object is appended in block order; after the last receipt the
    /// session finishes with the assembled view, whose gas total is the
    /// exact sum over all receipts.
    pub fn on_txn(self, tl: TxnLookup<T>) -> (m: Self)
        requires
            self.state is AwaitTxn,
            self.inv(),
        ensures
            m.key == self.key,
            m.full == self.full,
            m.inv(),
            self.state matches RenderState::AwaitTxn {
                signature,
                header,
                receipts,
                next,
                objs,
                gas,
            } ==> match tl {
                TxnLookup::Fault => done_fault(m.state),
                TxnLookup::Found(obj) => {
                    let g2 = gas + receipts@[next as int].gas_used;
                    if g2 > u64::MAX {
                        done_fault(m.state)
                    } else if next as int + 1 == receipts@.len() {
                        full_done(m.state, header, signature@, receipts@, objs@.push(obj))
                    } else {
                        m.state matches RenderState::AwaitTxn {
                            signature: s2,
                            header: h2,
                            receipts: r2,
                            next: n2,
                            objs: o2,
                            gas: gg,
                        } && s2@ == signature@ && h2 == header && r2@ == receipts@ && n2 as int
                            == next as int + 1 && o2@ == objs@.push(obj) && gg == g2
                    }
                },
            },
    {
        let BlockRender { key, full, state } = self;
        match state {
            RenderState::AwaitTxn { signature, header, receipts, next, mut objs, gas } => match tl {
                TxnLookup::Fault => BlockRender {
                    key,
                    full,
                    state: RenderState::Done { outcome: RenderOutcome::InternalFault },
                },
                TxnLookup::Found(obj) => {
                    proof {
                        lemma_total_gas_take_step(receipts@, next as int);
                    }
                    match gas.checked_add(receipts[next].gas_used) {
                        None => BlockRender {
                            key,
                            full,
                            state: RenderState::Done { outcome: RenderOutcome::InternalFault },
                        },
                        Some(g2) => {
                            objs.push(obj);
                            let len = receipts.len();
                            let next2 = next + 1;
                            if next2 == len {
                                proof {
                                    assert(receipts@.take(receipts@.len() as int) =~= receipts@);
                                }
                                let v = build_block_view(
                                    &header,
                                    signature.as_str(),
                                    TxnList::Full(objs),
                                    g2,
                                );
                                BlockRender {
                                    key,
                                    full,
                                    state: RenderState::Done { outcome: RenderOutcome::Block(v) },
                                }
                            } else {
                                BlockRender {
                                    key,
                                    full,
                                    state: RenderState::AwaitTxn {
                                        signature,
                                        header,
                                        receipts,
                                        next: next2,
                                        objs,
                                        gas: g2,
                                    },
                                }
                            }
                        },
                    }
                },
            },
            _ => unreached(),
        }
    }

    /// Hands the outcome out once the session is done.
    pub fn finish(self) -> (r: Option<RenderOutcome<T>>)
        ensures
            self.state matches RenderState::Done { outcome } ==> r == Some(outcome),
            !(self.state is Done) ==> r is None,
    {
        match self.state {
            RenderState::Done { outcome } => Some(outcome),
            _ => None,
        }
    }
}

/// Summary and full rendering list transactions in the same order:
/// position `i` of either finished transaction list corresponds to receipt
/// `i`, so the full objects appear exactly in the order in which summary
/// mode lists the identifiers.
pub proof fn lemma_modes_agree_on_order<T>(
    s1: RenderState<T>,
    s2: RenderState<T>,
    h: BlockHeader,
    sig: Seq<char>,
    rs: Seq<Receipt>,
    objs: Seq<T>,
)
    requires
        summary_done(s1, h, sig, rs),
        full_done(s2, h, sig, rs, objs),
        objs.len() == rs.len(),
    ensures
        s1 matches RenderState::Done { outcome: RenderOutcome::Block(v1) }
            && (v1.transactions matches TxnList::Ids(ids)
            && (s2 matches RenderState::Done { outcome: RenderOutcome::Block(v2) }
            && (v2.transactions matches TxnList::Full(os)
            && ids@.len() == os@.len()
            && (forall|i: int| 0 <= i < rs.len() ==> ids@[i]@ == seq!['0', 'x']
                + rs[i].transaction_id@ && os@[i] == objs[i])))),
{
}

} // verus!

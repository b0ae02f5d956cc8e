//! Transaction counting: resolves a block and returns the total number of
//! transactions across all its batches, without touching receipts.

use vstd::prelude::*;

use crate::types::{Batch, BlockLookup};

verus! {

/// The total number of transactions across a sequence of batches.
pub open spec fn spec_txn_count(bs: Seq<Batch>) -> int
    decreases bs.len(),
{
    if bs.len() == 0 {
        0
    } else {
        spec_txn_count(bs.drop_last()) + bs.last().transaction_ids@.len()
    }
}

/// Outcome of a transaction-count query: the count, a successful `Null`
/// for a block that does not exist, or an internal fault.
pub enum CountOutcome {
    Count(u64),
    Null,
    InternalFault,
}

/// Sums the batches' transaction counts; `None` exactly when the total
/// does not fit in a `u64`.
fn txn_count_total(bs: &Vec<Batch>) -> (r: Option<u64>)
    ensures
        match r {
            Some(t) => t == spec_txn_count(bs@),
            None => spec_txn_count(bs@) > u64::MAX,
        },
{
    let mut total: u64 = 0;
    let mut i: usize = 0;
    let mut overflow = false;
    while i < bs.len() && !overflow
        invariant
            i <= bs@.len(),
            !overflow ==> total == spec_txn_count(bs@.take(i as int)),
            overflow ==> spec_txn_count(bs@) > u64::MAX,
        decreases bs@.len() - i,
    {
        proof {
            lemma_txn_count_take_step(bs@, i as int);
        }
        let n = bs[i].transaction_ids.len();
        match total.checked_add(n as u64) {
            Some(t) => {
                total = t;
            },
            None => {
                proof {
                    lemma_txn_count_mono(bs@, i + 1);
                }
                overflow = true;
            },
        }
        i = i + 1;
    }
    if overflow {
        None
    } else {
        proof {
            assert(bs@.take(bs@.len() as int) =~= bs@);
        }
        Some(total)
    }
}

proof fn lemma_txn_count_take_step(bs: Seq<Batch>, i: int)
    requires
        0 <= i < bs.len(),
    ensures
        spec_txn_count(bs.take(i + 1)) == spec_txn_count(bs.take(i)) + bs[i].transaction_ids@.len(),
{
    assert(bs.take(i + 1).drop_last() =~= bs.take(i));
    assert(bs.take(i + 1).last() == bs[i]);
}

/// Returns the total transaction count of the looked-up block; a block
/// that does not exist is the successful `Null` outcome, a backend fault
/// an internal fault. A count beyond `u64::MAX` is treated as an internal
/// fault, as is anything else unexpected from the backend.
pub fn count_transactions(lk: BlockLookup) -> (r: CountOutcome)
    ensures
        lk is NotFound ==> r is Null,
        lk is Fault ==> r is InternalFault,
        lk matches BlockLookup::Found(b) ==> if spec_txn_count(b.batches@) <= u64::MAX {
            r == CountOutcome::Count(spec_txn_count(b.batches@) as u64)
        } else {
            r is InternalFault
        },
{
    match lk {
        BlockLookup::NotFound => CountOutcome::Null,
        BlockLookup::Fault => CountOutcome::InternalFault,
        BlockLookup::Found(b) => match txn_count_total(&b.batches) {
            Some(total) => CountOutcome::Count(total),
            None => CountOutcome::InternalFault,
        },
    }
}

/// A prefix of the batches never counts more transactions than the whole.
proof fn lemma_txn_count_mono(bs: Seq<Batch>, i: int)
    requires
        0 <= i <= bs.len(),
    ensures
        spec_txn_count(bs.take(i)) <= spec_txn_count(bs),
    decreases bs.len() - i,
{
    if i == bs.len() {
        assert(bs.take(i) =~= bs);
    } else {
        lemma_txn_count_take_step(bs, i);
        lemma_txn_count_mono(bs, i + 1);
    }
}

} // verus!

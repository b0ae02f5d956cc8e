use block_rpc::count::{count_transactions, CountOutcome};
use block_rpc::entry::count_response;
use block_rpc::render::{BlockRender, RenderAction, RenderOutcome, TxnList};
use block_rpc::types::{
    Batch, BlockHeader, BlockKey, BlockLookup, HeaderDecode, NativeBlock, Receipt, ReceiptsLookup,
    TxnLookup,
};

fn header(block_num: u64) -> BlockHeader {
    BlockHeader {
        block_num,
        previous_block_id: "aa11".to_string(),
        state_root_hash: "bb22".to_string(),
    }
}

fn block_with_batches(batches: Vec<Vec<&str>>) -> NativeBlock {
    NativeBlock {
        header: vec![1, 2, 3],
        header_signature: "f00d".to_string(),
        batches: batches
            .into_iter()
            .map(|ids| Batch {
                transaction_ids: ids.into_iter().map(|s| s.to_string()).collect(),
            })
            .collect(),
    }
}

fn receipt(id: &str, gas: u64) -> Receipt {
    Receipt { transaction_id: id.to_string(), gas_used: gas }
}

#[test]
fn missing_block_yields_null_for_every_key_form() {
    let keys = [
        BlockKey::Signature("f00d".to_string()),
        BlockKey::Number(5),
        BlockKey::Latest,
    ];
    for key in keys {
        let m = BlockRender::<String>::new(key, false);
        let m = m.on_block(BlockLookup::NotFound);
        match m.finish() {
            Some(RenderOutcome::Null) => {},
            _ => panic!("expected the successful null result"),
        }
    }
}

#[test]
fn block_lookup_fault_is_internal() {
    let m = BlockRender::<String>::new(BlockKey::Latest, false);
    let m = m.on_block(BlockLookup::Fault);
    match m.finish() {
        Some(RenderOutcome::InternalFault) => {},
        _ => panic!("expected an internal fault"),
    }
}

#[test]
fn undecodable_header_is_internal() {
    let m = BlockRender::<String>::new(BlockKey::Number(5), false);
    let m = m.on_block(BlockLookup::Found(block_with_batches(vec![])));
    let m = m.on_header(HeaderDecode::Undecodable);
    match m.finish() {
        Some(RenderOutcome::InternalFault) => {},
        _ => panic!("expected an internal fault"),
    }
}

#[test]
fn receipts_fault_is_internal() {
    let m = BlockRender::<String>::new(BlockKey::Number(5), false);
    let m = m.on_block(BlockLookup::Found(block_with_batches(vec![])));
    let m = m.on_header(HeaderDecode::Decoded(header(5)));
    let m = m.on_receipts(ReceiptsLookup::Fault);
    match m.finish() {
        Some(RenderOutcome::InternalFault) => {},
        _ => panic!("expected an internal fault"),
    }
}

#[test]
fn summary_render_lists_ids_in_block_order() {
    let m = BlockRender::<String>::new(BlockKey::Number(5), false);
    let m = m.on_block(BlockLookup::Found(block_with_batches(vec![vec!["t1", "t2"]])));
    let m = m.on_header(HeaderDecode::Decoded(header(5)));
    let m = m.on_receipts(ReceiptsLookup::Found(vec![
        receipt("t1", 21000),
        receipt("t2", 50000),
    ]));
    let v = match m.finish() {
        Some(RenderOutcome::Block(v)) => v,
        _ => panic!("expected a rendered block"),
    };
    assert_eq!(v.number, "0x5");
    assert_eq!(v.hash, "0xf00d");
    assert_eq!(v.parent_hash, "0xaa11");
    assert_eq!(v.state_root, "0xbb22");
    assert_eq!(v.gas_used, "0x11558");
    match v.transactions {
        TxnList::Ids(ids) => assert_eq!(ids, vec!["0xt1", "0xt2"]),
        _ => panic!("expected bare identifiers in summary mode"),
    }
    assert_eq!(v.nonce, format!("0x{}", "0".repeat(16)));
    assert_eq!(v.sha3_uncles, format!("0x{}", "0".repeat(64)));
    assert_eq!(v.logs_bloom, format!("0x{}", "0".repeat(512)));
    assert_eq!(v.transactions_root, format!("0x{}", "0".repeat(64)));
    assert_eq!(v.receipts_root, format!("0x{}", "0".repeat(64)));
    assert_eq!(v.miner, format!("0x{}", "0".repeat(40)));
    assert_eq!(v.difficulty, "0x0");
    assert_eq!(v.total_difficulty, "0x0");
    assert_eq!(v.extra_data, "0x0");
    assert_eq!(v.size, "0x0");
    assert_eq!(v.gas_limit, "0x0");
    assert!(v.uncles.is_empty());
}

#[test]
fn full_render_keeps_summary_order() {
    let receipts = || vec![receipt("t1", 21000), receipt("t2", 50000)];

    let m = BlockRender::<String>::new(BlockKey::Number(5), false);
    let m = m.on_block(BlockLookup::Found(block_with_batches(vec![vec!["t1", "t2"]])));
    let m = m.on_header(HeaderDecode::Decoded(header(5)));
    let m = m.on_receipts(ReceiptsLookup::Found(receipts()));
    let ids = match m.finish() {
        Some(RenderOutcome::Block(v)) => match v.transactions {
            TxnList::Ids(ids) => ids,
            _ => panic!("expected identifiers"),
        },
        _ => panic!("expected a rendered block"),
    };

    let m = BlockRender::<String>::new(BlockKey::Number(5), true);
    let m = m.on_block(BlockLookup::Found(block_with_batches(vec![vec!["t1", "t2"]])));
    let m = m.on_header(HeaderDecode::Decoded(header(5)));
    let m = m.on_receipts(ReceiptsLookup::Found(receipts()));
    let m = m.on_txn(TxnLookup::Found("object for t1".to_string()));
    let m = m.on_txn(TxnLookup::Found("object for t2".to_string()));
    let v = match m.finish() {
        Some(RenderOutcome::Block(v)) => v,
        _ => panic!("expected a rendered block"),
    };
    assert_eq!(v.gas_used, "0x11558");
    match v.transactions {
        TxnList::Full(objs) => {
            assert_eq!(objs.len(), ids.len());
            assert_eq!(objs, vec!["object for t1", "object for t2"]);
            assert_eq!(ids, vec!["0xt1", "0xt2"]);
        },
        _ => panic!("expected full objects in full mode"),
    }
}

#[test]
fn full_render_with_no_receipts() {
    let m = BlockRender::<String>::new(BlockKey::Number(5), true);
    let m = m.on_block(BlockLookup::Found(block_with_batches(vec![])));
    let m = m.on_header(HeaderDecode::Decoded(header(5)));
    let m = m.on_receipts(ReceiptsLookup::Found(vec![]));
    let v = match m.finish() {
        Some(RenderOutcome::Block(v)) => v,
        _ => panic!("expected a rendered block"),
    };
    assert_eq!(v.gas_used, "0x0");
    match v.transactions {
        TxnList::Full(objs) => assert!(objs.is_empty()),
        _ => panic!("expected an empty full list"),
    }
}

#[test]
fn follow_up_failure_aborts_whole_render() {
    let m = BlockRender::<String>::new(BlockKey::Number(5), true);
    let m = m.on_block(BlockLookup::Found(block_with_batches(vec![vec!["t1", "t2"]])));
    let m = m.on_header(HeaderDecode::Decoded(header(5)));
    let m = m.on_receipts(ReceiptsLookup::Found(vec![
        receipt("t1", 21000),
        receipt("t2", 50000),
    ]));
    let m = m.on_txn(TxnLookup::Found("object for t1".to_string()));
    let m = m.on_txn(TxnLookup::Fault);
    match m.finish() {
        Some(RenderOutcome::InternalFault) => {},
        _ => panic!("a follow-up failure must yield the internal fault, never a partial block"),
    }
}

#[test]
fn gas_sum_overflow_is_internal_in_summary_mode() {
    let m = BlockRender::<String>::new(BlockKey::Number(5), false);
    let m = m.on_block(BlockLookup::Found(block_with_batches(vec![vec!["t1", "t2"]])));
    let m = m.on_header(HeaderDecode::Decoded(header(5)));
    let m = m.on_receipts(ReceiptsLookup::Found(vec![
        receipt("t1", u64::MAX),
        receipt("t2", 1),
    ]));
    match m.finish() {
        Some(RenderOutcome::InternalFault) => {},
        _ => panic!("expected an internal fault on gas overflow"),
    }
}

#[test]
fn gas_sum_overflow_is_internal_in_full_mode() {
    let m = BlockRender::<String>::new(BlockKey::Number(5), true);
    let m = m.on_block(BlockLookup::Found(block_with_batches(vec![vec!["t1", "t2"]])));
    let m = m.on_header(HeaderDecode::Decoded(header(5)));
    let m = m.on_receipts(ReceiptsLookup::Found(vec![
        receipt("t1", u64::MAX),
        receipt("t2", 1),
    ]));
    let m = m.on_txn(TxnLookup::Found("object for t1".to_string()));
    let m = m.on_txn(TxnLookup::Found("object for t2".to_string()));
    match m.finish() {
        Some(RenderOutcome::InternalFault) => {},
        _ => panic!("expected an internal fault on gas overflow"),
    }
}

#[test]
fn session_asks_for_round_trips_in_protocol_order() {
    let mut m = BlockRender::<String>::new(BlockKey::Number(5), true);
    match m.action() {
        RenderAction::FetchBlock(BlockKey::Number(5)) => {},
        _ => panic!("expected the block lookup first"),
    }
    m = m.on_block(BlockLookup::Found(block_with_batches(vec![vec!["t1", "t2"]])));
    match m.action() {
        RenderAction::DecodeHeader(bytes) => assert_eq!(bytes, &vec![1, 2, 3]),
        _ => panic!("expected the header decode next"),
    }
    m = m.on_header(HeaderDecode::Decoded(header(5)));
    match m.action() {
        RenderAction::FetchReceipts(b) => assert_eq!(b.header_signature, "f00d"),
        _ => panic!("expected the receipt retrieval next"),
    }
    m = m.on_receipts(ReceiptsLookup::Found(vec![
        receipt("t1", 21000),
        receipt("t2", 50000),
    ]));
    match m.action() {
        RenderAction::FetchTxn(id) => assert_eq!(id, "t1"),
        _ => panic!("expected the first follow-up lookup"),
    }
    m = m.on_txn(TxnLookup::Found("object for t1".to_string()));
    match m.action() {
        RenderAction::FetchTxn(id) => assert_eq!(id, "t2"),
        _ => panic!("expected the second follow-up lookup"),
    }
    m = m.on_txn(TxnLookup::Found("object for t2".to_string()));
    match m.action() {
        RenderAction::Finished(RenderOutcome::Block(_)) => {},
        _ => panic!("expected the finished session"),
    }
}

#[test]
fn count_sums_across_batches() {
    let block = block_with_batches(vec![vec!["t1", "t2"], vec!["t3"]]);
    match count_transactions(BlockLookup::Found(block)) {
        CountOutcome::Count(3) => {},
        _ => panic!("expected a count of three"),
    }
    let block = block_with_batches(vec![vec!["t1", "t2"], vec!["t3"]]);
    match count_response(count_transactions(BlockLookup::Found(block))) {
        Ok(Some(s)) => assert_eq!(s, "0x3"),
        _ => panic!("expected the encoded count"),
    }
}

#[test]
fn count_of_empty_block_is_zero() {
    match count_transactions(BlockLookup::Found(block_with_batches(vec![]))) {
        CountOutcome::Count(0) => {},
        _ => panic!("expected a count of zero"),
    }
}

#[test]
fn count_of_missing_block_is_null() {
    match count_transactions(BlockLookup::NotFound) {
        CountOutcome::Null => {},
        _ => panic!("expected the successful null result"),
    }
}

#[test]
fn count_lookup_fault_is_internal() {
    match count_transactions(BlockLookup::Fault) {
        CountOutcome::InternalFault => {},
        _ => panic!("expected an internal fault"),
    }
}

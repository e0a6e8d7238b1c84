use nostr_mempool_alerts::ingest::{
    classify_fee_status, explorer_base, next_backoff, next_phase, ping_payload,
    transactions_from_body, transactions_from_list, websocket_address, FeeFetch, IngestorEvent,
    IngestorPhase, INIT_FRAME, WANT_BLOCKS_FRAME,
};
use nostr_mempool_alerts::mempool::{
    create_new_block, Block, MempoolData, MempoolNetworkWS, MempoolRaw, RecommendedFees,
    Transaction, BlockTip,
};
use nostr_mempool_alerts::ratio::Ratio;

fn fees() -> RecommendedFees {
    let r = |n| Ratio { num: n, den: 1 };
    RecommendedFees {
        fastest_fee: r(5),
        half_hour_fee: r(4),
        hour_fee: r(3),
        economy_fee: r(2),
        minimum_fee: r(1),
    }
}

fn block(id: &str, height: i64) -> Block {
    Block { id: id.to_string(), height, pool: None }
}

fn raw(blocks: Option<Vec<Block>>, single: Option<Block>, txs: Option<Vec<&str>>) -> MempoolRaw {
    MempoolRaw {
        blocks,
        block: single,
        transactions: txs.map(|ts| ts.into_iter().map(|t| Transaction { txid: t.to_string() }).collect()),
        fees: fees(),
        conversions: None,
        backend_info: None,
        loading_indicators: None,
    }
}

#[test]
fn newest_block_is_last_of_blocks() {
    let r = raw(Some(vec![block("a", 1), block("b", 2)]), Some(block("c", 9)), Some(vec!["t1", "t2"]));
    let e = create_new_block(&r).unwrap();
    assert_eq!(e.block.height, 2);
    assert_eq!(e.block.hash, "b");
    let ids: Vec<String> = e.transactions.unwrap().into_iter().map(|t| t.tx_id).collect();
    assert_eq!(ids, vec!["t1".to_string(), "t2".to_string()]);
    assert_eq!(e.fees, Some(fees()));
}

#[test]
fn singleton_block_when_no_list() {
    let e = create_new_block(&raw(None, Some(block("c", 9)), None)).unwrap();
    assert_eq!(e.block.height, 9);
    assert!(e.transactions.is_none());
    let e = create_new_block(&raw(Some(vec![]), Some(block("d", 10)), None)).unwrap();
    assert_eq!(e.block.hash, "d");
}

#[test]
fn frame_without_block_gives_nothing() {
    assert!(create_new_block(&raw(None, None, None)).is_none());
    assert!(create_new_block(&raw(None, Some(block("x", -1)), None)).is_none());
}

#[test]
fn listener_drops_old_and_repeated_heights() {
    let mut ws = MempoolNetworkWS::new();
    assert!(ws.on_frame(&raw(None, Some(block("a", 5)), None)).is_some());
    assert!(ws.on_frame(&raw(None, Some(block("a", 5)), None)).is_none());
    assert!(ws.on_frame(&raw(None, Some(block("z", 4)), None)).is_none());
    assert!(ws.on_frame(&raw(None, Some(block("b", 7)), None)).is_some());
    assert_eq!(ws.last_height, Some(7));
    let e = MempoolData { block: BlockTip { height: 7, hash: "b".to_string() }, transactions: None, fees: None };
    assert!(!ws.accept(&e));
}

#[test]
fn websocket_addresses() {
    assert_eq!(websocket_address("mempool.space", "mainnet"), "wss://mempool.space/api/v1/ws");
    assert_eq!(
        websocket_address("mempool.space", "testnet"),
        "wss://mempool.space/testnet/api/v1/ws"
    );
    assert_eq!(explorer_base("mempool.space"), "https://mempool.space");
}

#[test]
fn backoff_doubles_up_to_cap() {
    assert_eq!(next_backoff(0), 1);
    assert_eq!(next_backoff(1), 2);
    assert_eq!(next_backoff(16), 32);
    assert_eq!(next_backoff(30), 60);
    assert_eq!(next_backoff(60), 60);
    assert_eq!(next_backoff(u64::MAX), 60);
}

#[test]
fn ping_is_fixed_zero_payload() {
    let p = ping_payload();
    assert_eq!(p.len(), 124);
    assert!(p.iter().all(|b| *b == 0));
}

#[test]
fn control_frames() {
    assert_eq!(INIT_FRAME, "{\"action\":\"init\"}");
    assert_eq!(WANT_BLOCKS_FRAME, "{\"action\":\"want\",\"data\":[\"blocks\"]}");
}

#[test]
fn fee_status_classes() {
    assert_eq!(classify_fee_status(200), FeeFetch::Found);
    assert_eq!(classify_fee_status(404), FeeFetch::Unknown);
    assert_eq!(classify_fee_status(500), FeeFetch::Transient);
    assert_eq!(classify_fee_status(301), FeeFetch::Transient);
}

#[test]
fn phases_end_on_terminate() {
    assert_eq!(next_phase(IngestorPhase::Bootstrapping, IngestorEvent::Bootstrapped), IngestorPhase::Connecting);
    assert_eq!(next_phase(IngestorPhase::Connecting, IngestorEvent::Connected), IngestorPhase::Streaming);
    assert_eq!(next_phase(IngestorPhase::Streaming, IngestorEvent::StreamClosed), IngestorPhase::Reconnecting);
    assert_eq!(next_phase(IngestorPhase::Reconnecting, IngestorEvent::BackoffElapsed), IngestorPhase::Connecting);
    assert_eq!(next_phase(IngestorPhase::Connecting, IngestorEvent::ConnectFailed), IngestorPhase::Reconnecting);
    for p in [IngestorPhase::Bootstrapping, IngestorPhase::Connecting, IngestorPhase::Streaming, IngestorPhase::Reconnecting, IngestorPhase::Terminated] {
        assert_eq!(next_phase(p, IngestorEvent::Terminate), IngestorPhase::Terminated);
    }
    assert_eq!(next_phase(IngestorPhase::Terminated, IngestorEvent::Connected), IngestorPhase::Terminated);
}

#[test]
fn txids_body_decodes() {
    let ids = transactions_from_body("[\"aa\",\"bb\"]").unwrap();
    let ids: Vec<String> = ids.into_iter().map(|t| t.tx_id).collect();
    assert_eq!(ids, vec!["aa".to_string(), "bb".to_string()]);
    assert!(transactions_from_body("not json").is_none());
    assert!(transactions_from_body("[1,2]").is_none());
    let l = transactions_from_list(vec!["x".to_string()]);
    assert_eq!(l[0].tx_id, "x");
}

use nostr_mempool_alerts::alert::{
    handle_alert, Alert, AlertKind, AlertKindHandler, AlertRow, AlertUpdate, RequestedAlert,
    ValidationError,
};
use nostr_mempool_alerts::mempool::{BlockTip, MempoolData, RecommendedFees, TransactionID};
use nostr_mempool_alerts::ratio::Ratio;
use nostr_mempool_alerts::store::AlertStore;

fn fees_with_half_hour(half_hour: Ratio) -> RecommendedFees {
    let one = Ratio { num: 1, den: 1 };
    RecommendedFees {
        fastest_fee: one,
        half_hour_fee: half_hour,
        hour_fee: one,
        economy_fee: one,
        minimum_fee: one,
    }
}

fn event(height: u64, hash: &str, txs: Option<Vec<&str>>, fees: Option<RecommendedFees>) -> MempoolData {
    MempoolData {
        block: BlockTip { height, hash: hash.to_string() },
        transactions: txs.map(|ts| {
            ts.into_iter()
                .map(|t| TransactionID { tx_id: t.to_string() })
                .collect()
        }),
        fees,
    }
}

fn request(kind: AlertKind, pk: &str, threshold: Ratio, id: Option<&str>) -> RequestedAlert {
    RequestedAlert {
        kind,
        requestor_pk: pk.to_string(),
        threshold_num: Some(threshold),
        event_data_identifier: id.map(|s| s.to_string()),
    }
}

#[test]
fn block_height_trigger() {
    let mut store = AlertStore::new();
    let a = store
        .register(request(AlertKind::BlockHeight, "pk1", Ratio { num: 100, den: 1 }, None))
        .unwrap();
    assert_eq!(a.id, 1);
    assert!(a.active);

    let sent = store.on_block(&event(99, "a", None, None));
    assert!(sent.is_empty());
    assert!(store.alerts[0].active);

    let sent = store.on_block(&event(100, "b", None, None));
    assert_eq!(sent.len(), 1);
    assert_eq!(sent[0].client_pk, "pk1");
    assert_eq!(sent[0].id, 1);
    assert_eq!(sent[0].val, "Block height reached: 100");
    assert!(!store.alerts[0].active);
    let tip = store.alerts[0].block_state.as_ref().unwrap().block_tip.as_ref().unwrap();
    assert_eq!(tip.height, 100);
    assert_eq!(tip.hash, "b");
    assert_eq!(store.notifications.len(), 1);
}

#[test]
fn fee_level_trigger() {
    let mut store = AlertStore::new();
    store
        .register(request(AlertKind::FeeLevel, "pk2", Ratio { num: 100, den: 10 }, None))
        .unwrap();
    let sent = store.on_block(&event(1, "h1", None, Some(fees_with_half_hour(Ratio { num: 120, den: 10 }))));
    assert!(sent.is_empty());
    assert!(store.alerts[0].active);
    let sent = store.on_block(&event(2, "h2", None, Some(fees_with_half_hour(Ratio { num: 95, den: 10 }))));
    assert_eq!(sent.len(), 1);
    assert_eq!(sent[0].client_pk, "pk2");
    assert!(!store.alerts[0].active);
}

#[test]
fn fee_level_without_fees_waits() {
    let mut store = AlertStore::new();
    store
        .register(request(AlertKind::FeeLevel, "pk2", Ratio { num: 10, den: 1 }, None))
        .unwrap();
    let sent = store.on_block(&event(1, "h1", None, None));
    assert!(sent.is_empty());
    assert!(store.alerts[0].active);
}

#[test]
fn confirm_height_two_phase() {
    let mut store = AlertStore::new();
    store
        .register(request(AlertKind::ConfirmHeight, "pk3", Ratio { num: 3, den: 1 }, Some("tx1")))
        .unwrap();
    let sent = store.on_block(&event(500, "h500", Some(vec!["tx0", "tx1"]), None));
    assert!(sent.is_empty());
    assert!(store.alerts[0].active);
    let st = store.alerts[0].block_state.as_ref().unwrap();
    assert_eq!(st.transaction_found, Some(true));
    assert_eq!(st.block_tip.as_ref().unwrap().height, 500);

    let sent = store.on_block(&event(502, "h502", Some(vec!["tx9"]), None));
    assert!(sent.is_empty());
    assert!(store.alerts[0].active);

    let sent = store.on_block(&event(503, "h503", None, None));
    assert_eq!(sent.len(), 1);
    assert_eq!(sent[0].client_pk, "pk3");
    assert_eq!(sent[0].val, "Transaction confirmed: tx1");
    assert!(!store.alerts[0].active);
}

#[test]
fn confirm_height_never_seen() {
    let mut store = AlertStore::new();
    store
        .register(request(AlertKind::ConfirmHeight, "pk3", Ratio { num: 3, den: 1 }, Some("tx1")))
        .unwrap();
    let mut total = 0;
    for h in 0..10u64 {
        let sent = store.on_block(&event(600 + h, "h", Some(vec!["other"]), None));
        total += sent.len();
        assert!(store.alerts[0].active);
        assert!(store.alerts[0].block_state.is_none());
    }
    assert_eq!(total, 0);
    assert!(store.notifications.is_empty());
}

#[test]
fn fired_alert_stays_quiet() {
    let mut store = AlertStore::new();
    store
        .register(request(AlertKind::BlockHeight, "pk1", Ratio { num: 5, den: 1 }, None))
        .unwrap();
    let e = event(10, "x", None, None);
    assert_eq!(store.on_block(&e).len(), 1);
    assert_eq!(store.on_block(&e).len(), 0);
    assert_eq!(store.on_block(&event(11, "y", None, None)).len(), 0);
    assert!(!store.alerts[0].active);
    assert_eq!(store.notifications.len(), 1);
}

#[test]
fn replaying_a_block_adds_nothing() {
    let mut store = AlertStore::new();
    store
        .register(request(AlertKind::ConfirmHeight, "pk3", Ratio { num: 1, den: 1 }, Some("t")))
        .unwrap();
    store
        .register(request(AlertKind::BlockHeight, "pk1", Ratio { num: 7, den: 1 }, None))
        .unwrap();
    let e = event(7, "h7", Some(vec!["t"]), None);
    assert_eq!(store.on_block(&e).len(), 1);
    assert_eq!(store.on_block(&e).len(), 0);
    assert_eq!(store.notifications.len(), 1);
}

#[test]
fn notifications_in_ascending_id_order() {
    let mut store = AlertStore::new();
    for pk in ["a", "b", "c"] {
        store
            .register(request(AlertKind::BlockHeight, pk, Ratio { num: 3, den: 1 }, None))
            .unwrap();
    }
    let sent = store.on_block(&event(3, "h", None, None));
    let ids: Vec<i64> = sent.iter().map(|m| m.id).collect();
    assert_eq!(ids, vec![1, 2, 3]);
}

#[test]
fn independent_of_other_alerts() {
    let lone = {
        let mut s = AlertStore::new();
        s.register(request(AlertKind::BlockHeight, "pk", Ratio { num: 4, den: 1 }, None)).unwrap();
        s.on_block(&event(4, "h", None, None))
    };
    let mut crowd = AlertStore::new();
    crowd.register(request(AlertKind::BlockHeight, "x", Ratio { num: 9, den: 1 }, None)).unwrap();
    crowd.register(request(AlertKind::BlockHeight, "pk", Ratio { num: 4, den: 1 }, None)).unwrap();
    let sent = crowd.on_block(&event(4, "h", None, None));
    assert_eq!(lone.len(), 1);
    assert_eq!(sent.len(), 1);
    assert_eq!(sent[0].client_pk, lone[0].client_pk);
    assert_eq!(sent[0].val, lone[0].val);
}

#[test]
fn register_rejects_invalid_requests() {
    let mut store = AlertStore::new();
    let missing = store.register(request(AlertKind::ConfirmHeight, "pk", Ratio { num: 3, den: 1 }, None));
    assert_eq!(missing.unwrap_err(), ValidationError::MissingIdentifier);
    let unexpected = store.register(request(AlertKind::BlockHeight, "pk", Ratio { num: 3, den: 1 }, Some("t")));
    assert_eq!(unexpected.unwrap_err(), ValidationError::UnexpectedIdentifier);
    let zero_den = store.register(request(AlertKind::FeeLevel, "pk", Ratio { num: 3, den: 0 }, None));
    assert_eq!(zero_den.unwrap_err(), ValidationError::InvalidThreshold);
    let no_threshold = store.register(RequestedAlert {
        kind: AlertKind::BlockHeight,
        requestor_pk: "pk".to_string(),
        threshold_num: None,
        event_data_identifier: None,
    });
    assert_eq!(no_threshold.unwrap_err(), ValidationError::MissingThreshold);
    assert!(store.alerts.is_empty());
    assert_eq!(store.next_id, 1);
}

#[test]
fn register_rejects_when_ids_run_out() {
    let mut store = AlertStore::new();
    store.next_id = i64::MAX;
    let r = store.register(request(AlertKind::BlockHeight, "pk", Ratio { num: 3, den: 1 }, None));
    assert_eq!(r.unwrap_err(), ValidationError::IdsExhausted);
}

#[test]
fn kind_codes() {
    assert_eq!(AlertKind::ConfirmHeight.to_int(), 1001);
    assert_eq!(AlertKind::FeeLevel.to_int(), 1002);
    assert_eq!(AlertKind::BlockHeight.to_int(), 1003);
    assert_eq!(AlertKind::from_int(1002), Ok(AlertKind::FeeLevel));
    assert_eq!(AlertKind::from_int(7), Err(ValidationError::UnknownKind(7)));
}

#[test]
fn row_round_trip_evaluates_the_same() {
    let mut store = AlertStore::new();
    let a = store
        .register(request(AlertKind::ConfirmHeight, "pk3", Ratio { num: 2, den: 1 }, Some("tx1")))
        .unwrap();
    let row: AlertRow = a.to_row();
    assert_eq!(row.alert_type_id, 1001);
    let back: Alert = row.to_alert().unwrap();
    assert_eq!(back.id, a.id);
    assert_eq!(back.requestor_pk, a.requestor_pk);
    assert_eq!(back.event_data_identifier, a.event_data_identifier);
    let e = event(10, "h", Some(vec!["tx1"]), None);
    let x = handle_alert(&a, &e).unwrap();
    let y = handle_alert(&back, &e).unwrap();
    assert_eq!(x.active, y.active);
    assert_eq!(x.should_send, y.should_send);
    assert_eq!(
        x.block_state.unwrap().block_tip.unwrap().height,
        y.block_state.unwrap().block_tip.unwrap().height
    );
}

#[test]
fn row_with_unknown_kind_is_rejected() {
    let row = AlertRow {
        id: 1,
        alert_type_id: 999,
        active: true,
        requestor_pk: "pk".to_string(),
        threshold_num: None,
        event_data_identifier: None,
        block_state: None,
    };
    assert_eq!(row.to_alert().unwrap_err(), ValidationError::UnknownKind(999));
}

#[test]
fn update_carries_id_and_state() {
    let mut store = AlertStore::new();
    store.register(request(AlertKind::BlockHeight, "pk", Ratio { num: 1, den: 1 }, None)).unwrap();
    store.on_block(&event(1, "h", None, None));
    let u = AlertUpdate::from_alert(&store.alerts[0]);
    assert_eq!(u.id, 1);
    assert!(!u.active);
    assert!(u.block_state.is_some());
}

#[test]
fn ratio_comparisons() {
    let a = Ratio { num: 95, den: 10 };
    let b = Ratio { num: 10, den: 1 };
    assert!(a.le(&b));
    assert!(!b.le(&a));
    assert!(Ratio { num: 30, den: 10 }.le_int(3));
    assert!(!Ratio { num: 31, den: 10 }.le_int(3));
    assert!(Ratio { num: u64::MAX, den: 1 }.le_int(u64::MAX));
}

#[test]
fn kind_names() {
    assert_eq!(AlertKind::from_name("CONFIRM_HEIGHT"), Some(AlertKind::ConfirmHeight));
    assert_eq!(AlertKind::from_name("FEE_LEVEL"), Some(AlertKind::FeeLevel));
    assert_eq!(AlertKind::from_name("BLOCK_HEIGHT"), Some(AlertKind::BlockHeight));
    assert_eq!(AlertKind::from_name("block_height"), None);
}

#[test]
fn restore_rebuilds_the_table() {
    let mut store = AlertStore::new();
    store.register(request(AlertKind::BlockHeight, "pk1", Ratio { num: 100, den: 1 }, None)).unwrap();
    store.register(request(AlertKind::ConfirmHeight, "pk3", Ratio { num: 3, den: 1 }, Some("tx1"))).unwrap();
    let rows: Vec<AlertRow> = store.alerts.iter().map(|a| a.to_row()).collect();
    let mut back = AlertStore::restore(&rows).unwrap();
    assert_eq!(back.next_id, 3);
    assert_eq!(back.alerts.len(), 2);
    let e = event(100, "b", Some(vec!["tx1"]), None);
    let x = store.on_block(&e);
    let y = back.on_block(&e);
    assert_eq!(x.len(), y.len());
    assert_eq!(x[0].val, y[0].val);
    assert_eq!(back.alerts[1].block_state.as_ref().unwrap().transaction_found, Some(true));
}

#[test]
fn restore_rejects_bad_rows() {
    let row = |id: i64, code: i32, active: bool| AlertRow {
        id,
        alert_type_id: code,
        active,
        requestor_pk: "pk".to_string(),
        threshold_num: Some(Ratio { num: 1, den: 1 }),
        event_data_identifier: None,
        block_state: None,
    };
    assert_eq!(AlertStore::restore(&vec![row(1, 1003, true), row(2, 5, true)]).unwrap_err(), ValidationError::UnknownKind(5));
    assert_eq!(AlertStore::restore(&vec![row(2, 1003, true), row(2, 1003, true)]).unwrap_err(), ValidationError::CorruptRow);
    assert_eq!(AlertStore::restore(&vec![row(1, 1001, true)]).unwrap_err(), ValidationError::CorruptRow);
    assert_eq!(AlertStore::restore(&vec![row(1, 1003, false)]).unwrap_err(), ValidationError::CorruptRow);
    assert_eq!(AlertStore::restore(&vec![row(0, 1003, true)]).unwrap_err(), ValidationError::CorruptRow);
    assert_eq!(AlertStore::restore(&vec![]).unwrap().next_id, 1);
}

fn active_alert(kind: AlertKind, threshold: Ratio, id: Option<&str>) -> Alert {
    Alert {
        id: 1,
        kind,
        active: true,
        should_send: false,
        requestor_pk: "pk".to_string(),
        threshold_num: Some(threshold),
        event_data_identifier: id.map(|s| s.to_string()),
        block_state: None,
    }
}

#[test]
fn kind_handlers_evaluate_each_kind() {
    let e = event(50, "h50", Some(vec!["t"]), Some(fees_with_half_hour(Ratio { num: 2, den: 1 })));
    let bh = active_alert(AlertKind::BlockHeight, Ratio { num: 50, den: 1 }, None);
    let fired = AlertKind::BlockHeight.update_block_height_alert(bh, &e).unwrap();
    assert!(fired.should_send && !fired.active);
    assert_eq!(fired.block_state.unwrap().transaction_found, Some(false));

    let bh = active_alert(AlertKind::BlockHeight, Ratio { num: 51, den: 1 }, None);
    assert!(AlertKind::BlockHeight.update_block_height_alert(bh, &e).is_none());

    let fl = active_alert(AlertKind::FeeLevel, Ratio { num: 2, den: 1 }, None);
    assert!(AlertKind::FeeLevel.update_fee_level_alert(fl, &e).unwrap().should_send);
    let fl = active_alert(AlertKind::FeeLevel, Ratio { num: 19, den: 10 }, None);
    assert!(AlertKind::FeeLevel.update_fee_level_alert(fl, &e).is_none());

    let ch = active_alert(AlertKind::ConfirmHeight, Ratio { num: 1, den: 1 }, Some("t"));
    let seen = AlertKind::ConfirmHeight.update_confirm_height_alert(ch, &e).unwrap();
    assert!(seen.active && !seen.should_send && seen.transaction_found());
    assert!(!seen.confirm_height_has_reached(&BlockTip { height: 50, hash: String::new() }));
    assert!(seen.confirm_height_has_reached(&BlockTip { height: 51, hash: String::new() }));
    assert!(!seen.confirm_height_has_reached(&BlockTip { height: 49, hash: String::new() }));
}

use vstd::prelude::*;

use crate::alert::{
    alert_of_row, apply, evaluate, found, handle_alert, kind_of_code, request_error, row_of, Alert,
    AlertKind, AlertRow, RequestedAlert, ValidationError,
};
use crate::mempool::MempoolData;
use crate::nostr::{build_nostr_message, message_of, NostrAlertMessage};

verus! {

/// Whether alert `a` fires on block event `e`.
pub open spec fn fires(a: Alert, e: MempoolData) -> bool {
    evaluate(a, e) matches Some(b) && b.should_send
}

/// The alerts that fire on `e`, as they are after it, in the order of `alerts`.
pub open spec fn fired_of(alerts: Seq<Alert>, e: MempoolData) -> Seq<Alert>
    decreases alerts.len(),
{
    if alerts.len() == 0 {
        seq![]
    } else {
        let rest = fired_of(alerts.drop_last(), e);
        if fires(alerts.last(), e) {
            rest.push(apply(alerts.last(), e))
        } else {
            rest
        }
    }
}

/// Every alert after block event `e`.
pub open spec fn applied(alerts: Seq<Alert>, e: MempoolData) -> Seq<Alert> {
    alerts.map_values(|a: Alert| apply(a, e))
}

/// `ms` are the messages that announce the alerts `fs`, one each, in order.
pub open spec fn announces(ms: Seq<NostrAlertMessage>, fs: Seq<Alert>) -> bool {
    &&& ms.len() == fs.len()
    &&& forall|k: int|
        0 <= k < ms.len() ==> {
            &&& (#[trigger] ms[k]).id == fs[k].id
            &&& ms[k].client_pk == fs[k].requestor_pk
            &&& ms[k].val@ == message_of(fs[k])
        }
}

/// The invariants of a single alert: a confirmation alert watches a transaction, and an
/// alert that stopped holds the state it stopped in.
pub open spec fn alert_ok(a: Alert) -> bool {
    &&& (a.kind == AlertKind::ConfirmHeight ==> a.event_data_identifier.is_some())
    &&& (!a.active ==> a.block_state.is_some())
}

pub open spec fn ids_increasing(alerts: Seq<Alert>) -> bool {
    forall|i: int, j: int| 0 <= i < j < alerts.len() ==> alerts[i].id < alerts[j].id
}

/// The alert a stored row holds, where its kind code is known.
pub open spec fn row_alert(row: AlertRow) -> Alert {
    alert_of_row(row, kind_of_code(row.alert_type_id).unwrap())
}

/// Rows that make a valid table: known kinds, ids from one upwards in increasing order with
/// room for another, and alerts that keep their invariants.
pub open spec fn rows_valid(rows: Seq<AlertRow>) -> bool {
    &&& forall|i: int|
        0 <= i < rows.len() ==> {
            &&& kind_of_code((#[trigger] rows[i]).alert_type_id).is_some()
            &&& 1 <= rows[i].id < i64::MAX
            &&& alert_ok(row_alert(rows[i]))
        }
    &&& forall|i: int, j: int| 0 <= i < j < rows.len() ==> rows[i].id < rows[j].id
}

/// The alert engine's table of alerts and its log of notifications.
#[derive(Debug, Clone)]
pub struct AlertStore {
    pub alerts: Vec<Alert>,
    pub next_id: i64,
    pub notifications: Vec<NostrAlertMessage>,
}

impl AlertStore {
    pub open spec fn wf(self) -> bool {
        &&& self.next_id >= 1
        &&& ids_increasing(self.alerts@)
        &&& forall|i: int|
            0 <= i < self.alerts@.len() ==> 1 <= (#[trigger] self.alerts@[i]).id < self.next_id
                && alert_ok(self.alerts@[i])
    }

    pub fn new() -> (r: AlertStore)
        ensures
            r.wf(),
            r.alerts@.len() == 0,
            r.notifications@.len() == 0,
            r.next_id == 1,
    {
        AlertStore { alerts: Vec::new(), next_id: 1, notifications: Vec::new() }
    }

    /// Rebuilds the table from its stored rows, in id order; the next id follows the last.
    pub fn restore(rows: &Vec<AlertRow>) -> (r: Result<AlertStore, ValidationError>)
        ensures
            r is Ok <==> rows_valid(rows@),
            r matches Err(e) ==> (e matches ValidationError::UnknownKind(c) ==> exists|i: int|
                0 <= i < rows@.len() && (#[trigger] rows@[i]).alert_type_id == c && kind_of_code(
                c,
            ).is_none()),
            r matches Ok(s) ==> {
                &&& s.wf()
                &&& s.notifications@.len() == 0
                &&& s.alerts@.len() == rows@.len()
                &&& forall|i: int| 0 <= i < rows@.len() ==> #[trigger] s.alerts@[i] == row_alert(rows@[i])
                &&& s.next_id == if rows@.len() == 0 { 1 } else { rows@.last().id + 1 }
            },
    {
        let mut alerts: Vec<Alert> = Vec::new();
        let mut next_id: i64 = 1;
        let mut i: usize = 0;
        while i < rows.len()
            invariant
                0 <= i <= rows@.len(),
                alerts@.len() == i,
                rows_valid(rows@.subrange(0, i as int)),
                forall|k: int| 0 <= k < i ==> #[trigger] alerts@[k] == row_alert(rows@[k]),
                next_id == if i == 0 { 1 } else { rows@[i - 1].id + 1 },
            decreases rows@.len() - i,
        {
            let row = &rows[i];
            let a = match row.to_alert() {
                Ok(a) => a,
                Err(e) => {
                    return Err(e);
                },
            };
            let ok = (a.kind != AlertKind::ConfirmHeight || a.event_data_identifier.is_some()) && (
            a.active || a.block_state.is_some());
            if row.id < next_id || row.id == i64::MAX || !ok {
                proof {
                    assert(!rows_valid(rows@)) by {
                        if i > 0 {
                            assert(rows@.subrange(0, i as int)[i - 1] == rows@[i - 1]);
                        }
                    }
                }
                return Err(ValidationError::CorruptRow);
            }
            alerts.push(a);
            next_id = row.id + 1;
            i = i + 1;
            proof {
                let s = rows@.subrange(0, i as int);
                assert forall|k: int| 0 <= k < s.len() implies {
                    &&& kind_of_code((#[trigger] s[k]).alert_type_id).is_some()
                    &&& 1 <= s[k].id < i64::MAX
                    &&& alert_ok(row_alert(s[k]))
                } by {
                    if k < i - 1 {
                        assert(s[k] == rows@.subrange(0, i - 1)[k]);
                    }
                }
                assert forall|a: int, b: int| 0 <= a < b < s.len() implies s[a].id < s[b].id by {
                    assert(s[a] == rows@[a] && s[b] == rows@[b]);
                    if b < i - 1 {
                        assert(rows@.subrange(0, i - 1)[a] == rows@[a]);
                        assert(rows@.subrange(0, i - 1)[b] == rows@[b]);
                    } else if a < i - 1 {
                        assert(rows@.subrange(0, i - 1)[a] == rows@[a]);
                        if a < i - 2 {
                            assert(rows@.subrange(0, i - 1)[i - 2] == rows@[i - 2]);
                        }
                    }
                }
            }
        }
        assert(rows@.subrange(0, rows@.len() as int) =~= rows@);
        let store = AlertStore { alerts, next_id, notifications: Vec::new() };
        proof {
            assert forall|k: int| 0 <= k < store.alerts@.len() implies 1 <= (
            #[trigger] store.alerts@[k]).id < store.next_id && alert_ok(store.alerts@[k]) by {
                assert(rows@[k].id <= rows@.last().id);
            }
        }
        Ok(store)
    }

    /// Stores a new alert, active and without state, under the next id.
    pub fn register(&mut self, request: RequestedAlert) -> (r: Result<Alert, ValidationError>)
        requires
            old(self).wf(),
        ensures
            final(self).wf(),
            final(self).notifications@ == old(self).notifications@,
            r matches Err(e) ==> *final(self) == *old(self) && (request_error(request) == Some(e)
                || (request_error(request).is_none() && e == ValidationError::IdsExhausted
                && old(self).next_id == i64::MAX)),
            r is Ok <==> request_error(request).is_none() && old(self).next_id < i64::MAX,
            r matches Ok(a) ==> {
                &&& a.id == old(self).next_id
                &&& a.kind == request.kind
                &&& a.active
                &&& !a.should_send
                &&& a.requestor_pk == request.requestor_pk
                &&& a.threshold_num == request.threshold_num
                &&& a.event_data_identifier == request.event_data_identifier
                &&& a.block_state.is_none()
                &&& final(self).alerts@ == old(self).alerts@.push(a)
                &&& final(self).next_id == old(self).next_id + 1
            },
    {
        request.validate()?;
        if self.next_id == i64::MAX {
            return Err(ValidationError::IdsExhausted);
        }
        let alert = Alert {
            id: self.next_id,
            kind: request.kind,
            active: true,
            should_send: false,
            requestor_pk: request.requestor_pk,
            threshold_num: request.threshold_num,
            event_data_identifier: request.event_data_identifier,
            block_state: None,
        };
        let stored = alert.snapshot();
        self.alerts.push(stored);
        self.next_id = self.next_id + 1;
        assert forall|i: int| 0 <= i < self.alerts@.len() implies 1 <= (
        #[trigger] self.alerts@[i]).id < self.next_id && alert_ok(self.alerts@[i]) by {
            if i < self.alerts@.len() - 1 {
                assert(self.alerts@[i] == old(self).alerts@[i]);
            }
        }
        Ok(alert)
    }

    /// Evaluates every alert against a block event, in ascending id order, logs a
    /// notification for each alert that fires, and returns those notifications.
    pub fn on_block(&mut self, new_block: &MempoolData) -> (r: Vec<NostrAlertMessage>)
        requires
            old(self).wf(),
        ensures
            final(self).wf(),
            final(self).next_id == old(self).next_id,
            final(self).alerts@ == applied(old(self).alerts@, *new_block),
            announces(r@, fired_of(old(self).alerts@, *new_block)),
            final(self).notifications@ == old(self).notifications@ + r@,
    {
        let ghost before = self.alerts@;
        let mut next: Vec<Alert> = Vec::new();
        let mut sent: Vec<NostrAlertMessage> = Vec::new();
        let mut i: usize = 0;
        while i < self.alerts.len()
            invariant
                0 <= i <= self.alerts@.len(),
                self.alerts@ == before,
                old(self).wf(),
                *old(self) == *self,
                next@.len() == i,
                forall|k: int| 0 <= k < i ==> #[trigger] next@[k] == apply(before[k], *new_block),
                announces(sent@, fired_of(before.subrange(0, i as int), *new_block)),
            decreases self.alerts@.len() - i,
        {
            let u = handle_alert(&self.alerts[i], new_block);
            proof {
                let s = before.subrange(0, i + 1);
                assert(s.drop_last() =~= before.subrange(0, i as int));
                assert(s.last() == before[i as int]);
            }
            match u {
                Some(b) => {
                    if b.should_send {
                        let m = build_nostr_message(&b);
                        sent.push(m);
                    }
                    next.push(b);
                },
                None => {
                    next.push(self.alerts[i].snapshot());
                },
            }
            i = i + 1;
        }
        assert(before.subrange(0, before.len() as int) =~= before);
        proof {
            assert forall|k: int| 0 <= k < next@.len() implies 1 <= (#[trigger] next@[k]).id
                < self.next_id && alert_ok(next@[k]) by {
                lemma_apply_keeps(before[k], *new_block);
            }
            assert forall|a: int, b: int| 0 <= a < b < next@.len() implies next@[a].id
                < next@[b].id by {
                lemma_apply_keeps(before[a], *new_block);
                lemma_apply_keeps(before[b], *new_block);
            }
        }
        self.alerts = next;
        assert(self.alerts@ =~= applied(before, *new_block));
        let mut j: usize = 0;
        let ghost logged = self.notifications@;
        while j < sent.len()
            invariant
                0 <= j <= sent@.len(),
                self.notifications@ == logged + sent@.subrange(0, j as int),
                self.wf(),
                self.next_id == old(self).next_id,
                self.alerts@ == applied(before, *new_block),
                announces(sent@, fired_of(before, *new_block)),
                logged == old(self).notifications@,
            decreases sent@.len() - j,
        {
            let m = NostrAlertMessage {
                client_pk: sent[j].client_pk.clone(),
                val: sent[j].val.clone(),
                id: sent[j].id,
            };
            self.notifications.push(m);
            j = j + 1;
            assert(self.notifications@ =~= logged + sent@.subrange(0, j as int));
        }
        assert(sent@.subrange(0, sent@.len() as int) =~= sent@);
        sent
    }
}

/// Evaluation changes neither an alert's id nor breaks its invariants.
pub proof fn lemma_apply_keeps(a: Alert, e: MempoolData)
    ensures
        apply(a, e).id == a.id,
        alert_ok(a) ==> alert_ok(apply(a, e)),
{
    reveal(evaluate);
}

/// An alert's outcome on a block event depends on that alert and that event alone: placed
/// among any other alerts, at any position, it is evaluated the same.
pub proof fn lemma_independent(
    s1: Seq<Alert>,
    s2: Seq<Alert>,
    i: int,
    j: int,
    e: MempoolData,
)
    requires
        0 <= i < s1.len(),
        0 <= j < s2.len(),
        s1[i] == s2[j],
    ensures
        applied(s1, e)[i] == applied(s2, e)[j],
        fires(s1[i], e) == fires(s2[j], e),
{
}

/// An alert that is no longer active is never changed by a block event.
pub proof fn lemma_inactive_stays(a: Alert, e: MempoolData)
    requires
        !a.active,
    ensures
        evaluate(a, e).is_none(),
        apply(a, e) == a,
        !fires(a, e),
{
    reveal(evaluate);
}

/// An alert fires at most once: the firing leaves it inactive, and no later block event
/// changes it again or makes it fire.
pub proof fn lemma_fires_once(a: Alert, e: MempoolData, later: MempoolData)
    requires
        fires(a, e),
    ensures
        !apply(a, e).active,
        evaluate(apply(a, e), later).is_none(),
        !fires(apply(a, e), later),
{
    reveal(evaluate);
}

proof fn lemma_fired_sorted(alerts: Seq<Alert>, e: MempoolData)
    requires
        ids_increasing(alerts),
    ensures
        ids_increasing(fired_of(alerts, e)),
        alerts.len() > 0 ==> forall|k: int|
            0 <= k < fired_of(alerts, e).len() ==> (#[trigger] fired_of(alerts, e)[k]).id
                <= alerts.last().id,
    decreases alerts.len(),
{
    if alerts.len() > 0 {
        let init = alerts.drop_last();
        assert forall|a: int, b: int| 0 <= a < b < init.len() implies init[a].id < init[b].id by {
            assert(init[a] == alerts[a] && init[b] == alerts[b]);
        }
        lemma_fired_sorted(init, e);
        let rest = fired_of(init, e);
        let f = fired_of(alerts, e);
        let last = alerts.last();
        lemma_apply_keeps(last, e);
        if init.len() > 0 {
            assert(init.last() == alerts[alerts.len() - 2]);
            assert(init.last().id < last.id);
        }
        assert forall|k: int| 0 <= k < f.len() implies (#[trigger] f[k]).id <= last.id by {
            if k < rest.len() {
                assert(f[k] == rest[k]);
            }
        }
        assert forall|a: int, b: int| 0 <= a < b < f.len() implies f[a].id < f[b].id by {
            assert(f[a] == rest[a]);
            if b < rest.len() {
                assert(f[b] == rest[b]);
            }
        }
    }
}

proof fn lemma_fired_contains(alerts: Seq<Alert>, e: MempoolData, i: int)
    requires
        0 <= i < alerts.len(),
        fires(alerts[i], e),
    ensures
        exists|k: int|
            0 <= k < fired_of(alerts, e).len() && (#[trigger] fired_of(alerts, e)[k]).id
                == alerts[i].id,
    decreases alerts.len(),
{
    let init = alerts.drop_last();
    let rest = fired_of(init, e);
    let f = fired_of(alerts, e);
    if i < alerts.len() - 1 {
        assert(init[i] == alerts[i]);
        lemma_fired_contains(init, e, i);
        let k = choose|k: int| 0 <= k < rest.len() && (#[trigger] rest[k]).id == init[i].id;
        assert(f[k] == rest[k]);
    } else {
        lemma_apply_keeps(alerts.last(), e);
        assert(f[rest.len() as int].id == alerts[i].id);
    }
}

/// In a store, an alert that fires on a block event is announced by exactly one of the
/// notifications that the event produces.
pub proof fn lemma_one_notification(
    store: AlertStore,
    e: MempoolData,
    ms: Seq<NostrAlertMessage>,
    i: int,
)
    requires
        store.wf(),
        announces(ms, fired_of(store.alerts@, e)),
        0 <= i < store.alerts@.len(),
        fires(store.alerts@[i], e),
    ensures
        exists|k: int| 0 <= k < ms.len() && (#[trigger] ms[k]).id == store.alerts@[i].id,
        forall|k: int, l: int|
            0 <= k < ms.len() && 0 <= l < ms.len() && (#[trigger] ms[k]).id == store.alerts@[i].id
                && (#[trigger] ms[l]).id == store.alerts@[i].id ==> k == l,
{
    let alerts = store.alerts@;
    let f = fired_of(alerts, e);
    lemma_fired_sorted(alerts, e);
    lemma_fired_contains(alerts, e, i);
    let k = choose|k: int| 0 <= k < f.len() && (#[trigger] f[k]).id == alerts[i].id;
    assert(ms[k].id == f[k].id);
    assert forall|k: int, l: int|
        0 <= k < ms.len() && 0 <= l < ms.len() && (#[trigger] ms[k]).id == alerts[i].id && (
        #[trigger] ms[l]).id == alerts[i].id implies k == l by {
        assert(ms[k].id == f[k].id && ms[l].id == f[l].id);
    }
}

/// The alert after a run of block events, applied in order.
pub open spec fn run(a: Alert, es: Seq<MempoolData>) -> Alert
    decreases es.len(),
{
    if es.len() == 0 {
        a
    } else {
        apply(run(a, es.drop_last()), es.last())
    }
}

/// A confirmation alert whose transaction appears in none of a run of block events never
/// fires and stays as it was: active, waiting for the transaction.
pub proof fn lemma_unseen_transaction_never_fires(a: Alert, es: Seq<MempoolData>)
    requires
        a.kind == AlertKind::ConfirmHeight,
        a.event_data_identifier.is_some(),
        !found(a),
        forall|k: int|
            0 <= k < es.len() ==> !(#[trigger] es[k]).has_transaction(
                a.event_data_identifier.unwrap()@,
            ),
    ensures
        run(a, es) == a,
        forall|k: int| 0 <= k < es.len() ==> !fires(run(a, es.subrange(0, k)), #[trigger] es[k]),
    decreases es.len(),
{
    if es.len() > 0 {
        let init = es.drop_last();
        assert forall|k: int| 0 <= k < init.len() implies !(#[trigger] init[k]).has_transaction(
            a.event_data_identifier.unwrap()@,
        ) by {
            assert(init[k] == es[k]);
        }
        lemma_unseen_transaction_never_fires(a, init);
        reveal(evaluate);
        assert forall|k: int| 0 <= k < es.len() implies !fires(
            run(a, es.subrange(0, k)),
            #[trigger] es[k],
        ) by {
            if k < init.len() {
                assert(es.subrange(0, k) =~= init.subrange(0, k));
                assert(init[k] == es[k]);
            } else {
                assert(es.subrange(0, k) =~= init);
            }
        }
    }
}

/// A stored alert written to its row and read back is the same alert, and is evaluated
/// the same against any block event.
pub proof fn lemma_row_round_trip(a: Alert, e: MempoolData)
    requires
        !a.should_send,
    ensures
        kind_of_code(row_of(a).alert_type_id) == Some(a.kind),
        row_alert(row_of(a)) == a,
        evaluate(row_alert(row_of(a)), e) == evaluate(a, e),
{
    reveal(evaluate);
}

/// No confirmation alert asks for zero confirmations. With zero, a transaction first seen in
/// a block would already be deep enough when that same block is applied again.
pub open spec fn positive_depths(alerts: Seq<Alert>) -> bool {
    forall|i: int|
        0 <= i < alerts.len() && (#[trigger] alerts[i]).kind == AlertKind::ConfirmHeight ==> (
        alerts[i].threshold_num matches Some(t) ==> t.num > 0)
}

/// Applying the same block event a second time makes no alert fire: whatever fired the
/// first time is inactive, and a transaction first seen in this block is zero blocks deep.
pub proof fn lemma_replay_fires_nothing(alerts: Seq<Alert>, e: MempoolData)
    requires
        positive_depths(alerts),
    ensures
        fired_of(applied(alerts, e), e).len() == 0,
    decreases alerts.len(),
{
    if alerts.len() > 0 {
        let init = alerts.drop_last();
        assert forall|i: int|
            0 <= i < init.len() && (#[trigger] init[i]).kind == AlertKind::ConfirmHeight implies (
        init[i].threshold_num matches Some(t) ==> t.num > 0) by {
            assert(init[i] == alerts[i]);
        }
        lemma_replay_fires_nothing(init, e);
        assert(applied(alerts, e).drop_last() =~= applied(init, e));
        let a = alerts.last();
        assert(a == alerts[alerts.len() - 1]);
        assert(applied(alerts, e).last() == apply(a, e));
        reveal(evaluate);
        if a.kind == AlertKind::ConfirmHeight && a.threshold_num is Some {
            let t = a.threshold_num.unwrap();
            assert(t.num > 0);
            assert(!t.spec_le_int(0));
        }
    }
}

} // verus!

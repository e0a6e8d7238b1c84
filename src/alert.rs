use vstd::prelude::*;

use crate::mempool::{BlockTip, MempoolData, RecommendedFees};
use crate::ratio::Ratio;
use crate::text::same_text;

verus! {

/// The three conditions a subscriber can wait for.
#[derive(Debug, Clone, Copy, PartialEq, Eq, Structural)]
pub enum AlertKind {
    ConfirmHeight,
    FeeLevel,
    BlockHeight,
}

/// Why a request, or a stored row, does not make a valid alert.
#[derive(Debug, Clone, Copy, PartialEq, Eq, Structural)]
pub enum ValidationError {
    UnknownKind(i32),
    MissingIdentifier,
    UnexpectedIdentifier,
    MissingThreshold,
    InvalidThreshold,
    IdsExhausted,
    CorruptRow,
}

impl AlertKind {
    /// The kind's code in the `alert_type_id` column.
    pub open spec fn code(self) -> i32 {
        match self {
            AlertKind::ConfirmHeight => 1001,
            AlertKind::FeeLevel => 1002,
            AlertKind::BlockHeight => 1003,
        }
    }

    pub fn to_int(&self) -> (r: i32)
        ensures
            r == self.code(),
    {
        match self {
            AlertKind::ConfirmHeight => 1001,
            AlertKind::FeeLevel => 1002,
            AlertKind::BlockHeight => 1003,
        }
    }

    /// Decodes a stored kind code; any code but the three known ones is an error.
    pub fn from_int(id: i32) -> (r: Result<AlertKind, ValidationError>)
        ensures
            r matches Ok(k) ==> k.code() == id,
            r matches Err(e) ==> e == ValidationError::UnknownKind(id),
            r is Ok <==> (id == 1001 || id == 1002 || id == 1003),
    {
        if id == 1001 {
            Ok(AlertKind::ConfirmHeight)
        } else if id == 1002 {
            Ok(AlertKind::FeeLevel)
        } else if id == 1003 {
            Ok(AlertKind::BlockHeight)
        } else {
            Err(ValidationError::UnknownKind(id))
        }
    }
}

pub open spec fn confirm_height_name() -> Seq<char> {
    seq!['C', 'O', 'N', 'F', 'I', 'R', 'M', '_', 'H', 'E', 'I', 'G', 'H', 'T']
}

pub open spec fn fee_level_name() -> Seq<char> {
    seq!['F', 'E', 'E', '_', 'L', 'E', 'V', 'E', 'L']
}

pub open spec fn block_height_name() -> Seq<char> {
    seq!['B', 'L', 'O', 'C', 'K', '_', 'H', 'E', 'I', 'G', 'H', 'T']
}

impl AlertKind {
    /// Reads a kind from its upper-case name, such as `FEE_LEVEL`.
    pub fn from_name(val: &str) -> (r: Option<AlertKind>)
        ensures
            r == (if val@ == confirm_height_name() {
                Some(AlertKind::ConfirmHeight)
            } else if val@ == fee_level_name() {
                Some(AlertKind::FeeLevel)
            } else if val@ == block_height_name() {
                Some(AlertKind::BlockHeight)
            } else {
                None
            }),
    {
        let confirm = "CONFIRM_HEIGHT";
        let fee = "FEE_LEVEL";
        let block = "BLOCK_HEIGHT";
        proof {
            reveal_strlit("CONFIRM_HEIGHT");
            reveal_strlit("FEE_LEVEL");
            reveal_strlit("BLOCK_HEIGHT");
            assert(confirm@ =~= confirm_height_name());
            assert(fee@ =~= fee_level_name());
            assert(block@ =~= block_height_name());
        }
        if same_text(val, confirm) {
            Some(AlertKind::ConfirmHeight)
        } else if same_text(val, fee) {
            Some(AlertKind::FeeLevel)
        } else if same_text(val, block) {
            Some(AlertKind::BlockHeight)
        } else {
            None
        }
    }
}

/// What an alert saw of the chain when its condition was first met.
#[derive(Debug, Clone)]
pub struct State {
    pub fees: Option<RecommendedFees>,
    pub block_tip: Option<BlockTip>,
    pub transaction_found: Option<bool>,
}

impl State {
    pub fn snapshot(&self) -> (r: State)
        ensures
            r == *self,
    {
        State {
            fees: self.fees,
            block_tip: match &self.block_tip {
                Some(t) => Some(t.snapshot()),
                None => None,
            },
            transaction_found: self.transaction_found,
        }
    }
}

/// The state recorded from block event `e`.
pub open spec fn state_of(e: MempoolData, found: bool) -> State {
    State { fees: e.fees, block_tip: Some(e.block), transaction_found: Some(found) }
}

fn record_state(e: &MempoolData, found: bool) -> (r: State)
    ensures
        r == state_of(*e, found),
{
    State { fees: e.fees, block_tip: Some(e.block.snapshot()), transaction_found: Some(found) }
}

fn copy_text(s: &Option<String>) -> (r: Option<String>)
    ensures
        r == *s,
{
    match s {
        Some(v) => Some(v.clone()),
        None => None,
    }
}

/// A user's standing request to be told when a chain condition is met.
#[derive(Debug, Clone)]
pub struct Alert {
    pub id: i64,
    pub kind: AlertKind,
    pub active: bool,
    pub should_send: bool,
    pub requestor_pk: String,
    pub threshold_num: Option<Ratio>,
    pub event_data_identifier: Option<String>,
    pub block_state: Option<State>,
}

/// Whether the watched transaction has been seen on chain.
pub open spec fn found(a: Alert) -> bool {
    a.block_state matches Some(st) && st.transaction_found == Some(true)
}

/// The tip reached the requested height.
pub open spec fn height_reached(a: Alert, tip: BlockTip) -> bool {
    a.threshold_num matches Some(t) && t.spec_le_int(tip.height as int)
}

/// The half-hour fee rate dropped to the requested level.
pub open spec fn fee_reached(a: Alert, fees: RecommendedFees) -> bool {
    a.threshold_num matches Some(t) && fees.half_hour_fee.spec_le(t)
}

/// The tip is at least the requested number of blocks above the block the transaction was
/// first seen in.
pub open spec fn depth_reached(a: Alert, tip: BlockTip) -> bool {
    &&& a.threshold_num matches Some(t)
    &&& a.block_state matches Some(st)
    &&& st.block_tip matches Some(seen)
    &&& tip.height >= seen.height
    &&& t.spec_le_int(tip.height - seen.height)
}

pub open spec fn fired(a: Alert, e: MempoolData) -> Alert {
    Alert { should_send: true, active: false, block_state: Some(state_of(e, false)), ..a }
}

/// The outcome of evaluating alert `a` against block event `e`: the changed alert, or `None`
/// where nothing changes.
#[verifier::opaque]
pub open spec fn evaluate(a: Alert, e: MempoolData) -> Option<Alert> {
    if !a.active {
        None
    } else {
        match a.kind {
            AlertKind::BlockHeight => if height_reached(a, e.block) {
                Some(fired(a, e))
            } else {
                None
            },
            AlertKind::FeeLevel => if e.fees matches Some(f) && fee_reached(a, f) {
                Some(fired(a, e))
            } else {
                None
            },
            AlertKind::ConfirmHeight => match a.event_data_identifier {
                None => None,
                Some(id) => if !found(a) {
                    if e.has_transaction(id@) {
                        Some(Alert { should_send: false, block_state: Some(state_of(e, true)), ..a })
                    } else {
                        None
                    }
                } else if depth_reached(a, e.block) {
                    Some(Alert { should_send: true, active: false, ..a })
                } else {
                    None
                },
            },
        }
    }
}

/// The alert after block event `e`.
pub open spec fn apply(a: Alert, e: MempoolData) -> Alert {
    match evaluate(a, e) {
        Some(b) => b,
        None => a,
    }
}

/// The changed alerts of one evaluation pass, in the order of `alerts`.
pub open spec fn updates_of(alerts: Seq<Alert>, e: MempoolData) -> Seq<Alert>
    decreases alerts.len(),
{
    if alerts.len() == 0 {
        seq![]
    } else {
        let rest = updates_of(alerts.drop_last(), e);
        match evaluate(alerts.last(), e) {
            Some(b) => rest.push(b),
            None => rest,
        }
    }
}

impl Alert {
    pub fn snapshot(&self) -> (r: Alert)
        ensures
            r == *self,
    {
        Alert {
            id: self.id,
            kind: self.kind,
            active: self.active,
            should_send: self.should_send,
            requestor_pk: self.requestor_pk.clone(),
            threshold_num: self.threshold_num,
            event_data_identifier: copy_text(&self.event_data_identifier),
            block_state: match &self.block_state {
                Some(st) => Some(st.snapshot()),
                None => None,
            },
        }
    }

    pub fn transaction_found(&self) -> (r: bool)
        ensures
            r == found(*self),
    {
        match &self.block_state {
            Some(st) => match st.transaction_found {
                Some(b) => b,
                None => false,
            },
            None => false,
        }
    }

    pub fn has_reached_block_height(&self, cur_block_tip: &BlockTip) -> (r: bool)
        ensures
            r == height_reached(*self, *cur_block_tip),
    {
        match self.threshold_num {
            Some(t) => t.le_int(cur_block_tip.height),
            None => false,
        }
    }

    pub fn confirm_height_has_reached(&self, cur_block_tip: &BlockTip) -> (r: bool)
        ensures
            r == depth_reached(*self, *cur_block_tip),
    {
        match (&self.threshold_num, &self.block_state) {
            (Some(t), Some(st)) => match &st.block_tip {
                Some(seen) => {
                    if cur_block_tip.height < seen.height {
                        false
                    } else {
                        t.le_int(cur_block_tip.height - seen.height)
                    }
                },
                None => false,
            },
            _ => false,
        }
    }

    pub fn has_reached_fee_level(&self, cur_fees: &RecommendedFees) -> (r: bool)
        ensures
            r == fee_reached(*self, *cur_fees),
    {
        match &self.threshold_num {
            Some(t) => cur_fees.half_hour_fee.le(t),
            None => false,
        }
    }
}

/// The evaluation of an alert of each kind against a block event.
pub trait AlertKindHandler {
    /// A block-height alert fires once the tip reaches its height.
    fn update_block_height_alert(&self, alert: Alert, new_block: &MempoolData) -> (r: Option<
        Alert,
    >)
        requires
            alert.active,
            alert.kind == AlertKind::BlockHeight,
        ensures
            r == evaluate(alert, *new_block),
    ;

    /// A confirmation alert first records the block its transaction appears in, then fires
    /// once the tip is deep enough above that block.
    fn update_confirm_height_alert(&self, alert: Alert, new_block: &MempoolData) -> (r: Option<
        Alert,
    >)
        requires
            alert.active,
            alert.kind == AlertKind::ConfirmHeight,
        ensures
            r == evaluate(alert, *new_block),
    ;

    /// A fee-level alert fires once the half-hour fee rate is at most its level.
    fn update_fee_level_alert(&self, alert: Alert, new_block: &MempoolData) -> (r: Option<
        Alert,
    >)
        requires
            alert.active,
            alert.kind == AlertKind::FeeLevel,
        ensures
            r == evaluate(alert, *new_block),
    ;
}

impl AlertKindHandler for AlertKind {
    fn update_block_height_alert(&self, alert: Alert, new_block: &MempoolData) -> (r: Option<Alert>)
    {
        reveal(evaluate);
        if alert.has_reached_block_height(&new_block.block) {
            let mut alert = alert;
            alert.should_send = true;
            alert.active = false;
            alert.block_state = Some(record_state(new_block, false));
            Some(alert)
        } else {
            None
        }
    }

    fn update_confirm_height_alert(&self, alert: Alert, new_block: &MempoolData) -> (r: Option<Alert>)
    {
        reveal(evaluate);
        let seen = match &alert.event_data_identifier {
            None => {
                return None;
            },
            Some(id) => new_block.contains_transaction(id),
        };
        if !alert.transaction_found() {
            if seen {
                let mut alert = alert;
                alert.should_send = false;
                alert.block_state = Some(record_state(new_block, true));
                Some(alert)
            } else {
                None
            }
        } else if alert.confirm_height_has_reached(&new_block.block) {
            let mut alert = alert;
            alert.should_send = true;
            alert.active = false;
            Some(alert)
        } else {
            None
        }
    }

    fn update_fee_level_alert(&self, alert: Alert, new_block: &MempoolData) -> (r: Option<Alert>)
    {
        reveal(evaluate);
        let reached = match &new_block.fees {
            Some(f) => alert.has_reached_fee_level(f),
            None => false,
        };
        if reached {
            let mut alert = alert;
            alert.should_send = true;
            alert.active = false;
            alert.block_state = Some(record_state(new_block, false));
            Some(alert)
        } else {
            None
        }
    }
}

/// Evaluates one alert against a block event; inactive alerts never change.
pub fn handle_alert(alert: &Alert, new_block: &MempoolData) -> (r: Option<Alert>)
    ensures
        r == evaluate(*alert, *new_block),
{
    reveal(evaluate);
    if !alert.active {
        return None;
    }
    let a = alert.snapshot();
    match alert.kind {
        AlertKind::ConfirmHeight => alert.kind.update_confirm_height_alert(a, new_block),
        AlertKind::FeeLevel => alert.kind.update_fee_level_alert(a, new_block),
        AlertKind::BlockHeight => alert.kind.update_block_height_alert(a, new_block),
    }
}

/// One evaluation pass: the alerts that change under `new_block`, in order.
pub fn alerts_to_update(alerts: &Vec<Alert>, new_block: &MempoolData) -> (r: Vec<Alert>)
    ensures
        r@ == updates_of(alerts@, *new_block),
{
    let mut out: Vec<Alert> = Vec::new();
    let mut i: usize = 0;
    while i < alerts.len()
        invariant
            0 <= i <= alerts.len(),
            out@ == updates_of(alerts@.subrange(0, i as int), *new_block),
        decreases alerts.len() - i,
    {
        let u = handle_alert(&alerts[i], new_block);
        proof {
            let s = alerts@.subrange(0, i + 1);
            assert(s.drop_last() =~= alerts@.subrange(0, i as int));
            assert(s.last() == alerts@[i as int]);
        }
        match u {
            Some(b) => out.push(b),
            None => {},
        }
        i = i + 1;
    }
    assert(alerts@.subrange(0, alerts.len() as int) =~= alerts@);
    out
}

/// The part of an alert that an evaluation pass writes back.
#[derive(Debug, Clone)]
pub struct AlertUpdate {
    pub id: i64,
    pub active: bool,
    pub block_state: Option<State>,
}

impl AlertUpdate {
    pub fn from_alert(alert: &Alert) -> (r: AlertUpdate)
        ensures
            r.id == alert.id,
            r.active == alert.active,
            r.block_state == alert.block_state,
    {
        AlertUpdate {
            id: alert.id,
            active: alert.active,
            block_state: match &alert.block_state {
                Some(st) => Some(st.snapshot()),
                None => None,
            },
        }
    }
}

/// A request for a new alert, before it is stored.
#[derive(Debug, Clone)]
pub struct RequestedAlert {
    pub kind: AlertKind,
    pub requestor_pk: String,
    pub threshold_num: Option<Ratio>,
    pub event_data_identifier: Option<String>,
}

/// What is wrong with a request, if anything.
pub open spec fn request_error(req: RequestedAlert) -> Option<ValidationError> {
    match req.threshold_num {
        None => Some(ValidationError::MissingThreshold),
        Some(t) => if !t.wf() {
            Some(ValidationError::InvalidThreshold)
        } else if req.kind == AlertKind::ConfirmHeight {
            if req.event_data_identifier.is_none() {
                Some(ValidationError::MissingIdentifier)
            } else {
                None
            }
        } else if req.event_data_identifier.is_some() {
            Some(ValidationError::UnexpectedIdentifier)
        } else {
            None
        },
    }
}

impl RequestedAlert {
    pub fn validate(&self) -> (r: Result<(), ValidationError>)
        ensures
            r matches Err(e) ==> request_error(*self) == Some(e),
            r is Ok <==> request_error(*self).is_none(),
    {
        match self.threshold_num {
            None => Err(ValidationError::MissingThreshold),
            Some(t) => {
                if t.den == 0 {
                    Err(ValidationError::InvalidThreshold)
                } else {
                    match self.kind {
                        AlertKind::ConfirmHeight => {
                            if self.event_data_identifier.is_none() {
                                Err(ValidationError::MissingIdentifier)
                            } else {
                                Ok(())
                            }
                        },
                        _ => {
                            if self.event_data_identifier.is_some() {
                                Err(ValidationError::UnexpectedIdentifier)
                            } else {
                                Ok(())
                            }
                        },
                    }
                }
            },
        }
    }
}

/// An alert as a row of the `alerts` table, kind stored as its code.
#[derive(Debug, Clone)]
pub struct AlertRow {
    pub id: i64,
    pub alert_type_id: i32,
    pub active: bool,
    pub requestor_pk: String,
    pub threshold_num: Option<Ratio>,
    pub event_data_identifier: Option<String>,
    pub block_state: Option<State>,
}

pub open spec fn row_of(a: Alert) -> AlertRow {
    AlertRow {
        id: a.id,
        alert_type_id: a.kind.code(),
        active: a.active,
        requestor_pk: a.requestor_pk,
        threshold_num: a.threshold_num,
        event_data_identifier: a.event_data_identifier,
        block_state: a.block_state,
    }
}

pub open spec fn kind_of_code(code: i32) -> Option<AlertKind> {
    if code == 1001 {
        Some(AlertKind::ConfirmHeight)
    } else if code == 1002 {
        Some(AlertKind::FeeLevel)
    } else if code == 1003 {
        Some(AlertKind::BlockHeight)
    } else {
        None
    }
}

/// The alert a row holds, with nothing pending to send.
pub open spec fn alert_of_row(row: AlertRow, kind: AlertKind) -> Alert {
    Alert {
        id: row.id,
        kind,
        active: row.active,
        should_send: false,
        requestor_pk: row.requestor_pk,
        threshold_num: row.threshold_num,
        event_data_identifier: row.event_data_identifier,
        block_state: row.block_state,
    }
}

impl Alert {
    pub fn to_row(&self) -> (r: AlertRow)
        ensures
            r == row_of(*self),
    {
        AlertRow {
            id: self.id,
            alert_type_id: self.kind.to_int(),
            active: self.active,
            requestor_pk: self.requestor_pk.clone(),
            threshold_num: self.threshold_num,
            event_data_identifier: copy_text(&self.event_data_identifier),
            block_state: match &self.block_state {
                Some(st) => Some(st.snapshot()),
                None => None,
            },
        }
    }
}

impl AlertRow {
    /// Reads an alert back from its row; an unknown kind code is an error.
    pub fn to_alert(&self) -> (r: Result<Alert, ValidationError>)
        ensures
            r matches Ok(a) ==> kind_of_code(self.alert_type_id) == Some(a.kind) && a
                == alert_of_row(*self, a.kind),
            r matches Err(e) ==> e == ValidationError::UnknownKind(self.alert_type_id),
            r is Ok <==> kind_of_code(self.alert_type_id).is_some(),
    {
        let kind = AlertKind::from_int(self.alert_type_id)?;
        Ok(
            Alert {
                id: self.id,
                kind,
                active: self.active,
                should_send: false,
                requestor_pk: self.requestor_pk.clone(),
                threshold_num: self.threshold_num,
                event_data_identifier: copy_text(&self.event_data_identifier),
                block_state: match &self.block_state {
                    Some(st) => Some(st.snapshot()),
                    None => None,
                },
            },
        )
    }
}

} // verus!

use vstd::prelude::*;
use vstd::string::*;

use nostr_sdk::secp256k1::XOnlyPublicKey;

use crate::alert::{Alert, AlertKind, RequestedAlert};
use crate::ratio::Ratio;
use crate::text::{
    decimal_digits, decimal_string, has_prefix, natural_of, parse_natural, parse_ratio, ratio_of,
    same_text, starts_with,
};

verus! {

pub const INVALID_COMMAND: &'static str = "Invalid command, send /help to see all commands.";

pub const HELP_TEXT: &'static str = "Commands:\n/block_height - Be alerted a given block height has been reached. ex: `/block_height 61774`\n/fees - Be alerted when mempool fees have reached a given level for a transaction to be confirmed in a half-hour. ex: `/fees 2.0`\n/transaction - Be alerted when a transaction has reached a certain number of confirmations. ex: (be notified with this transaction has been confirmed 3 times) `/transaction 91b8def136d9b261dd23082dad6424f1d3e324107ab096eda5648b3cd269e0bc 3`\n/help - Help";

pub const BLOCK_HEIGHT_ACK: &'static str = "Alert set: you will be notified when block height ";

pub const BLOCK_HEIGHT_ACK_END: &'static str = " is reached.";

pub const FEES_ACK: &'static str =
    "Alert set: you will be notified when the half-hour fee rate drops to your level.";

pub const TRANSACTION_ACK: &'static str = "Alert set: you will be notified when your transaction has ";

pub const TRANSACTION_ACK_END: &'static str = " confirmations.";

pub const BLOCK_HEIGHT_REACHED: &'static str = "Block height reached: ";

pub const FEE_LEVEL_REACHED: &'static str = "The half-hour fee rate has dropped to your level at block ";

pub const TRANSACTION_CONFIRMED: &'static str = "Transaction confirmed: ";

pub const UNKNOWN_BLOCK: &'static str = "unknown";

/// A user's message to the bot, parsed.
#[derive(Debug, Clone)]
pub enum Command {
    BlockHeight(u64),
    Fees(Ratio),
    Transaction(String, u64),
    Help,
    Unknown,
}

/// Why a notification could not be delivered.
#[derive(Debug, Clone, Copy, PartialEq, Eq, Structural)]
pub enum NostrError {
    FailedToSend,
    FailedPubkeyValidation,
    FailedToSave,
}

/// An outbound direct message for the subscriber of alert `id`.
#[derive(Debug, Clone)]
pub struct NostrAlertMessage {
    pub client_pk: String,
    pub val: String,
    pub id: i64,
}

pub open spec fn block_height_word() -> Seq<char> {
    seq!['/', 'b', 'l', 'o', 'c', 'k', '_', 'h', 'e', 'i', 'g', 'h', 't', ' ']
}

pub open spec fn fees_word() -> Seq<char> {
    seq!['/', 'f', 'e', 'e', 's', ' ']
}

pub open spec fn transaction_word() -> Seq<char> {
    seq!['/', 't', 'r', 'a', 'n', 's', 'a', 'c', 't', 'i', 'o', 'n', ' ']
}

pub open spec fn help_word() -> Seq<char> {
    seq!['/', 'h', 'e', 'l', 'p']
}

pub open spec fn after(s: Seq<char>, p: Seq<char>) -> Seq<char> {
    s.subrange(p.len() as int, s.len() as int)
}

pub open spec fn natural_u64(s: Seq<char>) -> Option<u64> {
    match natural_of(s) {
        Some(v) => if v <= u64::MAX {
            Some(v as u64)
        } else {
            None
        },
        None => None,
    }
}

/// `rest` is `<txid> <count>` split at `p`: a txid without spaces, one space, a count.
pub open spec fn split_at_space(rest: Seq<char>, p: int) -> bool {
    &&& 0 < p < rest.len()
    &&& rest[p] == ' '
    &&& forall|k: int| 0 <= k < p ==> rest[k] != ' '
    &&& natural_u64(rest.subrange(p + 1, rest.len() as int)).is_some()
}

/// Which command a message is.
pub open spec fn command_kind(m: Seq<char>) -> int {
    if m == help_word() {
        0
    } else if starts_with(m, block_height_word()) && natural_u64(
        after(m, block_height_word()),
    ).is_some() {
        1
    } else if starts_with(m, fees_word()) && ratio_of(after(m, fees_word())).is_some() {
        2
    } else if starts_with(m, transaction_word()) && exists|p: int|
        split_at_space(after(m, transaction_word()), p) {
        3
    } else {
        4
    }
}

/// `c` is the command that message `m` writes.
pub open spec fn is_command_of(m: Seq<char>, c: Command) -> bool {
    let k = command_kind(m);
    match c {
        Command::Help => k == 0,
        Command::BlockHeight(n) => k == 1 && natural_u64(after(m, block_height_word())) == Some(
            n,
        ),
        Command::Fees(q) => k == 2 && ratio_of(after(m, fees_word())) == Some(q),
        Command::Transaction(id, n) => k == 3 && {
            let rest = after(m, transaction_word());
            let p = choose|p: int| split_at_space(rest, p);
            id@ == rest.subrange(0, p) && natural_u64(rest.subrange(p + 1, rest.len() as int))
                == Some(n)
        },
        Command::Unknown => k == 4,
    }
}

fn first_space(s: &str) -> (r: Option<usize>)
    ensures
        match r {
            Some(p) => p < s@.len() && s@[p as int] == ' ' && forall|k: int|
                0 <= k < p ==> s@[k] != ' ',
            None => forall|k: int| 0 <= k < s@.len() ==> s@[k] != ' ',
        },
{
    let n = s.unicode_len();
    let mut i: usize = 0;
    while i < n
        invariant
            0 <= i <= n,
            n == s@.len(),
            forall|k: int| 0 <= k < i ==> s@[k] != ' ',
        decreases n - i,
    {
        if s.get_char(i) == ' ' {
            return Some(i);
        }
        i = i + 1;
    }
    None
}

fn parse_transaction_args(rest: &str) -> (r: Option<(String, u64)>)
    ensures
        match r {
            Some((id, n)) => (exists|p: int| split_at_space(rest@, p)) && {
                let p = choose|p: int| split_at_space(rest@, p);
                id@ == rest@.subrange(0, p) && natural_u64(rest@.subrange(p + 1, rest@.len() as int))
                    == Some(n)
            },
            None => !exists|p: int| split_at_space(rest@, p),
        },
{
    let len = rest.unicode_len();
    match first_space(rest) {
        None => {
            proof {
                assert forall|p: int| !split_at_space(rest@, p) by {
                    if 0 <= p < rest@.len() {
                        assert(rest@[p] != ' ');
                    }
                }
            }
            None
        },
        Some(p) => {
            proof {
                assert forall|q: int| split_at_space(rest@, q) implies q == p by {
                    if q > p {
                        assert(rest@[p as int] != ' ');
                    }
                    if q < p {
                        assert(rest@[q] != ' ');
                    }
                }
            }
            if p == 0 {
                return None;
            }
            let count = parse_natural(rest.substring_char(p + 1, len));
            match count {
                None => None,
                Some(n) => {
                    let id = String::from_str(rest.substring_char(0, p));
                    assert(split_at_space(rest@, p as int));
                    Some((id, n))
                },
            }
        },
    }
}

/// Parses a direct message: `/block_height <n>`, `/fees <rate>`, `/transaction <txid> <n>`,
/// `/help`; anything else is `Unknown`.
pub fn parse_command(msg: &str) -> (r: Command)
    ensures
        is_command_of(msg@, r),
{
    let len = msg.unicode_len();
    let help = "/help";
    let bh = "/block_height ";
    let fees = "/fees ";
    let tx = "/transaction ";
    proof {
        reveal_strlit("/help");
        reveal_strlit("/block_height ");
        reveal_strlit("/fees ");
        reveal_strlit("/transaction ");
        assert(help@ =~= help_word());
        assert(bh@ =~= block_height_word());
        assert(fees@ =~= fees_word());
        assert(tx@ =~= transaction_word());
    }
    if same_text(msg, help) {
        return Command::Help;
    }
    if has_prefix(msg, bh) {
        if let Some(n) = parse_natural(msg.substring_char(14, len)) {
            return Command::BlockHeight(n);
        }
    }
    if has_prefix(msg, fees) {
        if let Some(q) = parse_ratio(msg.substring_char(6, len)) {
            return Command::Fees(q);
        }
    }
    if has_prefix(msg, tx) {
        if let Some((id, n)) = parse_transaction_args(msg.substring_char(13, len)) {
            return Command::Transaction(id, n);
        }
    }
    Command::Unknown
}

/// The reply that the bot sends for a command.
pub open spec fn reply_of(c: Command) -> Seq<char> {
    match c {
        Command::Help => HELP_TEXT@,
        Command::Unknown => INVALID_COMMAND@,
        Command::BlockHeight(n) => BLOCK_HEIGHT_ACK@ + decimal_digits(n as nat)
            + BLOCK_HEIGHT_ACK_END@,
        Command::Fees(_) => FEES_ACK@,
        Command::Transaction(_, n) => TRANSACTION_ACK@ + decimal_digits(n as nat)
            + TRANSACTION_ACK_END@,
    }
}

pub fn help() -> (r: String)
    ensures
        r@ == HELP_TEXT@,
{
    String::from_str(HELP_TEXT)
}

/// Composes the reply to a command.
pub fn reply(cmd: &Command) -> (r: String)
    ensures
        r@ == reply_of(*cmd),
{
    match cmd {
        Command::Help => help(),
        Command::Unknown => String::from_str(INVALID_COMMAND),
        Command::BlockHeight(n) => {
            let mut s = String::from_str(BLOCK_HEIGHT_ACK);
            let d = decimal_string(*n);
            s.append(d.as_str());
            s.append(BLOCK_HEIGHT_ACK_END);
            s
        },
        Command::Fees(_) => String::from_str(FEES_ACK),
        Command::Transaction(_, n) => {
            let mut s = String::from_str(TRANSACTION_ACK);
            let d = decimal_string(*n);
            s.append(d.as_str());
            s.append(TRANSACTION_ACK_END);
            s
        },
    }
}

/// The alert request that a command asks for, from `requestor`.
pub open spec fn request_of(c: Command, requestor: String, r: RequestedAlert) -> bool {
    &&& r.requestor_pk == requestor
    &&& match c {
        Command::BlockHeight(n) => r.kind == AlertKind::BlockHeight && r.threshold_num == Some(
            Ratio { num: n, den: 1 },
        ) && r.event_data_identifier.is_none(),
        Command::Fees(q) => r.kind == AlertKind::FeeLevel && r.threshold_num == Some(q)
            && r.event_data_identifier.is_none(),
        Command::Transaction(id, n) => r.kind == AlertKind::ConfirmHeight && r.threshold_num
            == Some(Ratio { num: n, den: 1 }) && r.event_data_identifier == Some(id),
        _ => false,
    }
}

/// Turns a command into the alert request it asks for; `/help` and unknown messages ask for
/// none.
pub fn request_for(cmd: &Command, requestor: String) -> (r: Option<RequestedAlert>)
    ensures
        match r {
            Some(req) => request_of(*cmd, requestor, req),
            None => cmd is Help || cmd is Unknown,
        },
{
    match cmd {
        Command::BlockHeight(n) => Some(
            RequestedAlert {
                kind: AlertKind::BlockHeight,
                requestor_pk: requestor,
                threshold_num: Some(Ratio::whole(*n)),
                event_data_identifier: None,
            },
        ),
        Command::Fees(q) => Some(
            RequestedAlert {
                kind: AlertKind::FeeLevel,
                requestor_pk: requestor,
                threshold_num: Some(*q),
                event_data_identifier: None,
            },
        ),
        Command::Transaction(id, n) => Some(
            RequestedAlert {
                kind: AlertKind::ConfirmHeight,
                requestor_pk: requestor,
                threshold_num: Some(Ratio::whole(*n)),
                event_data_identifier: Some(id.clone()),
            },
        ),
        _ => None,
    }
}

/// A subscriber's public key, as the relay client takes it.
#[verifier::external_type_specification]
#[verifier::external_body]
pub struct ExXOnlyPublicKey(XOnlyPublicKey);

/// Whether a text is a valid x-only public key.
pub uninterp spec fn is_public_key(s: Seq<char>) -> bool;

/// Relies on secp256k1's `XOnlyPublicKey::from_str`, reached through nostr-sdk: it reads 64
/// hex digits and accepts them only as a point of the curve, which depends on the text alone.
#[verifier::external_body]
fn parse_public_key(s: &str) -> (r: Option<XOnlyPublicKey>)
    ensures
        r.is_some() == is_public_key(s@),
{
    <XOnlyPublicKey as std::str::FromStr>::from_str(s).ok()
}

/// The key to encrypt a notification to: the subscriber's own public key.
pub fn recipient_key(msg: &NostrAlertMessage) -> (r: Result<XOnlyPublicKey, NostrError>)
    ensures
        r is Ok <==> is_public_key(msg.client_pk@),
        r matches Err(e) ==> e == NostrError::FailedPubkeyValidation,
{
    match parse_public_key(msg.client_pk.as_str()) {
        Some(k) => Ok(k),
        None => Err(NostrError::FailedPubkeyValidation),
    }
}

/// The block height an alert recorded, in decimal, or `unknown`.
pub open spec fn recorded_height(a: Alert) -> Seq<char> {
    match a.block_state {
        Some(st) => match st.block_tip {
            Some(t) => decimal_digits(t.height as nat),
            None => UNKNOWN_BLOCK@,
        },
        None => UNKNOWN_BLOCK@,
    }
}

/// The body of the message announcing that alert `a` fired.
pub open spec fn message_of(a: Alert) -> Seq<char> {
    match a.kind {
        AlertKind::BlockHeight => BLOCK_HEIGHT_REACHED@ + recorded_height(a),
        AlertKind::FeeLevel => FEE_LEVEL_REACHED@ + recorded_height(a),
        AlertKind::ConfirmHeight => TRANSACTION_CONFIRMED@ + match a.event_data_identifier {
            Some(id) => id@,
            None => Seq::empty(),
        },
    }
}

fn height_text(alert: &Alert) -> (r: String)
    ensures
        r@ == recorded_height(*alert),
{
    match &alert.block_state {
        Some(st) => match &st.block_tip {
            Some(t) => decimal_string(t.height),
            None => String::from_str(UNKNOWN_BLOCK),
        },
        None => String::from_str(UNKNOWN_BLOCK),
    }
}

/// Builds the direct message that tells the subscriber their alert fired.
pub fn build_nostr_message(alert: &Alert) -> (r: NostrAlertMessage)
    ensures
        r.client_pk == alert.requestor_pk,
        r.id == alert.id,
        r.val@ == message_of(*alert),
{
    let val = match alert.kind {
        AlertKind::BlockHeight => {
            let mut s = String::from_str(BLOCK_HEIGHT_REACHED);
            let h = height_text(alert);
            s.append(h.as_str());
            s
        },
        AlertKind::FeeLevel => {
            let mut s = String::from_str(FEE_LEVEL_REACHED);
            let h = height_text(alert);
            s.append(h.as_str());
            s
        },
        AlertKind::ConfirmHeight => {
            let mut s = String::from_str(TRANSACTION_CONFIRMED);
            match &alert.event_data_identifier {
                Some(id) => s.append(id.as_str()),
                None => {},
            }
            proof {
                if alert.event_data_identifier.is_none() {
                    assert(s@ =~= TRANSACTION_CONFIRMED@ + Seq::<char>::empty());
                }
            }
            s
        },
    };
    NostrAlertMessage { client_pk: alert.requestor_pk.clone(), val, id: alert.id }
}

} // verus!

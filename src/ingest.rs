use vstd::prelude::*;
use vstd::string::*;

use crate::mempool::TransactionID;
use crate::text::same_text;

verus! {

/// First control frame on the explorer's push stream.
pub const INIT_FRAME: &'static str = "{\"action\":\"init\"}";

/// Second control frame: ask for new blocks.
pub const WANT_BLOCKS_FRAME: &'static str = "{\"action\":\"want\",\"data\":[\"blocks\"]}";

/// Seconds between keepalive pings.
pub const PING_INTERVAL_SECS: u64 = 20;

/// Length of the keepalive ping payload.
pub const PING_PAYLOAD_LEN: usize = 124;

/// Longest wait between reconnection attempts, in seconds.
pub const BACKOFF_CAP_SECS: u64 = 60;

pub open spec fn mainnet_name() -> Seq<char> {
    seq!['m', 'a', 'i', 'n', 'n', 'e', 't']
}

pub open spec fn wss_scheme() -> Seq<char> {
    seq!['w', 's', 's', ':', '/', '/']
}

pub open spec fn https_scheme() -> Seq<char> {
    seq!['h', 't', 't', 'p', 's', ':', '/', '/']
}

pub open spec fn ws_path() -> Seq<char> {
    seq!['/', 'a', 'p', 'i', '/', 'v', '1', '/', 'w', 's']
}

/// `wss://{host}/api/v1/ws` on mainnet, `wss://{host}/{network}/api/v1/ws` elsewhere.
pub open spec fn websocket_address_of(host: Seq<char>, network: Seq<char>) -> Seq<char> {
    if network == mainnet_name() {
        wss_scheme() + host + ws_path()
    } else {
        wss_scheme() + host + seq!['/'] + network + ws_path()
    }
}

/// The address of the explorer's push stream for a network.
pub fn websocket_address(host: &str, network: &str) -> (r: String)
    ensures
        r@ == websocket_address_of(host@, network@),
{
    let mainnet = "mainnet";
    let wss = "wss://";
    let path = "/api/v1/ws";
    let slash = "/";
    proof {
        reveal_strlit("mainnet");
        reveal_strlit("wss://");
        reveal_strlit("/api/v1/ws");
        reveal_strlit("/");
        assert(mainnet@ =~= mainnet_name());
        assert(wss@ =~= wss_scheme());
        assert(path@ =~= ws_path());
    }
    let mut s = String::from_str(wss);
    s.append(host);
    if !same_text(network, mainnet) {
        s.append(slash);
        s.append(network);
    }
    s.append(path);
    proof {
        if network@ != mainnet_name() {
            assert(slash@ =~= seq!['/']);
        }
    }
    s
}

/// The base address of the explorer's REST endpoints.
pub fn explorer_base(host: &str) -> (r: String)
    ensures
        r@ == https_scheme() + host@,
{
    let https = "https://";
    proof {
        reveal_strlit("https://");
        assert(https@ =~= https_scheme());
    }
    let mut s = String::from_str(https);
    s.append(host);
    s
}

/// The next wait before reconnecting: it starts at one second, doubles, and stops at the cap.
pub open spec fn backoff_after(cur: u64) -> u64 {
    if cur == 0 {
        1
    } else if cur >= BACKOFF_CAP_SECS / 2 {
        BACKOFF_CAP_SECS
    } else {
        (2 * cur) as u64
    }
}

pub fn next_backoff(cur: u64) -> (r: u64)
    ensures
        r == backoff_after(cur),
        1 <= r <= BACKOFF_CAP_SECS,
{
    if cur == 0 {
        1
    } else if cur >= BACKOFF_CAP_SECS / 2 {
        BACKOFF_CAP_SECS
    } else {
        2 * cur
    }
}

/// The keepalive ping payload: zero bytes, of a fixed length.
pub fn ping_payload() -> (r: Vec<u8>)
    ensures
        r@.len() == PING_PAYLOAD_LEN,
        forall|i: int| 0 <= i < r@.len() ==> r@[i] == 0,
{
    let mut v: Vec<u8> = Vec::new();
    let mut i: usize = 0;
    while i < PING_PAYLOAD_LEN
        invariant
            0 <= i <= PING_PAYLOAD_LEN,
            v@.len() == i,
            forall|k: int| 0 <= k < i ==> v@[k] == 0,
        decreases PING_PAYLOAD_LEN - i,
    {
        v.push(0);
        i = i + 1;
    }
    v
}

/// What the recommended-fees endpoint's HTTP status means for the block event.
#[derive(Debug, Clone, Copy, PartialEq, Eq, Structural)]
pub enum FeeFetch {
    /// The body holds the fees.
    Found,
    /// The explorer does not know the fees: the event carries none.
    Unknown,
    /// Any other failure: try again.
    Transient,
}

pub open spec fn fee_fetch_of(status: u16) -> FeeFetch {
    if 200 <= status < 300 {
        FeeFetch::Found
    } else if status == 404 {
        FeeFetch::Unknown
    } else {
        FeeFetch::Transient
    }
}

pub fn classify_fee_status(status: u16) -> (r: FeeFetch)
    ensures
        r == fee_fetch_of(status),
{
    if 200 <= status && status < 300 {
        FeeFetch::Found
    } else if status == 404 {
        FeeFetch::Unknown
    } else {
        FeeFetch::Transient
    }
}

/// The ingestor's life cycle.
#[derive(Debug, Clone, Copy, PartialEq, Eq, Structural)]
pub enum IngestorPhase {
    Bootstrapping,
    Connecting,
    Streaming,
    Reconnecting,
    Terminated,
}

/// What happened to the ingestor.
#[derive(Debug, Clone, Copy, PartialEq, Eq, Structural)]
pub enum IngestorEvent {
    Bootstrapped,
    Connected,
    ConnectFailed,
    StreamClosed,
    BackoffElapsed,
    Terminate,
}

pub open spec fn phase_after(p: IngestorPhase, ev: IngestorEvent) -> IngestorPhase {
    if p == IngestorPhase::Terminated || ev == IngestorEvent::Terminate {
        IngestorPhase::Terminated
    } else {
        match (p, ev) {
            (IngestorPhase::Bootstrapping, IngestorEvent::Bootstrapped) => IngestorPhase::Connecting,
            (IngestorPhase::Connecting, IngestorEvent::Connected) => IngestorPhase::Streaming,
            (IngestorPhase::Connecting, IngestorEvent::ConnectFailed) => IngestorPhase::Reconnecting,
            (IngestorPhase::Streaming, IngestorEvent::StreamClosed) => IngestorPhase::Reconnecting,
            (IngestorPhase::Reconnecting, IngestorEvent::BackoffElapsed) => IngestorPhase::Connecting,
            _ => p,
        }
    }
}

/// The ingestor's next phase: the termination signal ends it from any phase, and nothing
/// leaves the terminated phase.
pub fn next_phase(p: IngestorPhase, ev: IngestorEvent) -> (r: IngestorPhase)
    ensures
        r == phase_after(p, ev),
        ev == IngestorEvent::Terminate ==> r == IngestorPhase::Terminated,
        p == IngestorPhase::Terminated ==> r == IngestorPhase::Terminated,
{
    if p == IngestorPhase::Terminated || ev == IngestorEvent::Terminate {
        return IngestorPhase::Terminated;
    }
    match (p, ev) {
        (IngestorPhase::Bootstrapping, IngestorEvent::Bootstrapped) => IngestorPhase::Connecting,
        (IngestorPhase::Connecting, IngestorEvent::Connected) => IngestorPhase::Streaming,
        (IngestorPhase::Connecting, IngestorEvent::ConnectFailed) => IngestorPhase::Reconnecting,
        (IngestorPhase::Streaming, IngestorEvent::StreamClosed) => IngestorPhase::Reconnecting,
        (IngestorPhase::Reconnecting, IngestorEvent::BackoffElapsed) => IngestorPhase::Connecting,
        _ => p,
    }
}

/// The list of strings that a JSON document holds, if it is an array of strings.
pub uninterp spec fn json_string_array(body: Seq<char>) -> Option<Seq<Seq<char>>>;

/// Relies on serde_json::from_str: decoding a JSON array of strings, which depends on the
/// text alone; an error where the text is not one.
#[verifier::external_body]
fn decode_string_array(body: &str) -> (r: Option<Vec<String>>)
    ensures
        match r {
            Some(v) => json_string_array(body@) == Some(v@.map_values(|s: String| s@)),
            None => json_string_array(body@).is_none(),
        },
{
    serde_json::from_str::<Vec<String>>(body).ok()
}

/// The transaction ids of a decoded list, in order.
pub fn transactions_from_list(list: Vec<String>) -> (r: Vec<TransactionID>)
    ensures
        r@.len() == list@.len(),
        forall|i: int| 0 <= i < r@.len() ==> (#[trigger] r@[i]).tx_id == list@[i],
{
    let mut out: Vec<TransactionID> = Vec::new();
    let mut i: usize = 0;
    while i < list.len()
        invariant
            0 <= i <= list@.len(),
            out@.len() == i,
            forall|k: int| 0 <= k < i ==> (#[trigger] out@[k]).tx_id == list@[k],
        decreases list@.len() - i,
    {
        out.push(TransactionID { tx_id: list[i].clone() });
        i = i + 1;
    }
    out
}

/// The transaction ids that the explorer's `txids` endpoint returned; `None` where the body
/// is not a JSON array of strings.
pub fn transactions_from_body(body: &str) -> (r: Option<Vec<TransactionID>>)
    ensures
        match r {
            Some(ids) => json_string_array(body@) matches Some(list) && ids@.len() == list.len()
                && forall|i: int| 0 <= i < ids@.len() ==> (#[trigger] ids@[i]).tx_id@ == list[i],
            None => json_string_array(body@).is_none(),
        },
{
    match decode_string_array(body) {
        None => None,
        Some(list) => {
            let ghost l = list@;
            let ids = transactions_from_list(list);
            assert forall|i: int| 0 <= i < ids@.len() implies (#[trigger] ids@[i]).tx_id@ == l.map_values(
                |s: String| s@,
            )[i] by {}
            Some(ids)
        },
    }
}

} // verus!

use vstd::prelude::*;

use crate::ratio::Ratio;

verus! {

/// The head of the chain: its height and block hash.
#[derive(Debug, Clone)]
pub struct BlockTip {
    pub height: u64,
    pub hash: String,
}

impl BlockTip {
    pub fn snapshot(&self) -> (r: BlockTip)
        ensures
            r == *self,
    {
        BlockTip { height: self.height, hash: self.hash.clone() }
    }
}

#[derive(Debug, Clone)]
pub struct TransactionID {
    pub tx_id: String,
}

impl TransactionID {
    pub fn from_string(val: String) -> (r: TransactionID)
        ensures
            r.tx_id == val,
    {
        TransactionID { tx_id: val }
    }
}

/// The explorer's recommended fee rates, in sat/vB.
#[derive(Debug, Clone, Copy, PartialEq, Eq, Structural)]
pub struct RecommendedFees {
    pub fastest_fee: Ratio,
    pub half_hour_fee: Ratio,
    pub hour_fee: Ratio,
    pub economy_fee: Ratio,
    pub minimum_fee: Ratio,
}

impl RecommendedFees {
    pub open spec fn wf(self) -> bool {
        self.fastest_fee.wf() && self.half_hour_fee.wf() && self.hour_fee.wf()
            && self.economy_fee.wf() && self.minimum_fee.wf()
    }
}

/// A new block as the alert engine sees it.
#[derive(Debug, Clone)]
pub struct MempoolData {
    pub block: BlockTip,
    pub transactions: Option<Vec<TransactionID>>,
    pub fees: Option<RecommendedFees>,
}

impl MempoolData {
    pub open spec fn has_transaction(self, id: Seq<char>) -> bool {
        match self.transactions {
            Some(txs) => exists|i: int| 0 <= i < txs.len() && (#[trigger] txs@[i]).tx_id@ == id,
            None => false,
        }
    }

    pub fn contains_transaction(&self, id: &String) -> (r: bool)
        ensures
            r == self.has_transaction(id@),
    {
        match &self.transactions {
            None => false,
            Some(txs) => {
                let mut i: usize = 0;
                while i < txs.len()
                    invariant
                        0 <= i <= txs.len(),
                        self.transactions == Some(*txs),
                        forall|k: int| 0 <= k < i ==> (#[trigger] txs@[k]).tx_id@ != id@,
                    decreases txs.len() - i,
                {
                    if txs[i].tx_id == *id {
                        assert(txs@[i as int].tx_id@ == id@);
                        assert(self.transactions matches Some(t) && t == *txs);
                        assert(self.has_transaction(id@));
                        return true;
                    }
                    i = i + 1;
                }
                false
            },
        }
    }
}

/// Mining pool credited with a block.
#[derive(Debug, Clone)]
pub struct Pool {
    pub id: i64,
    pub name: String,
    pub slug: String,
}

/// Exchange rates the explorer attaches to its pushes.
#[derive(Debug, Clone, Copy, PartialEq, Eq, Structural)]
pub struct Conversions {
    pub time: i64,
    pub usd: i64,
    pub eur: i64,
    pub gbp: i64,
    pub cad: i64,
    pub chf: i64,
    pub aud: i64,
    pub jpy: i64,
}

/// Which explorer backend answered.
#[derive(Debug, Clone)]
pub struct BackendInfo {
    pub hostname: String,
    pub version: String,
    pub git_commit: String,
    pub lightning: bool,
}

#[derive(Debug, Clone, Copy, PartialEq, Eq, Structural)]
pub struct LoadingIndicators {}

/// A block as the explorer's push stream describes it.
#[derive(Debug, Clone)]
pub struct Block {
    pub id: String,
    pub height: i64,
    pub pool: Option<Pool>,
}

/// A transaction of the explorer's push stream.
#[derive(Debug, Clone)]
pub struct Transaction {
    pub txid: String,
}

/// One decoded frame of the explorer's push stream.
#[derive(Debug, Clone)]
pub struct MempoolRaw {
    pub blocks: Option<Vec<Block>>,
    pub block: Option<Block>,
    pub transactions: Option<Vec<Transaction>>,
    pub fees: RecommendedFees,
    pub conversions: Option<Conversions>,
    pub backend_info: Option<BackendInfo>,
    pub loading_indicators: Option<LoadingIndicators>,
}

/// A value carried over a channel between actors.
#[derive(Debug, Clone)]
pub struct Message<T> {
    pub val: T,
}

/// The newest block of a frame: the last of `blocks` where there is one, else `block`.
pub open spec fn newest_block(raw: MempoolRaw) -> Option<Block> {
    match raw.blocks {
        Some(bs) if bs.len() > 0 => Some(bs@.last()),
        _ => raw.block,
    }
}

/// The block event that a frame announces, if it names a block of valid height.
pub open spec fn event_of(raw: MempoolRaw, e: MempoolData) -> bool {
    &&& newest_block(raw) matches Some(b)
    &&& b.height >= 0
    &&& e.block.height == b.height as u64
    &&& e.block.hash == b.id
    &&& e.fees == Some(raw.fees)
    &&& match raw.transactions {
        None => e.transactions.is_none(),
        Some(ts) => e.transactions matches Some(ids) && ids.len() == ts.len() && forall|i: int|
            0 <= i < ts.len() ==> (#[trigger] ids@[i]).tx_id == ts@[i].txid,
    }
}

/// Builds the block event that an explorer frame announces; `None` where it names no block
/// or one of negative height.
pub fn create_new_block(raw: &MempoolRaw) -> (r: Option<MempoolData>)
    ensures
        r matches Some(e) ==> event_of(*raw, e),
        r.is_none() <==> (newest_block(*raw) matches Some(b) ==> b.height < 0),
{
    let newest: &Block = match &raw.blocks {
        Some(bs) if bs.len() > 0 => &bs[bs.len() - 1],
        _ => match &raw.block {
            Some(b) => b,
            None => {
                return None;
            },
        },
    };
    if newest.height < 0 {
        return None;
    }
    let transactions = match &raw.transactions {
        None => None,
        Some(ts) => {
            let mut ids: Vec<TransactionID> = Vec::new();
            let mut i: usize = 0;
            while i < ts.len()
                invariant
                    0 <= i <= ts.len(),
                    ids.len() == i,
                    forall|k: int| 0 <= k < i ==> (#[trigger] ids@[k]).tx_id == ts@[k].txid,
                decreases ts.len() - i,
            {
                ids.push(TransactionID { tx_id: ts[i].txid.clone() });
                i = i + 1;
            }
            Some(ids)
        },
    };
    Some(
        MempoolData {
            block: BlockTip { height: newest.height as u64, hash: newest.id.clone() },
            transactions,
            fees: Some(raw.fees),
        },
    )
}

/// The push-stream listener's memory: the height of the last block it passed on.
#[derive(Debug, Clone, Copy, PartialEq, Eq, Structural)]
pub struct MempoolNetworkWS {
    pub last_height: Option<u64>,
}

impl MempoolNetworkWS {
    pub fn new() -> (r: MempoolNetworkWS)
        ensures
            r.last_height.is_none(),
    {
        MempoolNetworkWS { last_height: None }
    }

    pub open spec fn is_fresh(self, height: u64) -> bool {
        match self.last_height {
            Some(last) => height > last,
            None => true,
        }
    }

    /// Passes an event on only if it is higher than every event passed on before.
    pub fn accept(&mut self, event: &MempoolData) -> (r: bool)
        ensures
            r == old(self).is_fresh(event.block.height),
            r ==> final(self).last_height == Some(event.block.height),
            !r ==> *final(self) == *old(self),
    {
        let fresh = match self.last_height {
            Some(last) => event.block.height > last,
            None => true,
        };
        if fresh {
            self.last_height = Some(event.block.height);
        }
        fresh
    }

    /// Turns a frame into the event to pass on, if it announces a new, higher block.
    pub fn on_frame(&mut self, raw: &MempoolRaw) -> (r: Option<MempoolData>)
        ensures
            r matches Some(e) ==> event_of(*raw, e) && old(self).is_fresh(e.block.height)
                && final(self).last_height == Some(e.block.height),
            r.is_none() ==> *final(self) == *old(self),
            r.is_none() <==> (newest_block(*raw) matches Some(b) ==> (b.height < 0 || !old(
                self,
            ).is_fresh(b.height as u64))),
    {
        match create_new_block(raw) {
            None => None,
            Some(e) => {
                if self.accept(&e) {
                    Some(e)
                } else {
                    None
                }
            },
        }
    }
}

} // verus!

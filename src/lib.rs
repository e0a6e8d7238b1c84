//! The core of a block-chain notification bot: subscriptions to chain conditions, their
//! evaluation against each new block, the commands users send over nostr, and the decisions
//! of the explorer-stream ingestor.

pub mod alert;
pub mod ingest;
pub mod mempool;
pub mod nostr;
pub mod ratio;
pub mod store;
pub mod text;

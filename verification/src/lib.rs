//! Verified core of an ERC721 transfer-event tracker.
//!
//! The library owns the decision logic of the tracker: block-range windowing
//! under a confirmation lag, adaptive step sizing when the provider rejects a
//! range as too large, a deduplicating metadata store, per-event metadata
//! resolution planning, and in-order delivery of enriched events to a
//! consumer callback with per-event failure isolation. The surrounding I/O
//! (the RPC transport, the persistent store, the pacing sleeps) is left to
//! the embedding application, which feeds plain values in and carries plain
//! values out.

pub mod dispatch;
pub mod errors;
pub mod event;
pub mod resolver;
pub mod scanner;
pub mod store;

//! Keeps a local, append-only log of collection events in step with a slow
//! and sometimes unavailable remote ledger of per-category counters.
//!
//! The library holds every decision of that bridge: which configuration
//! yields a usable ledger handle, how the initial counts seed the log, what a
//! recorded event does locally and what it hands to the remote side, and the
//! bounded queue through which remote writes leave without blocking. The
//! program around it performs the network calls and hands the outcomes back.

pub mod category;
pub mod counter;
pub mod dispatch;
pub mod ledger;
pub mod mirror;

pub use category::{is_category, NUM_CATEGORIES};
pub use counter::Counter;
pub use dispatch::DispatchQueue;
pub use ledger::{
    connect, prepare, BlockchainClient, ConfigError, Connection, Endpoint, LedgerConfig,
    OfflineReason,
};
pub use mirror::{AggregateCounts, LoadFailure, RecordOutcome, StateMirror};

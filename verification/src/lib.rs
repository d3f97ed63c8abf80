//! Verified core of the delegation-record synchronization service.
//!
//! The service follows a ledger feed, keeps the set of delegation records
//! that subscribers asked for, and publishes an update whenever a subscribed
//! record changes or any record is undelegated. This crate holds the logic:
//! the decoding of undelegation transactions, the subscription set, the
//! engine that dispatches feed notices to the update queue, and the rules for
//! opening the feed. Every function carries a contract that Verus proves.

pub mod connect;
pub mod consts;
pub mod feed;
pub mod queue;
pub mod session;
pub mod state;
pub mod subscriptions;
pub mod syncer;
pub mod transaction_syncer;
pub mod types;

pub use connect::{feed_config, health_check, subscribe_request};
pub use queue::Delivery;
pub use syncer::{DlpSyncer, RequestOutcome, SyncRequest, UpdateOutcome};
pub use transaction_syncer::{create_filter, process_update};
pub use types::{AccountUpdate, DlpSyncError, Pubkey, Slot};

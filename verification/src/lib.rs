//! Verified cores of two long-running workers.
//!
//! * The bridge indexer reads the history of the Ethereum side of the bridge: [`eth_worker`]
//!   builds the worker, [`block_sync`] plans which block ranges it asks for, [`range_query`]
//!   narrows a range that could not be fetched, [`event_run`] orders the lookups for the events of
//!   a range, and [`transfers`] turns these events into the token transfers that are stored. What
//!   holds of a whole synchronisation is stated in [`sync_laws`], what holds of a list of events in
//!   [`transfer_laws`]; what comes from the Ethereum client library stands in [`ethereum`] and in
//!   [`rpc_provider`], and what holds of the addresses in it in [`address_laws`].
//! * The benchmark executor runs shards of a distributed execution testbed: [`executor`] holds
//!   the configurations of the shards and decides how each of them is started, with [`attrs`]
//!   for their attributes and [`decimal`] for the numerals in them; what holds of both is stated in
//!   [`executor_laws`].
//!
//! Network, database and process handling are the caller's: every function here takes plain
//! values and hands plain values back.

pub mod address_laws;
pub mod attrs;
pub mod block_sync;
pub mod decimal;
pub mod eth_worker;
pub mod ethereum;
pub mod event_run;
pub mod executor;
pub mod executor_laws;
pub mod range_query;
pub mod rpc_provider;
pub mod sync_laws;
pub mod transfer_laws;
pub mod transfers;

//! A key-value map with per-entry time-to-live (TTL) semantics.
//!
//! Every stored value carries the timestamp of its insertion. Reads, writes
//! and removals treat entries older than the map's fixed TTL as logically
//! absent, even while they still sit in storage; a bulk sweep reclaims them.
//! Physical storage is a sharded concurrent map from the `dashmap` crate,
//! used through a small trusted layer; all logic above that layer is
//! verified.

pub mod clock;
pub mod fresh;
pub mod laws;
pub mod store;
pub mod ttl_map;

//! A dynamic-DNS reconciler: the decision logic that keeps a DNS zone's
//! records pointing at the host's current public IP address.
//!
//! The library holds the pure core of the updater: selecting the zone,
//! filtering and matching records, and deciding for each configured
//! subdomain whether to create a record, update it, or leave it alone.
//! The surrounding process (HTTP calls to the provider, the discovery
//! socket, the poll loop) performs the actions the library decides on.

pub mod config;
pub mod discovery;
pub mod reconcile;
pub mod record;

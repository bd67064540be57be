//! Polling and status-aggregation engine for a fleet-health dashboard.
//!
//! A collector periodically probes a set of named endpoints (metrics
//! sources and plain HTTP targets), reduces each raw outcome to red/green
//! statuses under fixed thresholds, keeps a bounded availability history
//! per endpoint, and publishes one consistent snapshot per cycle.

pub mod availability;
pub mod clock;
pub mod engine;
pub mod metrics;
pub mod registry;
pub mod snapshot;
pub mod status;

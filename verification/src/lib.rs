//! Support layer for a zero-knowledge proving pipeline: validation of
//! trusted-setup parameter files, resolution of their on-disk locations,
//! ingestion of raw execution traces, assembly of trace chunks into a
//! witness for the proving engine, and summary metrics over a witness.

pub mod metrics;
pub mod params;
pub mod paths;
pub mod rng;
pub mod trace;
pub mod witness;

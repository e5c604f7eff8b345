//! Ingestion library for electrical-grid outage and generation snapshots.
//!
//! The pipeline materializes two upstream payloads (one plain JSON, one
//! published as executable script state), normalizes their inconsistent
//! shapes into canonical records, resolves their local timestamps against
//! the fixed Puerto Rico timezone into Unix epoch keys, and plans the
//! relational rows that persist each snapshot.

pub mod errors;
pub mod json;
pub mod model;
pub mod normalize;
pub mod rows;
pub mod sandbox;
pub mod time;

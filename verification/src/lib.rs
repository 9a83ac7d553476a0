//! A buffered-file facade with verified contracts: open-flag resolution,
//! uniform error enrichment, same-file identity, and exact semantics for
//! partial reads, sparse regions, hole punching and allocation accounting.

pub mod buffered_file;
pub mod bytes;
pub mod cluster;
pub mod engine;
pub mod errors;
pub mod flags;
pub mod laws;
pub mod read_result;
pub mod stat;


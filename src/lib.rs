//! Batch ingestion of the movie, rating, tag, user and link datasets into a
//! relational store: row decoding, duplicate suppression, bounded batching
//! with per-row failure isolation, and the fixed load sequence. The desktop
//! client's search and session helpers live here too.
pub mod batch;
pub mod catalog;
pub mod decode;
pub mod dedup;
pub mod load;
pub mod numeric;
pub mod pipeline;
pub mod provision;
pub mod search;
pub mod session;
pub mod tables;

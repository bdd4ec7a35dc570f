//! A dictionary-backed spell checker shared with a single-threaded host:
//! archive metadata reads, the queries handed to background work, and the
//! exactly-once delivery of their results.

pub mod checker;
pub mod metadata;
pub mod task;

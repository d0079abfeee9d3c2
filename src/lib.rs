//! A partitioned in-memory key-value store.
//!
//! Keys are 128-bit digests of strings. Each partition is a `Bucket` owned by
//! one worker, whose command handling is a state machine. A controller routes
//! commands to partitions by name. Persistence goes through a three-field
//! envelope whose storage is a JSON value.

pub mod key;
pub mod json;
pub mod ids;
pub mod bucket;
pub mod worker;
pub mod controller;
pub mod fs;

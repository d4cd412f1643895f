//! Key-value store logic: identifier-key requests and their resolution,
//! ordered batch reads, SQL statement text and the database configuration.

pub mod config;
pub mod kv;

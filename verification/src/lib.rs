//! Assembly of a daemon's startup configuration: baseline defaults,
//! merged with command-line overrides, finalized into one immutable,
//! validated value.

pub mod config;
pub mod error;

//! Core library of a terminal client that watches a remote filtered post
//! stream on behalf of user-defined monitors.
//!
//! The library holds the data model (monitors, bounded feed, store), the
//! query builder and validation logic, the stream reconnect/backoff state
//! machine with its error classification, the rule-lifecycle decision
//! functions, and the single-consumer message application loop. Network,
//! terminal and file-system work lives outside, in the surrounding binary,
//! which hands plain values in and takes plain values back.

pub mod ai;
pub mod app;
pub mod bus;
pub mod clock;
pub mod ids;
pub mod config;
pub mod keys;
pub mod lifecycle;
pub mod models;
pub mod msg;
pub mod stream;
pub mod target_files;
pub mod text;
pub mod uitext;

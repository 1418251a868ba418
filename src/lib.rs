//! A log-structured key-value store.
//!
//! Every write is an [`Operation`] that is appended, as one text record per
//! line, to an append-only log. Opening a store replays that log; a read
//! resolves a key by the last operation in the log that touches it.
//!
//! The library holds the store's logic: the record format, replay, and the
//! last-write-wins rule. Reading and appending the log file are left to the
//! caller, which hands the library the log's lines and appends the records
//! that `set` and `remove` return.

mod error;
pub mod laws;
mod record;
mod store;

pub use error::Errors;
pub use record::{
    decode, encode, is_one_line, json_of_strings, op_of_line, record_of, strings_of_json, Op, Operation,
};
pub use store::{all_records, opt_view, replay, value_of, KvStore};

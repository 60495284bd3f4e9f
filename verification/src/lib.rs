//! An offline consistency audit for a column-family key-value store that
//! backs a blockchain node's persisted ledger.
//!
//! The engine walks a snapshot of the store one column at a time and, for
//! each record, runs the column's validation rules, collecting every failure
//! into an append-only report instead of halting on the first one.

pub mod bytes_util;
pub mod store;
pub mod wire;
pub mod format;
pub mod report;
pub mod rules;
pub mod engine;
pub mod laws;

//! Compute-unit estimation and budget optimization for ledger transactions.
//!
//! This library reconciles resource-usage estimates — obtained either by a
//! local replay against fetched account state or by a remote execution
//! simulation — into a safety-margined budget, and splices a "set resource
//! limit" instruction into a message as its first instruction, extending the
//! account-reference table as needed.
//!
//! The library holds the decision and mutation core only. Network transport,
//! account storage, signing, and the ledger runtime itself are external
//! collaborators: a caller performs those steps and hands their outcomes to
//! the functions here as plain values.

pub mod account;
pub mod budget;
pub mod error;
pub mod local;
pub mod message;
pub mod optimizer;
pub mod remote;

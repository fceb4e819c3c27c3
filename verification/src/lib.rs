//! Reconciliation of an operator-maintained list of addresses with the
//! whitelist of a sale contract.
//!
//! A run reads a snapshot of the list, picks the approved rows that were not
//! yet synchronised and whose address is a valid ledger address, hands at most
//! [`selection::BATCH_CAP`] of them to the contract in one call, and, once that
//! call is confirmed, marks exactly those rows as synchronised.
//!
//! The library decides; it performs no I/O. Whoever drives it fetches, prompts,
//! signs and sends, and reports back what happened.

pub mod address;
pub mod rows;
pub mod selection;
pub mod ledger;
pub mod engine;
pub mod run;
pub mod store;

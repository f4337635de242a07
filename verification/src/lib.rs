//! A verified replay engine for per-client payment accounts.
//!
//! An ordered stream of transactions (deposits, withdrawals, and the dispute
//! lifecycle of dispute, resolve and chargeback) is applied to per-client
//! accounts. Balances are kept in fixed-point units of one ten-thousandth so
//! that repeated arithmetic never drifts. Every state transition is specified
//! against a mathematical account model and proved to match it.

pub mod account;
pub mod laws;
pub mod processor;
pub mod transaction;

//! A small ledger: accounts with a credit limit and a running balance, an
//! atomic balance adjustment that never lets `balance + limit` go negative,
//! and newest-first statements of the most recent transactions.

pub mod structs;
pub mod validation;
pub mod store;
pub mod ledger;
pub mod rows;
pub mod laws;

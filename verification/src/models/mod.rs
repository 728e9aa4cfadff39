//! The records of the ledger and the requests that create them, each with
//! its mathematical value.

pub mod account;
pub mod transaction;
pub mod user;

//! A small bank ledger: users own accounts, and signed monetary movements are
//! applied to an account's balance as one indivisible step.
//!
//! The [`ledger::Ledger`] holds the three tables. Every operation that changes
//! it is a function of [`services`]; each states in its contract which state it
//! leaves behind, and on which inputs it fails.

pub mod enums;
pub mod history;
pub mod ledger;
pub mod models;
pub mod services;

//! The operations on the ledger, by the table they work on.

pub mod account_service;
pub mod clock;
pub mod credential_service;
pub mod generation_service;
pub mod transaction_service;
pub mod user_service;

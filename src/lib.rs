//! Booking-and-payment core: validated value objects, time-boxed key delegation,
//! typed capability handles for the remote ledger, and the transaction workflow.
pub mod canister;
pub mod clock;
pub mod config;
pub mod crypto;
pub mod delegation;
pub mod http;
pub mod ledger;
pub mod service;
pub mod text;
pub mod transaction;

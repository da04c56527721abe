//! A minimal pay-to-contact escrow ledger.
//!
//! A recipient registers a profile that publishes a price; a sender
//! deposits at least that price into an escrow message record whose
//! address is derived deterministically from (recipient, sender, nonce);
//! the recipient later claims the escrowed funds, which destroys the
//! record. Every handler re-derives the addresses it is handed and
//! rejects substituted ones.

pub mod addr;
pub mod constants;
pub mod errors;
pub mod handlers;
pub mod laws;
pub mod state;
pub mod store;

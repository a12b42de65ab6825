//! A recurring-payment protocol: subscriptions that hold funds in escrow
//! and pay a payee once per billing interval.
//!
//! The library decides every operation on plain values: it validates the
//! accounts that an operation names, reads and writes the protocol's
//! records, and returns the list of effects (transfers, account creation,
//! credential minting) that the ledger runtime must perform.
pub mod address;
pub mod client;
pub mod codec;
pub mod effects;
pub mod error;
pub mod instruction;
pub mod processor;
pub mod registry;
pub mod renewal;
pub mod state;
pub mod token;
pub mod utils;

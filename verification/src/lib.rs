//! A single-signature taproot wallet engine: it derives a wallet's keys and
//! addresses from a mnemonic, reads what the wallet holds, and builds and
//! signs the transaction that sends all of it to one address.
//!
//! The wallet backend is the `bdk` crate. Every call into it is a small
//! function in [`backend`] that states what the call does and is believed;
//! everything that is decided around those calls is verified. What the
//! backend builds, signs or reports is read back as plain values and held
//! against the engine's own rules before it is handed on.
//!
//! The engine does not reach the network. A caller synchronises the backend
//! and sends the transaction, in the order and on the conditions that
//! [`flow`] lays down.

pub mod api;
pub mod backend;
pub mod balance;
pub mod client;
pub mod drain;
pub mod error;
pub mod fee;
pub mod flow;
pub mod keychain;
pub mod ledger;
pub mod network;
pub mod path;
pub mod spend;
pub mod state;
pub mod sync;
pub mod text;

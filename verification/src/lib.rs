//! A streaming ledger-reconciliation engine.
//!
//! The crate consumes an ordered sequence of financial transaction events
//! (deposits, withdrawals, disputes, resolutions, chargebacks) keyed by
//! client and transaction identifiers, and produces a final per-client
//! account balance snapshot. Reading and writing the events as tabular
//! text is a caller's concern; the engine itself is verified: every
//! balance-mutating rule, the dispute lifecycle, and the error taxonomy
//! are stated as contracts and proved.

pub mod account;
pub mod amount;
pub mod engine;

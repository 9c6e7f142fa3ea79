//! A benefit-disbursement ledger.
//!
//! An administrator registers accounts as eligible for a one-time award from a
//! pooled fund of a fungible asset; each registered account may claim its award
//! exactly once.  The ledger itself is a small state machine: it decides, for
//! every authenticated call, how the durable state changes and which asset
//! transfer the host must perform.  Authentication, durable storage and the
//! asset ledger are collaborators of the host environment; the ledger receives
//! their outcomes as plain values and is verified for every outcome.

pub mod errors;
pub mod laws;
pub mod ledger;
pub mod transfer;

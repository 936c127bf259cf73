//! Offer validation and settlement assembly for a coin-set ledger.
//!
//! The crate turns caller-supplied payment requests into notarized payments,
//! and drives the ledger's offer machinery to validate an encoded offer or to
//! merge a signed spend bundle with the settlement spend that announces the
//! requested payments.
pub mod error;
pub mod payment;
pub mod bundle;
pub mod signature;
pub mod offer;

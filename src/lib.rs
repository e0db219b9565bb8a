//! A two-party escrow over a token ledger: a depositor locks asset A in a
//! holding account owned by a program-derived authority, and either takes it
//! back or a counterparty claims it by paying asset B, atomically.

pub mod key;
pub mod derive;
pub mod ledger;
pub mod escrow;
pub mod laws;

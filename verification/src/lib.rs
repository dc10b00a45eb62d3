//! An in-memory ledger of accounts, each holding a balance and a set of
//! named counters, together with the decisions of the interactive session
//! that drives one of those counters.

pub mod error;
pub mod laws;
pub mod ledger;
pub mod model;
pub mod session;

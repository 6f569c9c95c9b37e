//! The ledger: accounts, the journal of applied transactions and the ledger state.
pub mod account;
pub mod journal;
pub mod state;
pub mod laws;

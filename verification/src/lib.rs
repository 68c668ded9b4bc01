//! The core of a small marketplace ledger: role-tagged accounts, escrow-style
//! jobs, NFT ownership and NFT resale listings, each kept in a key space of
//! its own, with the rules that gate every change of state.

pub mod laws;
pub mod ledger;
pub mod market;
pub mod records;
pub mod table;

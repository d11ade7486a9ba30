//! The records that the ledger keeps.

pub mod admin;
pub mod entrant;
pub mod raffle;

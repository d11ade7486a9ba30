//! A raffle ledger: a time-boxed ticket sale, followed by the allocation of
//! rewards among the entrants and the settlement of the proceeds.
//!
//! The records of the ledger and every rule that governs them live here and
//! are verified. Moving value, reading the clock and storing the records are
//! left to the caller, who hands in plain values and carries out what the
//! functions of this crate decide.

pub mod errors;
pub mod instructions;
pub mod ledger;
pub mod lifecycle;
pub mod pubkey;
pub mod states;

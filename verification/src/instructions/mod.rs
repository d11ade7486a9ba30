//! The operations on the ledger. Each one checks the records it is given,
//! and either changes them and says what value is to be moved, or refuses
//! and changes nothing.

pub mod config;
pub mod entrant;
pub mod raffle;

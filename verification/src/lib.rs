//! Rules of a multi-party escrow: fee arithmetic, the status machine of
//! lump-sum, token and milestone escrows, dispute resolution and reputation
//! counters, each stated as a contract and proved.
//!
//! Nothing here moves value or reads a clock. Every operation takes the
//! current time as an argument and answers with the new state of the record
//! and the amounts that the caller has to move.

pub mod errors;
pub mod fees;
pub mod guarantees;
pub mod instructions;
pub mod milestones;
pub mod reputation;
pub mod rules;
pub mod state;

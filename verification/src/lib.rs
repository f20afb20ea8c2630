//! A binary-outcome, pari-mutuel betting market with escrowed stakes.
//!
//! Participants wager a fixed stake on one of two sides of a proposition. The
//! stakes are held in a vault that belongs to the market until the creator
//! resolves it; each winner then claims an equal share of the whole pool.
//!
//! - `instructions` holds the four operations, each on the accounts it
//!   touches; `state`, `token` and `error` hold what they work on.
//! - `ledger` keeps the markets and positions of a program by address, in
//!   `table`s, and runs the operations on them; `pda` derives the addresses.
//! - `model` states what each operation makes of a ledger, `solvency` what
//!   every operation keeps true of it, and `laws` what follows for every
//!   sequence of operations.
//! - `betting_contracts` is a simpler market that pays all winners at once
//!   when it is resolved.

pub mod address;
pub mod betting_contracts;
pub mod error;
pub mod instructions;
pub mod laws;
pub mod ledger;
pub mod model;
pub mod pda;
pub mod solvency;
pub mod state;
pub mod table;
pub mod token;

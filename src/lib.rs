//! Settlement of a single-round wager between a custodial bank and a player.
//!
//! The library checks whether a wager is eligible (asset type, non-empty
//! holding, canonical holding address), derives the outcome from one bit of a
//! timestamp, and moves lamports between the two balances so that a settlement
//! either happens in full or not at all.

pub mod address;
pub mod settlement;
pub mod state;
pub mod validator;

pub use address::{Address, same_address};
pub use state::{Bank, ExclusiveGamble, GambleError, InitBank, Outcome, Party, TokenAccount};
pub use settlement::{admits, gamble, init_bank, move_lamports, outcome_bit, settle};
pub use validator::validate;

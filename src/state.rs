use vstd::prelude::*;
use crate::address::Address;

verus! {

/// The bank's record: who created it and which mint it accepts.
#[derive(Clone, Copy)]
pub struct Bank {
    pub authority: Address,
    pub permitted_mint: Address,
    /// Number of settled rounds; kept in the layout, never changed by settlement.
    pub count: u32,
}

impl Bank {
    /// Bytes taken by the two addresses of the record.
    pub const MAXIMUM_SIZE: usize = 32 * 2;
}

/// A token holding: where it is stored, which mint it denominates and how
/// many units it holds.
#[derive(Clone, Copy)]
pub struct TokenAccount {
    pub key: Address,
    pub mint: Address,
    pub amount: u64,
}

/// The accounts of one wager request, with the lamport balances of the
/// player (`caller`) and of the bank.
#[derive(Clone, Copy)]
pub struct ExclusiveGamble {
    pub token_account: TokenAccount,
    pub pool_mint: Address,
    pub caller: Address,
    pub caller_lamports: u64,
    pub bank: Bank,
    pub bank_key: Address,
    pub bank_lamports: u64,
}

/// The accounts of a bank's creation: the new bank record and the banker who
/// funds it, with their lamport balances.
#[derive(Clone, Copy)]
pub struct InitBank {
    pub bank: Bank,
    pub bank_key: Address,
    pub bank_lamports: u64,
    pub banker: Address,
    pub banker_lamports: u64,
}

/// One side of a wager.
#[derive(Clone, Copy, Debug, PartialEq, Eq, Structural)]
pub enum Party {
    Bank,
    Player,
}

/// How a request was settled.
#[derive(Clone, Copy, Debug, PartialEq, Eq, Structural)]
pub enum Outcome {
    /// The wager was eligible and played out.
    Won { winner: Party, loser: Party },
    /// The wager was ineligible: the player's whole balance went to the bank.
    Drained,
}

/// Why a request failed; a failed request changes no balance.
#[derive(Clone, Copy, Debug, PartialEq, Eq, Structural)]
pub enum GambleError {
    /// The player cannot pay the wager, or the bank cannot cover twice it.
    InsufficientFunds,
    /// A balance movement could not complete (underflow or overflow).
    TransferFailed,
    /// The runtime clock could not be read.
    ClockUnavailable,
}

} // verus!

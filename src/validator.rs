use vstd::prelude::*;
use crate::address::{Address, same_address};
use crate::state::{Bank, TokenAccount};

verus! {

/// A holding may be wagered when its mint is both the bank's permitted mint
/// and the pool mint, it is not empty, and it is stored at the canonical
/// `derived` address.
pub open spec fn eligible(token: TokenAccount, pool_mint: Address, bank: Bank, derived: Seq<u8>) -> bool {
    &&& token.mint@ == bank.permitted_mint@
    &&& token.mint@ == pool_mint@
    &&& token.amount > 0
    &&& derived == token.key@
}

/// Checks the eligibility of a holding; no side effects.
pub fn validate(token: &TokenAccount, pool_mint: &Address, bank: &Bank, derived: &Address) -> (r: bool)
    ensures
        r == eligible(*token, *pool_mint, *bank, derived@),
{
    same_address(&token.mint, &bank.permitted_mint)
        && same_address(&token.mint, pool_mint)
        && token.amount > 0
        && same_address(derived, &token.key)
}

/// Validation is a function of its inputs: two calls on the same inputs
/// give the same answer.
pub proof fn validate_is_deterministic(
    token: TokenAccount,
    pool_mint: Address,
    bank: Bank,
    derived: Seq<u8>,
    first: bool,
    second: bool,
)
    requires
        first == eligible(token, pool_mint, bank, derived),
        second == eligible(token, pool_mint, bank, derived),
    ensures
        first == second,
{
}

} // verus!

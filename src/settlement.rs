use vstd::prelude::*;
use crate::address::{Address, associated_token_address, associated_token_address_of};
use crate::state::{ExclusiveGamble, GambleError, InitBank, Outcome, Party};
use crate::validator::{eligible, validate};

verus! {

/// The request is admitted when the player can pay the wager and the bank
/// can pay twice it.
pub open spec fn admitted(c: ExclusiveGamble, amount: u64) -> bool {
    amount <= c.caller_lamports && 2 * amount <= c.bank_lamports
}

/// The bank wins when the low bit of the timestamp is set.
pub open spec fn bank_wins(now_ts: i64) -> bool {
    now_ts & 1 == 1
}

/// `c` with the two lamport balances replaced.
pub open spec fn with_balances(c: ExclusiveGamble, caller: int, bank: int) -> ExclusiveGamble {
    ExclusiveGamble { caller_lamports: caller as u64, bank_lamports: bank as u64, ..c }
}

/// The accounts after a request and its result, for the canonical holding
/// address `derived` and the timestamp `now_ts`.
pub open spec fn settlement(c: ExclusiveGamble, amount: u64, derived: Seq<u8>, now_ts: i64) -> (
    ExclusiveGamble,
    Result<Outcome, GambleError>,
) {
    let player = c.caller_lamports as int;
    let bank = c.bank_lamports as int;
    if !admitted(c, amount) {
        (c, Err(GambleError::InsufficientFunds))
    } else if eligible(c.token_account, c.pool_mint, c.bank, derived) {
        if bank_wins(now_ts) {
            if bank + amount > u64::MAX {
                (c, Err(GambleError::TransferFailed))
            } else {
                (
                    with_balances(c, player - amount, bank + amount),
                    Ok(Outcome::Won { winner: Party::Bank, loser: Party::Player }),
                )
            }
        } else {
            if player + 2 * amount > u64::MAX {
                (c, Err(GambleError::TransferFailed))
            } else {
                (
                    with_balances(c, player + 2 * amount, bank - 2 * amount),
                    Ok(Outcome::Won { winner: Party::Player, loser: Party::Bank }),
                )
            }
        }
    } else {
        if bank + player > u64::MAX {
            (c, Err(GambleError::TransferFailed))
        } else {
            (with_balances(c, 0, bank + player), Ok(Outcome::Drained))
        }
    }
}

/// Moves `amount` lamports from one balance to another, in full or not at all.
pub fn move_lamports(from: &mut u64, to: &mut u64, amount: u64) -> (r: Result<(), GambleError>)
    ensures
        r is Ok <==> (amount <= *old(from) && *old(to) + amount <= u64::MAX),
        r is Ok ==> *final(from) == *old(from) - amount && *final(to) == *old(to) + amount,
        r is Err ==> r == Err::<(), GambleError>(GambleError::TransferFailed) && *final(from)
            == *old(from) && *final(to) == *old(to),
{
    if amount > *from || amount > u64::MAX - *to {
        return Err(GambleError::TransferFailed);
    }
    *from = *from - amount;
    *to = *to + amount;
    Ok(())
}

/// Whether the player can pay the wager and the bank can cover twice it.
pub fn admits(ctx: &ExclusiveGamble, gamble_amount: u64) -> (r: bool)
    ensures
        r == admitted(*ctx, gamble_amount),
{
    gamble_amount <= ctx.caller_lamports && (gamble_amount as u128) * 2 <= ctx.bank_lamports as u128
}

/// The outcome bit: the least significant bit of the timestamp. This source
/// is predictable and not fit where the outcome must be unpredictable.
pub fn outcome_bit(now_ts: i64) -> (r: u8)
    ensures
        r <= 1,
        r == 1 <==> bank_wins(now_ts),
{
    let bit = now_ts & 1;
    assert(bit == 0 || bit == 1) by (bit_vector)
        requires
            bit == now_ts & 1,
    ;
    bit as u8
}

/// Settles a request against the canonical holding address `derived` and the
/// timestamp `now_ts`. An ineligible holding forfeits the player's whole
/// balance to the bank; a failed request changes nothing.
pub fn settle(ctx: &mut ExclusiveGamble, gamble_amount: u64, derived: &Address, now_ts: i64) -> (r:
    Result<Outcome, GambleError>)
    ensures
        (*final(ctx), r) == settlement(*old(ctx), gamble_amount, derived@, now_ts),
{
    if !admits(ctx, gamble_amount) {
        return Err(GambleError::InsufficientFunds);
    }
    if validate(&ctx.token_account, &ctx.pool_mint, &ctx.bank, derived) {
        if outcome_bit(now_ts) == 1 {
            match move_lamports(&mut ctx.caller_lamports, &mut ctx.bank_lamports, gamble_amount) {
                Ok(()) => Ok(Outcome::Won { winner: Party::Bank, loser: Party::Player }),
                Err(e) => Err(e),
            }
        } else {
            let prize = gamble_amount * 2;
            match move_lamports(&mut ctx.bank_lamports, &mut ctx.caller_lamports, prize) {
                Ok(()) => Ok(Outcome::Won { winner: Party::Player, loser: Party::Bank }),
                Err(e) => Err(e),
            }
        }
    } else {
        let all = ctx.caller_lamports;
        match move_lamports(&mut ctx.caller_lamports, &mut ctx.bank_lamports, all) {
            Ok(()) => Ok(Outcome::Drained),
            Err(e) => Err(e),
        }
    }
}

/// Relies on `Clock::get` of solana-program (through anchor_lang): the
/// cluster's unix timestamp when the runtime provides the clock sysvar,
/// `None` when it does not. Nothing is promised of the value.
#[verifier::external_body]
fn unix_timestamp() -> (r: Option<i64>) {
    <anchor_lang::prelude::Clock as anchor_lang::prelude::SolanaSysvar>::get().ok().map(
        |clock| clock.unix_timestamp,
    )
}

/// Settles a request: derives the canonical address of the player's holding
/// for the pool mint and, for an admitted eligible wager, reads the clock for
/// the outcome bit. Whatever the clock gives, the result is one of
/// `settlement`'s, or `ClockUnavailable` with nothing changed.
pub fn gamble(ctx: &mut ExclusiveGamble, gamble_amount: u64) -> (r: Result<Outcome, GambleError>)
    ensures
        ({
            let derived = associated_token_address_of(old(ctx).caller@, old(ctx).pool_mint@);
            if admitted(*old(ctx), gamble_amount) && eligible(
                old(ctx).token_account,
                old(ctx).pool_mint,
                old(ctx).bank,
                derived,
            ) {
                (r == Err::<Outcome, GambleError>(GambleError::ClockUnavailable) && *final(ctx)
                    == *old(ctx)) || exists|now_ts: i64|
                    (*final(ctx), r) == #[trigger] settlement(
                        *old(ctx),
                        gamble_amount,
                        derived,
                        now_ts,
                    )
            } else {
                forall|now_ts: i64|
                    (*final(ctx), r) == #[trigger] settlement(
                        *old(ctx),
                        gamble_amount,
                        derived,
                        now_ts,
                    )
            }
        }),
{
    let derived = associated_token_address(&ctx.caller, &ctx.pool_mint);
    if admits(ctx, gamble_amount) && validate(&ctx.token_account, &ctx.pool_mint, &ctx.bank, &derived) {
        match unix_timestamp() {
            Some(now_ts) => settle(ctx, gamble_amount, &derived, now_ts),
            None => Err(GambleError::ClockUnavailable),
        }
    } else {
        settle(ctx, gamble_amount, &derived, 0)
    }
}

/// Creates the bank: records the banker as authority and the permitted mint,
/// and moves `start_bank_balance` lamports from the banker to the bank. When
/// the banker cannot pay, nothing changes.
pub fn init_bank(ctx: &mut InitBank, start_bank_balance: u64, permitted_mint: Address) -> (r:
    Result<(), GambleError>)
    ensures
        r is Ok <==> (start_bank_balance <= old(ctx).banker_lamports && old(ctx).bank_lamports
            + start_bank_balance <= u64::MAX),
        r is Ok ==> final(ctx).bank.authority == old(ctx).banker && final(ctx).bank.permitted_mint
            == permitted_mint && final(ctx).bank.count == old(ctx).bank.count
            && final(ctx).banker_lamports == old(ctx).banker_lamports - start_bank_balance
            && final(ctx).bank_lamports == old(ctx).bank_lamports + start_bank_balance
            && final(ctx).banker == old(ctx).banker && final(ctx).bank_key == old(ctx).bank_key,
        r is Err ==> r == Err::<(), GambleError>(GambleError::TransferFailed) && *final(ctx)
            == *old(ctx),
{
    match move_lamports(&mut ctx.banker_lamports, &mut ctx.bank_lamports, start_bank_balance) {
        Ok(()) => {
            ctx.bank.authority = ctx.banker;
            ctx.bank.permitted_mint = permitted_mint;
            Ok(())
        },
        Err(e) => Err(e),
    }
}

/// An admitted, eligible wager that the bank wins moves exactly the wager
/// from the player to the bank, and the sum of the two balances is kept
/// (when the bank's new balance fits in a `u64`).
pub proof fn bank_win_moves_the_wager(c: ExclusiveGamble, amount: u64, derived: Seq<u8>, now_ts: i64)
    requires
        admitted(c, amount),
        eligible(c.token_account, c.pool_mint, c.bank, derived),
        bank_wins(now_ts),
        c.bank_lamports + amount <= u64::MAX,
    ensures
        ({
            let (n, r) = settlement(c, amount, derived, now_ts);
            &&& r == Ok::<Outcome, GambleError>(Outcome::Won { winner: Party::Bank, loser: Party::Player })
            &&& n.caller_lamports == c.caller_lamports - amount
            &&& n.bank_lamports == c.bank_lamports + amount
            &&& n.caller_lamports + n.bank_lamports == c.caller_lamports + c.bank_lamports
        }),
{
}

/// An admitted, eligible wager that the player wins moves twice the wager
/// from the bank to the player, and the sum of the two balances is kept
/// (when the player's new balance fits in a `u64`).
pub proof fn player_win_pays_twice_the_wager(
    c: ExclusiveGamble,
    amount: u64,
    derived: Seq<u8>,
    now_ts: i64,
)
    requires
        admitted(c, amount),
        eligible(c.token_account, c.pool_mint, c.bank, derived),
        !bank_wins(now_ts),
        c.caller_lamports + 2 * amount <= u64::MAX,
    ensures
        ({
            let (n, r) = settlement(c, amount, derived, now_ts);
            &&& r == Ok::<Outcome, GambleError>(Outcome::Won { winner: Party::Player, loser: Party::Bank })
            &&& n.bank_lamports == c.bank_lamports - 2 * amount
            &&& n.caller_lamports == c.caller_lamports + 2 * amount
            &&& n.caller_lamports + n.bank_lamports == c.caller_lamports + c.bank_lamports
        }),
{
}

/// An admitted wager on an ineligible holding moves the player's whole
/// balance to the bank and leaves the player with nothing (when the bank's
/// new balance fits in a `u64`).
pub proof fn ineligible_wager_drains_the_player(
    c: ExclusiveGamble,
    amount: u64,
    derived: Seq<u8>,
    now_ts: i64,
)
    requires
        admitted(c, amount),
        !eligible(c.token_account, c.pool_mint, c.bank, derived),
        c.bank_lamports + c.caller_lamports <= u64::MAX,
    ensures
        ({
            let (n, r) = settlement(c, amount, derived, now_ts);
            &&& r == Ok::<Outcome, GambleError>(Outcome::Drained)
            &&& n.caller_lamports == 0
            &&& n.bank_lamports == c.bank_lamports + c.caller_lamports
        }),
{
}

/// A wager larger than the player's balance, or whose double exceeds the
/// bank's balance, fails with `InsufficientFunds` and changes nothing.
pub proof fn unaffordable_wager_changes_nothing(
    c: ExclusiveGamble,
    amount: u64,
    derived: Seq<u8>,
    now_ts: i64,
)
    requires
        amount > c.caller_lamports || 2 * amount > c.bank_lamports,
    ensures
        settlement(c, amount, derived, now_ts) == (
            c,
            Err::<Outcome, GambleError>(GambleError::InsufficientFunds),
        ),
{
}

} // verus!

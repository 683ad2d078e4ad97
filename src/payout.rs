use vstd::prelude::*;

use crate::error::BettingError;
use crate::identity::Identity;
use crate::state::{EntryState, MainState, PoolState, Winner};

verus! {

/// Fees are expressed in basis points of this denominator.
pub const BPS_DENOMINATOR: u128 = 10_000;

/// `x`, capped at the largest 128-bit value.
pub open spec fn sat128(x: int) -> int {
    if x > u128::MAX {
        u128::MAX as int
    } else {
        x
    }
}

/// `x - y`, floored at zero.
pub open spec fn sub0(x: int, y: int) -> int {
    if x > y {
        x - y
    } else {
        0
    }
}

/// A fee of `bps` basis points on `total`, computed in saturating 128-bit arithmetic.
pub open spec fn fee_of(total: int, bps: u64) -> int {
    sat128(total * bps) / BPS_DENOMINATOR as int
}

/// All lamports recorded in the market, both sides.
pub open spec fn pool_total(pool: PoolState) -> int {
    pool.yes_reserve + pool.no_reserve
}

pub open spec fn creator_fee(pool: PoolState, main: MainState) -> int {
    fee_of(pool_total(pool), main.creator_fee_percent)
}

pub open spec fn platform_fee(pool: PoolState, main: MainState) -> int {
    fee_of(pool_total(pool), main.platform_fee_percent)
}

pub open spec fn yes_won(pool: PoolState) -> bool {
    pool.winner == Winner::Yes
}

pub open spec fn winning_reserve(pool: PoolState) -> int {
    if yes_won(pool) {
        pool.yes_reserve as int
    } else {
        pool.no_reserve as int
    }
}

pub open spec fn winning_supply(pool: PoolState) -> int {
    if yes_won(pool) {
        pool.yes_supply as int
    } else {
        pool.no_supply as int
    }
}

/// The losing reserve left once both fees are taken out of the whole pool.
pub open spec fn available_profit(pool: PoolState, main: MainState) -> int {
    sub0(
        sub0(pool_total(pool) - winning_reserve(pool), creator_fee(pool, main)),
        platform_fee(pool, main),
    )
}

/// The part of the available profit owed to `tokens` winning outcome tokens.
pub open spec fn profit_share(pool: PoolState, main: MainState, tokens: u64) -> int {
    if available_profit(pool, main) > 0 {
        sat128(tokens * available_profit(pool, main)) / winning_supply(pool)
    } else {
        0
    }
}

/// A winner's payout: the principal back plus the profit share.
pub open spec fn payout_of(pool: PoolState, main: MainState, entry: EntryState) -> int {
    sat128(entry.deposited_sol_amount + profit_share(pool, main, entry.token_balance))
}

/// The entry backs the side that won.
pub open spec fn on_winning_side(pool: PoolState, entry: EntryState) -> bool {
    entry.is_yes == yes_won(pool)
}

/// What a claim yields: the lamports owed, or the error that stops it.
pub open spec fn claim_outcome(
    main: MainState,
    pool: PoolState,
    entry: EntryState,
    now: i64,
) -> Result<u64, BettingError> {
    if entry.is_claimed {
        Err(BettingError::AlreadyClaimed)
    } else if !pool.ended_at(now) {
        Err(BettingError::BetNotEnded)
    } else if !pool.complete {
        Err(BettingError::BetNotComplete)
    } else if !on_winning_side(pool, entry) {
        Err(BettingError::WrongBet)
    } else if winning_supply(pool) == 0 {
        Err(BettingError::MathOverflow)
    } else if entry.token_balance == 0 {
        Err(BettingError::WrongBet)
    } else if payout_of(pool, main, entry) > u64::MAX {
        Err(BettingError::MathOverflow)
    } else {
        Ok(payout_of(pool, main, entry) as u64)
    }
}

/// The fee flagged for a market: what `fee_of` gives, capped at 64 bits.
pub open spec fn fee_lamports(total: int, bps: u64) -> u64 {
    if fee_of(total, bps) > u64::MAX {
        u64::MAX
    } else {
        fee_of(total, bps) as u64
    }
}

/// `a * b`, saturating at the largest 128-bit value.
pub fn saturating_mul_u128(a: u128, b: u128) -> (r: u128)
    ensures
        r == sat128(a * b),
{
    match a.checked_mul(b) {
        Some(p) => p,
        None => u128::MAX,
    }
}

/// A fee of `bps` basis points on `total`.
pub fn fee_amount(total: u128, bps: u64) -> (r: u128)
    ensures
        r == fee_of(total as int, bps),
{
    saturating_mul_u128(total, bps as u128) / BPS_DENOMINATOR
}

/// The fee of `bps` basis points on both reserves of a market, capped at 64 bits.
pub fn market_fee(pool_state: &PoolState, bps: u64) -> (r: u64)
    ensures
        r == fee_lamports(pool_total(*pool_state), bps),
{
    let total: u128 = (pool_state.yes_reserve as u128) + (pool_state.no_reserve as u128);
    let fee = fee_amount(total, bps);
    if fee > u64::MAX as u128 {
        u64::MAX
    } else {
        fee as u64
    }
}

/// A claim of the winnings of the caller's entry in market `bet_id`.
#[derive(Debug, Clone, Copy)]
pub struct ClaimInput {
    pub bet_id: u64,
}

/// Pays a winning entry its principal plus its share of the losing reserve
/// after fees; the entry is marked claimed and the lamports owed are returned
/// for the host to move out of the vault.
pub fn claim(
    main_state: &MainState,
    pool_state: &PoolState,
    entry_state: &mut EntryState,
    input: ClaimInput,
    now: i64,
) -> (r: Result<u64, BettingError>)
    ensures
        match r {
            Ok(amount) => {
                &&& claim_outcome(*main_state, *pool_state, *old(entry_state), now) == Ok::<
                    u64,
                    BettingError,
                >(amount)
                &&& *final(entry_state) == (EntryState { is_claimed: true, ..*old(entry_state) })
                // a claim that pays was not paid before, and backs the winning side
                &&& !old(entry_state).is_claimed
                &&& on_winning_side(*pool_state, *old(entry_state))
                // a winner never gets less than the principal
                &&& amount >= old(entry_state).deposited_sol_amount
            },
            Err(e) => {
                &&& claim_outcome(*main_state, *pool_state, *old(entry_state), now) == Err::<
                    u64,
                    BettingError,
                >(e)
                &&& *final(entry_state) == *old(entry_state)
            },
        },
        // a losing entry of a resolved market is turned away
        !old(entry_state).is_claimed && pool_state.ended_at(now) && pool_state.complete
            && !on_winning_side(*pool_state, *old(entry_state)) ==> r == Err::<u64, BettingError>(
            BettingError::WrongBet,
        ),
{
    if entry_state.is_claimed {
        return Err(BettingError::AlreadyClaimed);
    }
    if pool_state.end_timestamp >= 0 && !(pool_state.end_timestamp < now) {
        return Err(BettingError::BetNotEnded);
    }
    if !pool_state.complete {
        return Err(BettingError::BetNotComplete);
    }
    let winner = pool_state.winner == Winner::Yes;
    if entry_state.is_yes != winner {
        return Err(BettingError::WrongBet);
    }
    let yes_reserve = pool_state.yes_reserve as u128;
    let no_reserve = pool_state.no_reserve as u128;
    let winning_supply = if winner {
        pool_state.yes_supply as u128
    } else {
        pool_state.no_supply as u128
    };
    let user_tokens = entry_state.token_balance as u128;
    if winning_supply == 0 {
        return Err(BettingError::MathOverflow);
    }
    if user_tokens == 0 {
        return Err(BettingError::WrongBet);
    }
    let total_reserve = yes_reserve + no_reserve;
    let creator_fee = fee_amount(total_reserve, main_state.creator_fee_percent);
    let platform_fee = fee_amount(total_reserve, main_state.platform_fee_percent);
    let winning_reserve = if winner { yes_reserve } else { no_reserve };
    let available_profit = total_reserve.saturating_sub(winning_reserve).saturating_sub(
        creator_fee,
    ).saturating_sub(platform_fee);
    let profit_share = if available_profit > 0 {
        saturating_mul_u128(user_tokens, available_profit) / winning_supply
    } else {
        0
    };
    let principal = entry_state.deposited_sol_amount as u128;
    let claim_total = principal.saturating_add(profit_share);
    if claim_total > u64::MAX as u128 {
        return Err(BettingError::MathOverflow);
    }
    entry_state.is_claimed = true;
    Ok(claim_total as u64)
}

/// A claim of the creator fee of market `bet_id`.
#[derive(Debug, Clone, Copy)]
pub struct ClaimCreatorFeeInput {
    pub bet_id: u64,
}

/// The error that stops `caller` from claiming the creator fee at `now`, if any.
pub open spec fn creator_fee_error(pool: PoolState, caller: Identity, now: i64) -> Option<BettingError> {
    if caller.key() != pool.creator.key() {
        Some(BettingError::Unauthorized)
    } else if pool.creator_fee_claimed {
        Some(BettingError::AlreadyClaimed)
    } else if !pool.ended_at(now) {
        Some(BettingError::BetNotEnded)
    } else if !pool.complete {
        Some(BettingError::BetNotComplete)
    } else {
        None
    }
}

/// Flags the creator fee of a resolved market as claimed and returns the
/// lamports the host moves from the vault to the creator (nothing moves when
/// it is zero).
pub fn claim_creator_fee(
    main_state: &MainState,
    pool_state: &mut PoolState,
    creator: Identity,
    input: ClaimCreatorFeeInput,
    now: i64,
) -> (r: Result<u64, BettingError>)
    ensures
        match r {
            Ok(fee) => {
                &&& creator_fee_error(*old(pool_state), creator, now) is None
                &&& *final(pool_state) == (PoolState { creator_fee_claimed: true, ..*old(pool_state) })
                &&& fee == fee_lamports(pool_total(*old(pool_state)), main_state.creator_fee_percent)
                &&& old(pool_state).wf() ==> final(pool_state).wf()
            },
            Err(e) => {
                &&& creator_fee_error(*old(pool_state), creator, now) == Some(e)
                &&& *final(pool_state) == *old(pool_state)
            },
        },
        // the fee is paid at most once
        old(pool_state).creator_fee_claimed ==> r is Err,
        final(pool_state).balances() == old(pool_state).balances(),
{
    if !(pool_state.creator == creator) {
        return Err(BettingError::Unauthorized);
    }
    if pool_state.creator_fee_claimed {
        return Err(BettingError::AlreadyClaimed);
    }
    if pool_state.end_timestamp >= 0 && !(pool_state.end_timestamp < now) {
        return Err(BettingError::BetNotEnded);
    }
    if !pool_state.complete {
        return Err(BettingError::BetNotComplete);
    }
    pool_state.creator_fee_claimed = true;
    Ok(market_fee(pool_state, main_state.creator_fee_percent))
}

} // verus!

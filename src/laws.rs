use vstd::prelude::*;

use crate::deposit::{deposit_outcome, entry_after_deposit, pool_after_deposit, DepositInput};
use crate::identity::Identity;
use crate::market::{fresh_entry, resolve_error};
use crate::payout::{
    available_profit, claim_outcome, creator_fee, creator_fee_error, payout_of, profit_share, platform_fee, pool_total, winning_reserve,
    winning_supply,
};
use crate::error::BettingError;
use crate::state::{EntryState, MainState, PoolState};

verus! {

/// Lamports deposited by all the entries.
pub open spec fn total_deposited(entries: Seq<EntryState>) -> int
    decreases entries.len(),
{
    if entries.len() == 0 {
        0
    } else {
        total_deposited(entries.drop_last()) + entries.last().deposited_sol_amount
    }
}

/// Outcome tokens held by all the entries.
pub open spec fn total_tokens(entries: Seq<EntryState>) -> int
    decreases entries.len(),
{
    if entries.len() == 0 {
        0
    } else {
        total_tokens(entries.drop_last()) + entries.last().token_balance
    }
}

/// What a claim of `entry` pays in a resolved market in which it backs the
/// winning side: nothing when it or its side holds no token.
pub open spec fn claim_payout(pool: PoolState, main: MainState, entry: EntryState) -> int {
    if winning_supply(pool) > 0 && entry.token_balance > 0 {
        payout_of(pool, main, entry)
    } else {
        0
    }
}

/// What the claims of all the entries pay together.
pub open spec fn total_claims(pool: PoolState, main: MainState, entries: Seq<EntryState>) -> int
    decreases entries.len(),
{
    if entries.len() == 0 {
        0
    } else {
        total_claims(pool, main, entries.drop_last()) + claim_payout(pool, main, entries.last())
    }
}

/// The profit shares of all the entries, without the 128-bit cap.
pub open spec fn total_shares(entries: Seq<EntryState>, profit: int, supply: int) -> int
    decreases entries.len(),
{
    if entries.len() == 0 {
        0
    } else {
        total_shares(entries.drop_last(), profit, supply) + entries.last().token_balance * profit
            / supply
    }
}

/// What the profit shares of all the entries add up to.
pub open spec fn total_profit_shares(pool: PoolState, main: MainState, entries: Seq<EntryState>) -> int
    decreases entries.len(),
{
    if entries.len() == 0 {
        0
    } else {
        total_profit_shares(pool, main, entries.drop_last()) + profit_share(
            pool,
            main,
            entries.last().token_balance,
        )
    }
}

proof fn lemma_total_deposited_update(entries: Seq<EntryState>, i: int, e: EntryState)
    requires
        0 <= i < entries.len(),
    ensures
        total_deposited(entries.update(i, e)) == total_deposited(entries)
            - entries[i].deposited_sol_amount + e.deposited_sol_amount,
    decreases entries.len(),
{
    let u = entries.update(i, e);
    if i == entries.len() - 1 {
        assert(u.drop_last() =~= entries.drop_last());
    } else {
        assert(u.drop_last() =~= entries.drop_last().update(i, e));
        lemma_total_deposited_update(entries.drop_last(), i, e);
    }
}

/// A deposit keeps a market's total reserve equal to what its entries
/// deposited: the market and the depositing entry grow by the same amount.
pub proof fn lemma_deposit_keeps_reserve_sum(
    pool: PoolState,
    entries: Seq<EntryState>,
    i: int,
    input: DepositInput,
    now: i64,
)
    requires
        0 <= i < entries.len(),
        pool.total_reserve == total_deposited(entries),
        deposit_outcome(pool, entries[i], input, now) is Ok,
    ensures
        ({
            let t = deposit_outcome(pool, entries[i], input, now)->Ok_0;
            pool_after_deposit(pool, input.is_yes, input.amount, t).total_reserve == total_deposited(
                entries.update(i, entry_after_deposit(entries[i], input.is_yes, input.amount, t)),
            )
        }),
{
    let t = deposit_outcome(pool, entries[i], input, now)->Ok_0;
    lemma_total_deposited_update(
        entries,
        i,
        entry_after_deposit(entries[i], input.is_yes, input.amount, t),
    );
}

/// Opening an entry keeps a market's total reserve equal to what its entries
/// deposited: the new entry holds nothing.
pub proof fn lemma_open_entry_keeps_reserve_sum(
    pool: PoolState,
    entries: Seq<EntryState>,
    user: Identity,
    bet_id: u64,
)
    requires
        pool.total_reserve == total_deposited(entries),
    ensures
        pool.total_reserve == total_deposited(entries.push(fresh_entry(user, bet_id))),
{
    assert(entries.push(fresh_entry(user, bet_id)).drop_last() =~= entries);
}

/// Claiming keeps a market's total reserve equal to what its entries
/// deposited: only the claim flag of the entry changes.
pub proof fn lemma_claim_keeps_reserve_sum(pool: PoolState, entries: Seq<EntryState>, i: int)
    requires
        0 <= i < entries.len(),
        pool.total_reserve == total_deposited(entries),
    ensures
        pool.total_reserve == total_deposited(
            entries.update(i, EntryState { is_claimed: true, ..entries[i] }),
        ),
{
    lemma_total_deposited_update(entries, i, EntryState { is_claimed: true, ..entries[i] });
}

proof fn lemma_claims_within_shares(pool: PoolState, main: MainState, entries: Seq<EntryState>)
    requires
        winning_supply(pool) > 0,
        available_profit(pool, main) >= 0,
    ensures
        total_claims(pool, main, entries) <= total_deposited(entries) + total_shares(
            entries,
            available_profit(pool, main),
            winning_supply(pool),
        ),
    decreases entries.len(),
{
    if entries.len() > 0 {
        lemma_claims_within_shares(pool, main, entries.drop_last());
        let e = entries.last();
        let ap = available_profit(pool, main);
        let ws = winning_supply(pool);
        let x = e.token_balance * ap;
        let capped = if x > u128::MAX { u128::MAX as int } else { x };
        assert(0 <= capped <= x) by (nonlinear_arith)
            requires
                e.token_balance >= 0,
                ap >= 0,
                x == e.token_balance * ap,
                capped == if x > u128::MAX { u128::MAX as int } else { x },
        ;
        assert(capped / ws <= x / ws) by (nonlinear_arith)
            requires
                0 <= capped <= x,
                ws > 0,
        ;
    }
}

proof fn lemma_shares_scaled(entries: Seq<EntryState>, profit: int, supply: int)
    requires
        supply > 0,
        profit >= 0,
    ensures
        total_shares(entries, profit, supply) * supply <= total_tokens(entries) * profit,
        total_shares(entries, profit, supply) >= 0,
    decreases entries.len(),
{
    if entries.len() > 0 {
        lemma_shares_scaled(entries.drop_last(), profit, supply);
        let t = entries.last().token_balance as int;
        let s = total_shares(entries.drop_last(), profit, supply);
        let tt = total_tokens(entries.drop_last());
        assert((s + t * profit / supply) * supply <= (tt + t) * profit && t * profit / supply >= 0)
            by (nonlinear_arith)
            requires
                s * supply <= tt * profit,
                supply > 0,
                profit >= 0,
                t >= 0,
        ;
    }
}

/// Winners' payouts and both fees together never exceed a market's reserve,
/// whenever the losing reserve covers the two fees.
///
/// `winners` are the entries that back the winning side: together they
/// deposited the winning reserve and hold the winning supply.
pub proof fn lemma_payouts_within_reserve(pool: PoolState, main: MainState, winners: Seq<EntryState>)
    requires
        pool.wf(),
        total_deposited(winners) == winning_reserve(pool),
        total_tokens(winners) == winning_supply(pool),
        creator_fee(pool, main) + platform_fee(pool, main) <= pool_total(pool) - winning_reserve(
            pool,
        ),
    ensures
        total_claims(pool, main, winners) + creator_fee(pool, main) + platform_fee(pool, main)
            <= pool.total_reserve,
{
    let ap = available_profit(pool, main);
    let ws = winning_supply(pool);
    let cf = creator_fee(pool, main);
    let pf = platform_fee(pool, main);
    let wr = winning_reserve(pool);
    assert(cf >= 0 && pf >= 0);
    assert(ap == pool_total(pool) - wr - cf - pf);
    if ws > 0 {
        lemma_claims_within_shares(pool, main, winners);
        lemma_shares_scaled(winners, ap, ws);
        let sh = total_shares(winners, ap, ws);
        assert(sh <= ap) by (nonlinear_arith)
            requires
                sh * ws <= ws * ap,
                ws > 0,
        ;
    } else {
        lemma_no_supply_no_claims(pool, main, winners);
    }
}

proof fn lemma_profit_shares_within_shares(pool: PoolState, main: MainState, entries: Seq<EntryState>)
    requires
        winning_supply(pool) > 0,
    ensures
        total_profit_shares(pool, main, entries) <= total_shares(
            entries,
            available_profit(pool, main),
            winning_supply(pool),
        ),
    decreases entries.len(),
{
    if entries.len() > 0 {
        lemma_profit_shares_within_shares(pool, main, entries.drop_last());
        let t = entries.last().token_balance as int;
        let ap = available_profit(pool, main);
        let ws = winning_supply(pool);
        let x = t * ap;
        let capped = if x > u128::MAX { u128::MAX as int } else { x };
        assert(ap >= 0);
        assert(0 <= capped <= x) by (nonlinear_arith)
            requires
                t >= 0,
                ap >= 0,
                x == t * ap,
                capped == if x > u128::MAX { u128::MAX as int } else { x },
        ;
        assert(capped / ws <= x / ws) by (nonlinear_arith)
            requires
                0 <= capped <= x,
                ws > 0,
        ;
        if ap == 0 {
            assert(x == 0) by (nonlinear_arith)
                requires
                    x == t * ap,
                    ap == 0,
            ;
        }
    }
}

/// The winners' profit shares together never exceed the available profit:
/// the losing reserve left after fees is never over-distributed, and what
/// rounding leaves stays in the vault.
///
/// `winners` are the entries that back the winning side and together hold
/// its whole outcome-token supply.
pub proof fn lemma_profit_shares_within_available(
    pool: PoolState,
    main: MainState,
    winners: Seq<EntryState>,
)
    requires
        winning_supply(pool) > 0,
        total_tokens(winners) == winning_supply(pool),
    ensures
        total_profit_shares(pool, main, winners) <= available_profit(pool, main),
{
    let ap = available_profit(pool, main);
    let ws = winning_supply(pool);
    assert(ap >= 0);
    lemma_profit_shares_within_shares(pool, main, winners);
    lemma_shares_scaled(winners, ap, ws);
    let sh = total_shares(winners, ap, ws);
    assert(sh <= ap) by (nonlinear_arith)
        requires
            sh * ws <= ws * ap,
            ws > 0,
    ;
}

proof fn lemma_no_supply_no_claims(pool: PoolState, main: MainState, entries: Seq<EntryState>)
    requires
        winning_supply(pool) == 0,
    ensures
        total_claims(pool, main, entries) == 0,
    decreases entries.len(),
{
    if entries.len() > 0 {
        lemma_no_supply_no_claims(pool, main, entries.drop_last());
    }
}

/// Each payout flag flips once: after an entry's claim no claim of it pays
/// again, after the creator fee is claimed no claim of it succeeds, and a
/// resolved market, whose platform fee is paid, cannot be resolved again.
pub proof fn lemma_claims_pay_once(
    main: MainState,
    pool: PoolState,
    entry: EntryState,
    caller: Identity,
    now: i64,
)
    ensures
        claim_outcome(main, pool, EntryState { is_claimed: true, ..entry }, now) == Err::<
            u64,
            BettingError,
        >(BettingError::AlreadyClaimed),
        creator_fee_error(PoolState { creator_fee_claimed: true, ..pool }, caller, now) is Some,
        resolve_error(main, PoolState { complete: true, platform_fee_claimed: true, ..pool }, caller, now)
            == Some(BettingError::BetComplete),
{
}

} // verus!

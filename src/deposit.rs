use vstd::prelude::*;

use crate::error::BettingError;
use crate::event::DepositEvent;
use crate::identity::Identity;
use crate::pricing::{calculate_token_amount_and_prices, mintable, tokens_for};
use crate::state::{
    chronological, last_n, EntryState, PoolHistoryState, PoolState, ProbabilityPoint, MAX_POINTS,
};

verus! {

/// A deposit of `amount` lamports on one side of market `bet_id`.
#[derive(Debug, Clone, Copy)]
pub struct DepositInput {
    pub bet_id: u64,
    pub is_yes: bool,
    pub amount: u64,
}

/// What a deposit yields: the tokens it mints, or the error that stops it.
pub open spec fn deposit_outcome(
    pool: PoolState,
    entry: EntryState,
    input: DepositInput,
    now: i64,
) -> Result<u64, BettingError> {
    let t = tokens_for(input.amount, input.is_yes, pool.yes_reserve, pool.no_reserve);
    let side_supply = if input.is_yes { pool.yes_supply } else { pool.no_supply };
    let side_reserve = if input.is_yes { pool.yes_reserve } else { pool.no_reserve };
    if pool.complete {
        Err(BettingError::BetComplete)
    } else if !pool.accepting_at(now) {
        Err(BettingError::BetEnded)
    } else if input.amount == 0 {
        Err(BettingError::InvalidBet)
    } else if entry.token_balance != 0 && entry.is_yes != input.is_yes {
        Err(BettingError::InvalidBet)
    } else if !mintable(input.amount, input.is_yes, pool.yes_reserve, pool.no_reserve) {
        Err(BettingError::MathOverflow)
    } else if pool.total_supply + t > u64::MAX || pool.total_reserve + input.amount > u64::MAX
        || side_supply + t > u64::MAX || side_reserve + input.amount > u64::MAX
        || entry.deposited_sol_amount + input.amount > u64::MAX || entry.token_balance + t
        > u64::MAX {
        Err(BettingError::MathOverflow)
    } else {
        Ok(t as u64)
    }
}

/// The market after `amount` lamports minted `tokens` on one side.
pub open spec fn pool_after_deposit(pool: PoolState, is_yes: bool, amount: u64, tokens: u64) -> PoolState {
    PoolState {
        total_supply: (pool.total_supply + tokens) as u64,
        total_reserve: (pool.total_reserve + amount) as u64,
        yes_supply: if is_yes { (pool.yes_supply + tokens) as u64 } else { pool.yes_supply },
        yes_reserve: if is_yes { (pool.yes_reserve + amount) as u64 } else { pool.yes_reserve },
        no_supply: if is_yes { pool.no_supply } else { (pool.no_supply + tokens) as u64 },
        no_reserve: if is_yes { pool.no_reserve } else { (pool.no_reserve + amount) as u64 },
        ..pool
    }
}

/// The entry after it deposited `amount` lamports for `tokens` on one side.
pub open spec fn entry_after_deposit(entry: EntryState, is_yes: bool, amount: u64, tokens: u64) -> EntryState {
    EntryState {
        deposited_sol_amount: (entry.deposited_sol_amount + amount) as u64,
        token_balance: (entry.token_balance + tokens) as u64,
        is_yes,
        ..entry
    }
}

/// The points of a history that was never seeded get a zero point at `now` first.
pub open spec fn seeded(points: Seq<ProbabilityPoint>, now: i64) -> Seq<ProbabilityPoint> {
    if points.len() == 0 {
        seq![ProbabilityPoint { timestamp: now, yes_reserve: 0, no_reserve: 0 }]
    } else {
        points
    }
}

/// The points after `p` was appended at `now`, keeping the newest `MAX_POINTS`.
pub open spec fn points_after(points: Seq<ProbabilityPoint>, now: i64, p: ProbabilityPoint) -> Seq<
    ProbabilityPoint,
> {
    last_n(seeded(points, now).push(p), MAX_POINTS as nat)
}

/// Appends `p` to the history, seeding a history that was never seeded, and
/// evicts the oldest points beyond `MAX_POINTS`.
fn record_point(history: &mut PoolHistoryState, pool_key: Identity, bet_id: u64, p: ProbabilityPoint)
    ensures
        final(history).points@ == points_after(old(history).points@, p.timestamp, p),
        old(history).points@.len() == 0 ==> final(history).pool == pool_key && final(history).bet_id
            == bet_id,
        old(history).points@.len() != 0 ==> final(history).pool == old(history).pool
            && final(history).bet_id == old(history).bet_id,
{
    if history.points.len() == 0 {
        history.bet_id = bet_id;
        history.pool = pool_key;
        history.points.push(ProbabilityPoint { timestamp: p.timestamp, yes_reserve: 0, no_reserve: 0 });
    }
    history.points.push(p);
    let len = history.points.len();
    if len > MAX_POINTS {
        let overflow = len - MAX_POINTS;
        let mut kept: Vec<ProbabilityPoint> = Vec::new();
        let mut i: usize = overflow;
        while i < len
            invariant
                overflow <= i <= len,
                len == history.points@.len(),
                kept@ == history.points@.subrange(overflow as int, i as int),
            decreases len - i,
        {
            kept.push(history.points[i]);
            i = i + 1;
        }
        history.points = kept;
    }
}

/// A history that holds no point after `p`'s time stays well formed once `p`
/// is recorded.
pub proof fn lemma_points_after_wf(points: Seq<ProbabilityPoint>, p: ProbabilityPoint)
    requires
        chronological(points),
        forall|i: int| 0 <= i < points.len() ==> #[trigger] points[i].timestamp <= p.timestamp,
    ensures
        1 <= points_after(points, p.timestamp, p).len() <= MAX_POINTS,
        chronological(points_after(points, p.timestamp, p)),
        points_after(points, p.timestamp, p).last() == p,
{
    let s = seeded(points, p.timestamp).push(p);
    assert(chronological(s));
    let r = points_after(points, p.timestamp, p);
    if s.len() > MAX_POINTS {
        assert forall|i: int, j: int| 0 <= i <= j < r.len() implies r[i].timestamp <= r[j].timestamp by {
            assert(r[i] == s[i + s.len() - MAX_POINTS]);
            assert(r[j] == s[j + s.len() - MAX_POINTS]);
        }
    }
}

/// Mints outcome tokens for a deposit on one side, credits the market and the
/// entry, and records the new reserves in the history. The host then moves
/// the deposited lamports from the user into the vault.
pub fn deposit(
    pool_state: &mut PoolState,
    entry_state: &mut EntryState,
    history_state: &mut PoolHistoryState,
    pool_key: Identity,
    input: DepositInput,
    now: i64,
) -> (r: Result<DepositEvent, BettingError>)
    ensures
        match r {
            Ok(ev) => {
                &&& deposit_outcome(*old(pool_state), *old(entry_state), input, now) == Ok::<
                    u64,
                    BettingError,
                >(ev.token_amount)
                &&& *final(pool_state) == pool_after_deposit(
                    *old(pool_state),
                    input.is_yes,
                    input.amount,
                    ev.token_amount,
                )
                &&& *final(entry_state) == entry_after_deposit(
                    *old(entry_state),
                    input.is_yes,
                    input.amount,
                    ev.token_amount,
                )
                &&& final(history_state).points@ == points_after(
                    old(history_state).points@,
                    now,
                    ProbabilityPoint {
                        timestamp: now,
                        yes_reserve: final(pool_state).yes_reserve,
                        no_reserve: final(pool_state).no_reserve,
                    },
                )
                &&& old(history_state).points@.len() == 0 ==> final(history_state).pool == pool_key
                    && final(history_state).bet_id == old(pool_state).bet_id
                &&& old(history_state).points@.len() != 0 ==> final(history_state).pool == old(
                    history_state,
                ).pool && final(history_state).bet_id == old(history_state).bet_id
                &&& ev == (DepositEvent {
                    user: old(entry_state).user,
                    bet_id: old(pool_state).bet_id,
                    sol_amount: input.amount,
                    token_amount: ev.token_amount,
                    is_yes: input.is_yes,
                    timestamp: now,
                })
                // the market invariant is kept
                &&& old(pool_state).wf() ==> final(pool_state).wf()
                // the history stays bounded, and chronological on a monotonic clock
                &&& 1 <= final(history_state).points@.len() <= MAX_POINTS
                &&& chronological(old(history_state).points@) && old(history_state).recorded_by(now)
                    ==> final(history_state).wf()
            },
            Err(e) => {
                &&& deposit_outcome(*old(pool_state), *old(entry_state), input, now) == Err::<
                    u64,
                    BettingError,
                >(e)
                &&& *final(pool_state) == *old(pool_state)
                &&& *final(entry_state) == *old(entry_state)
                &&& *final(history_state) == *old(history_state)
            },
        },
        // a resolved market takes no more deposits
        old(pool_state).complete ==> r == Err::<DepositEvent, BettingError>(
            BettingError::BetComplete,
        ),
        final(entry_state).is_claimed == old(entry_state).is_claimed,
{
    if pool_state.complete {
        return Err(BettingError::BetComplete);
    }
    if pool_state.end_timestamp >= 0 && !(pool_state.end_timestamp > now) {
        return Err(BettingError::BetEnded);
    }
    if input.amount == 0 {
        return Err(BettingError::InvalidBet);
    }
    if !(entry_state.token_balance == 0 || entry_state.is_yes == input.is_yes) {
        return Err(BettingError::InvalidBet);
    }
    let token_amount = match calculate_token_amount_and_prices(
        input.amount,
        input.is_yes,
        pool_state.yes_reserve,
        pool_state.no_reserve,
    ) {
        Ok((t, _yes_price, _no_price)) => t,
        Err(e) => {
            return Err(e);
        },
    };
    let total_supply = pool_state.total_supply.checked_add(token_amount);
    let total_reserve = pool_state.total_reserve.checked_add(input.amount);
    let side_supply = if input.is_yes {
        pool_state.yes_supply.checked_add(token_amount)
    } else {
        pool_state.no_supply.checked_add(token_amount)
    };
    let side_reserve = if input.is_yes {
        pool_state.yes_reserve.checked_add(input.amount)
    } else {
        pool_state.no_reserve.checked_add(input.amount)
    };
    let deposited = entry_state.deposited_sol_amount.checked_add(input.amount);
    let balance = entry_state.token_balance.checked_add(token_amount);
    let (total_supply, total_reserve, side_supply, side_reserve, deposited, balance) = match (
        total_supply,
        total_reserve,
        side_supply,
        side_reserve,
        deposited,
        balance,
    ) {
        (Some(a), Some(b), Some(c), Some(d), Some(e), Some(f)) => (a, b, c, d, e, f),
        _ => {
            return Err(BettingError::MathOverflow);
        },
    };

    pool_state.total_supply = total_supply;
    pool_state.total_reserve = total_reserve;
    if input.is_yes {
        pool_state.yes_supply = side_supply;
        pool_state.yes_reserve = side_reserve;
    } else {
        pool_state.no_supply = side_supply;
        pool_state.no_reserve = side_reserve;
    }
    entry_state.deposited_sol_amount = deposited;
    entry_state.token_balance = balance;
    entry_state.is_yes = input.is_yes;

    let point = ProbabilityPoint {
        timestamp: now,
        yes_reserve: pool_state.yes_reserve,
        no_reserve: pool_state.no_reserve,
    };
    proof {
        if chronological(old(history_state).points@) && old(history_state).recorded_by(now) {
            lemma_points_after_wf(old(history_state).points@, point);
        }
        let s = seeded(old(history_state).points@, now).push(point);
        assert(s.len() >= 1);
    }
    record_point(history_state, pool_key, pool_state.bet_id, point);
    Ok(DepositEvent {
        user: entry_state.user,
        bet_id: pool_state.bet_id,
        sol_amount: input.amount,
        token_amount,
        is_yes: input.is_yes,
        timestamp: now,
    })
}

} // verus!

use vstd::prelude::*;
use vstd::string::StrSliceExecFns;

use crate::error::BettingError;
use crate::event::{CompleteEvent, CreateEvent};
use crate::payout::{fee_lamports, market_fee, pool_total};
use crate::identity::Identity;
use crate::state::{EntryState, MainState, PoolHistoryState, PoolState, ProbabilityPoint, Winner};

verus! {

/// Longest title a market may carry, in characters.
pub const MAX_TITLE_LEN: usize = 100;

/// Longest description a market may carry, in characters.
pub const MAX_DESCRIPTION_LEN: usize = 500;

/// The lowercase hexadecimal digit of `d` (below sixteen).
pub open spec fn hex_digit(d: int) -> char {
    seq!['0', '1', '2', '3', '4', '5', '6', '7', '8', '9', 'a', 'b', 'c', 'd', 'e', 'f'][d]
}

/// `n` in lowercase hexadecimal, without leading zeros.
pub open spec fn hex_of(n: nat) -> Seq<char>
    decreases n,
{
    if n < 16 {
        seq![hex_digit(n as int)]
    } else {
        hex_of(n / 16).push(hex_digit((n % 16) as int))
    }
}

/// The 64-bit two's-complement pattern of `t`.
pub open spec fn twos_complement(t: i64) -> nat {
    if t >= 0 {
        t as nat
    } else {
        (t + 0x1_0000_0000_0000_0000) as nat
    }
}

/// The shareable market tag: bet id, creation time and ledger slot in
/// lowercase hexadecimal, joined by dashes.
pub open spec fn share_uuid_text(bet_id: u64, timestamp: i64, slot: u64) -> Seq<char> {
    hex_of(bet_id as nat) + seq!['-'] + hex_of(twos_complement(timestamp)) + seq!['-'] + hex_of(
        slot as nat,
    )
}

/// Relies on std's `format!` with `{:x}`: lowercase hexadecimal with no
/// leading zeros, a negative `i64` written in two's complement.
#[verifier::external_body]
fn format_share_uuid(bet_id: u64, timestamp: i64, slot: u64) -> (r: String)
    ensures
        r@ == share_uuid_text(bet_id, timestamp, slot),
{
    format!("{:x}-{:x}-{:x}", bet_id, timestamp, slot)
}

/// A new market's question, deadline (negative for open-ended) and arbiter.
#[derive(Debug, Clone)]
pub struct CreatePoolInput {
    pub title: String,
    pub description: String,
    pub end_timestamp: i64,
    pub referee: Identity,
}

/// The error that stops a market from being created, if any.
pub open spec fn create_error(main: MainState, title: Seq<char>, description: Seq<char>) -> Option<
    BettingError,
> {
    if !main.initialized {
        Some(BettingError::Uninitialized)
    } else if title.len() > MAX_TITLE_LEN {
        Some(BettingError::TitleTooLong)
    } else if description.len() > MAX_DESCRIPTION_LEN {
        Some(BettingError::DescriptionTooLong)
    } else if title.len() == 0 {
        Some(BettingError::TitleEmpty)
    } else if description.len() == 0 {
        Some(BettingError::DescriptionEmpty)
    } else if main.current_bet_id == u64::MAX {
        Some(BettingError::MathOverflow)
    } else {
        None
    }
}

/// Opens market number `current_bet_id` with empty reserves, seeds its history
/// with one zero point at `now`, and advances the registry's counter.
pub fn create_pool(
    main_state: &mut MainState,
    creator: Identity,
    pool_key: Identity,
    input: CreatePoolInput,
    now: i64,
    slot: u64,
) -> (r: Result<(PoolState, PoolHistoryState, CreateEvent), BettingError>)
    ensures
        match r {
            Ok((pool, history, ev)) => {
                &&& create_error(*old(main_state), input.title@, input.description@) is None
                &&& *final(main_state) == (MainState {
                    current_bet_id: (old(main_state).current_bet_id + 1) as u64,
                    ..*old(main_state)
                })
                &&& pool.creator == creator
                &&& pool.bet_id == old(main_state).current_bet_id
                &&& pool.initial_price == old(main_state).initial_price
                &&& pool.scale_factor == old(main_state).scale_factor
                &&& pool.total_supply == 0 && pool.total_reserve == 0
                &&& pool.yes_supply == 0 && pool.yes_reserve == 0
                &&& pool.no_supply == 0 && pool.no_reserve == 0
                &&& pool.end_timestamp == input.end_timestamp
                &&& pool.created_timestamp == now
                &&& pool.referee == input.referee
                &&& pool.title@ == input.title@
                &&& pool.description@ == input.description@
                &&& pool.share_uuid@ == share_uuid_text(old(main_state).current_bet_id, now, slot)
                &&& pool.winner == Winner::Unresolved
                &&& !pool.complete && !pool.creator_fee_claimed && !pool.platform_fee_claimed
                &&& pool.wf()
                &&& history.pool == pool_key
                &&& history.bet_id == pool.bet_id
                &&& history.points@ == seq![
                    ProbabilityPoint { timestamp: now, yes_reserve: 0, no_reserve: 0 },
                ]
                &&& history.wf()
                &&& ev.creator == creator && ev.bet_id == pool.bet_id
                &&& ev.title@ == input.title@ && ev.description@ == input.description@
                &&& ev.end_timestamp == input.end_timestamp && ev.referee == input.referee
                &&& ev.share_uuid@ == pool.share_uuid@ && ev.timestamp == now
            },
            Err(e) => {
                &&& create_error(*old(main_state), input.title@, input.description@) == Some(e)
                &&& *final(main_state) == *old(main_state)
            },
        },
{
    if !main_state.initialized {
        return Err(BettingError::Uninitialized);
    }
    let title_len = input.title.as_str().unicode_len();
    let description_len = input.description.as_str().unicode_len();
    if title_len > MAX_TITLE_LEN {
        return Err(BettingError::TitleTooLong);
    }
    if description_len > MAX_DESCRIPTION_LEN {
        return Err(BettingError::DescriptionTooLong);
    }
    if title_len == 0 {
        return Err(BettingError::TitleEmpty);
    }
    if description_len == 0 {
        return Err(BettingError::DescriptionEmpty);
    }
    if main_state.current_bet_id == u64::MAX {
        return Err(BettingError::MathOverflow);
    }
    let bet_id = main_state.current_bet_id;
    let share_uuid = format_share_uuid(bet_id, now, slot);
    let pool = PoolState {
        creator,
        bet_id,
        initial_price: main_state.initial_price,
        scale_factor: main_state.scale_factor,
        total_supply: 0,
        total_reserve: 0,
        yes_supply: 0,
        yes_reserve: 0,
        no_supply: 0,
        no_reserve: 0,
        end_timestamp: input.end_timestamp,
        created_timestamp: now,
        referee: input.referee,
        title: input.title.clone(),
        description: input.description.clone(),
        share_uuid: share_uuid.clone(),
        winner: Winner::Unresolved,
        complete: false,
        creator_fee_claimed: false,
        platform_fee_claimed: false,
    };
    let mut points: Vec<ProbabilityPoint> = Vec::new();
    points.push(ProbabilityPoint { timestamp: now, yes_reserve: 0, no_reserve: 0 });
    let history = PoolHistoryState { pool: pool_key, bet_id, points };
    main_state.current_bet_id = bet_id + 1;
    let event = CreateEvent {
        creator,
        bet_id,
        title: input.title,
        description: input.description,
        end_timestamp: input.end_timestamp,
        referee: input.referee,
        share_uuid,
        timestamp: now,
    };
    proof {
        assert(history.points@ =~= seq![
            ProbabilityPoint { timestamp: now, yes_reserve: 0, no_reserve: 0 },
        ]);
    }
    Ok((pool, history, event))
}

/// A resolution of market `bet_id` in favour of one side.
#[derive(Debug, Clone, Copy)]
pub struct SetWinnerInput {
    pub bet_id: u64,
    pub is_yes: bool,
}

/// The error that stops `caller` from resolving the market at `now`, if any.
pub open spec fn resolve_error(main: MainState, pool: PoolState, caller: Identity, now: i64) -> Option<
    BettingError,
> {
    if pool.complete {
        Some(BettingError::BetComplete)
    } else if caller.key() != pool.referee.key() && caller.key() != main.owner.key() {
        Some(BettingError::Unauthorized)
    } else if !pool.ended_at(now) {
        Some(BettingError::BetNotEnded)
    } else {
        None
    }
}

/// Resolves the market: records the winner, completes it and flags the
/// platform fee as paid. Returns the event and the platform fee that the host
/// moves from the vault to the registry owner (nothing moves when it is zero).
pub fn set_winner(
    main_state: &MainState,
    pool_state: &mut PoolState,
    referee: Identity,
    input: SetWinnerInput,
    now: i64,
) -> (r: Result<(CompleteEvent, u64), BettingError>)
    ensures
        match r {
            Ok((ev, fee)) => {
                &&& resolve_error(*main_state, *old(pool_state), referee, now) is None
                &&& *final(pool_state) == (PoolState {
                    complete: true,
                    winner: if input.is_yes { Winner::Yes } else { Winner::No },
                    platform_fee_claimed: true,
                    ..*old(pool_state)
                })
                &&& fee == fee_lamports(pool_total(*old(pool_state)), main_state.platform_fee_percent)
                &&& ev == (CompleteEvent {
                    referee,
                    bet_id: input.bet_id,
                    winner: final(pool_state).winner,
                    timestamp: now,
                })
                &&& old(pool_state).wf() ==> final(pool_state).wf()
            },
            Err(e) => {
                &&& resolve_error(*main_state, *old(pool_state), referee, now) == Some(e)
                &&& *final(pool_state) == *old(pool_state)
            },
        },
        // resolution happens once
        old(pool_state).complete ==> r == Err::<(CompleteEvent, u64), BettingError>(
            BettingError::BetComplete,
        ),
        final(pool_state).balances() == old(pool_state).balances(),
{
    if pool_state.complete {
        return Err(BettingError::BetComplete);
    }
    if !(pool_state.referee == referee || main_state.owner == referee) {
        return Err(BettingError::Unauthorized);
    }
    if pool_state.end_timestamp >= 0 && !(pool_state.end_timestamp < now) {
        return Err(BettingError::BetNotEnded);
    }
    pool_state.complete = true;
    pool_state.winner = if input.is_yes {
        Winner::Yes
    } else {
        Winner::No
    };
    let platform_fee = market_fee(pool_state, main_state.platform_fee_percent);
    pool_state.platform_fee_claimed = true;
    let event = CompleteEvent { referee, bet_id: input.bet_id, winner: pool_state.winner, timestamp: now };
    Ok((event, platform_fee))
}

/// Changes to a live market; `None` leaves a field as it is.
#[derive(Debug, Clone)]
pub struct UpdatePoolInput {
    pub bet_id: u64,
    pub title: Option<String>,
    pub description: Option<String>,
    pub end_timestamp: Option<i64>,
    pub referee: Option<Identity>,
}

/// The error a new title brings, if any.
pub open spec fn title_error(title: Option<String>) -> Option<BettingError> {
    match title {
        Some(t) => if t@.len() > MAX_TITLE_LEN {
            Some(BettingError::TitleTooLong)
        } else if t@.len() == 0 {
            Some(BettingError::TitleEmpty)
        } else {
            None
        },
        None => None,
    }
}

/// The error a new description brings, if any.
pub open spec fn description_error(description: Option<String>) -> Option<BettingError> {
    match description {
        Some(d) => if d@.len() > MAX_DESCRIPTION_LEN {
            Some(BettingError::DescriptionTooLong)
        } else if d@.len() == 0 {
            Some(BettingError::DescriptionEmpty)
        } else {
            None
        },
        None => None,
    }
}

/// The error that stops `caller` from applying `input`, if any.
pub open spec fn update_error(
    main: MainState,
    pool: PoolState,
    caller: Identity,
    input: UpdatePoolInput,
) -> Option<BettingError> {
    if caller.key() != pool.creator.key() && caller.key() != main.owner.key() {
        Some(BettingError::Unauthorized)
    } else if pool.complete {
        Some(BettingError::BetComplete)
    } else if title_error(input.title) is Some {
        title_error(input.title)
    } else {
        description_error(input.description)
    }
}

/// The market with the given fields of `input` written over it.
pub open spec fn pool_after_update(pool: PoolState, input: UpdatePoolInput) -> PoolState {
    PoolState {
        title: match input.title {
            Some(t) => t,
            None => pool.title,
        },
        description: match input.description {
            Some(d) => d,
            None => pool.description,
        },
        end_timestamp: match input.end_timestamp {
            Some(t) => t,
            None => pool.end_timestamp,
        },
        referee: match input.referee {
            Some(r) => r,
            None => pool.referee,
        },
        ..pool
    }
}

fn check_title(title: &Option<String>) -> (r: Result<(), BettingError>)
    ensures
        match r {
            Ok(()) => title_error(*title) is None,
            Err(e) => title_error(*title) == Some(e),
        },
{
    match title {
        Some(t) => {
            let n = t.as_str().unicode_len();
            if n > MAX_TITLE_LEN {
                Err(BettingError::TitleTooLong)
            } else if n == 0 {
                Err(BettingError::TitleEmpty)
            } else {
                Ok(())
            }
        },
        None => Ok(()),
    }
}

fn check_description(description: &Option<String>) -> (r: Result<(), BettingError>)
    ensures
        match r {
            Ok(()) => description_error(*description) is None,
            Err(e) => description_error(*description) == Some(e),
        },
{
    match description {
        Some(d) => {
            let n = d.as_str().unicode_len();
            if n > MAX_DESCRIPTION_LEN {
                Err(BettingError::DescriptionTooLong)
            } else if n == 0 {
                Err(BettingError::DescriptionEmpty)
            } else {
                Ok(())
            }
        },
        None => Ok(()),
    }
}

/// Lets the creator or the platform owner rewrite the title, description,
/// deadline or arbiter of a market that is not resolved. Nothing changes
/// unless every given field is valid.
pub fn update_pool(
    main_state: &MainState,
    pool_state: &mut PoolState,
    updater: Identity,
    input: UpdatePoolInput,
) -> (r: Result<(), BettingError>)
    ensures
        match r {
            Ok(()) => {
                &&& update_error(*main_state, *old(pool_state), updater, input) is None
                &&& *final(pool_state) == pool_after_update(*old(pool_state), input)
                &&& old(pool_state).wf() ==> final(pool_state).wf()
            },
            Err(e) => {
                &&& update_error(*main_state, *old(pool_state), updater, input) == Some(e)
                &&& *final(pool_state) == *old(pool_state)
            },
        },
        old(pool_state).complete ==> *final(pool_state) == *old(pool_state),
        final(pool_state).balances() == old(pool_state).balances(),
{
    if !(pool_state.creator == updater || main_state.owner == updater) {
        return Err(BettingError::Unauthorized);
    }
    if pool_state.complete {
        return Err(BettingError::BetComplete);
    }
    match check_title(&input.title) {
        Ok(()) => {},
        Err(e) => {
            return Err(e);
        },
    }
    match check_description(&input.description) {
        Ok(()) => {},
        Err(e) => {
            return Err(e);
        },
    }
    let UpdatePoolInput { bet_id: _, title, description, end_timestamp, referee } = input;
    if let Some(t) = title {
        pool_state.title = t;
    }
    if let Some(d) = description {
        pool_state.description = d;
    }
    if let Some(t) = end_timestamp {
        pool_state.end_timestamp = t;
    }
    if let Some(r) = referee {
        pool_state.referee = r;
    }
    Ok(())
}

/// Opening of the caller's entry in market `bet_id`.
#[derive(Debug, Clone, Copy)]
pub struct CreateEntryInput {
    pub bet_id: u64,
}

/// The error that stops an entry from being opened at `now`, if any.
pub open spec fn entry_error(pool: PoolState, now: i64) -> Option<BettingError> {
    if pool.complete {
        Some(BettingError::BetComplete)
    } else if !pool.accepting_at(now) {
        Some(BettingError::BetEnded)
    } else {
        None
    }
}

/// A fresh entry: nothing deposited, no tokens, not claimed.
pub open spec fn fresh_entry(user: Identity, bet_id: u64) -> EntryState {
    EntryState {
        user,
        bet_id,
        deposited_sol_amount: 0,
        token_balance: 0,
        is_yes: true,
        is_claimed: false,
    }
}

/// Opens `user`'s entry in a live market. An entry that already exists is
/// kept as it is, so repeating the call changes nothing.
pub fn create_entry(
    pool_state: &PoolState,
    entry_state: &mut Option<EntryState>,
    user: Identity,
    input: CreateEntryInput,
    now: i64,
) -> (r: Result<(), BettingError>)
    ensures
        match r {
            Ok(()) => {
                &&& entry_error(*pool_state, now) is None
                &&& *final(entry_state) == match *old(entry_state) {
                    Some(e) => Some(e),
                    None => Some(fresh_entry(user, input.bet_id)),
                }
            },
            Err(e) => {
                &&& entry_error(*pool_state, now) == Some(e)
                &&& *final(entry_state) == *old(entry_state)
            },
        },
{
    if pool_state.complete {
        return Err(BettingError::BetComplete);
    }
    if pool_state.end_timestamp >= 0 && !(pool_state.end_timestamp > now) {
        return Err(BettingError::BetEnded);
    }
    if entry_state.is_none() {
        *entry_state = Some(
            EntryState {
                user,
                bet_id: input.bet_id,
                deposited_sol_amount: 0,
                token_balance: 0,
                is_yes: true,
                is_claimed: false,
            },
        );
    }
    Ok(())
}

} // verus!

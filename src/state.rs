use vstd::prelude::*;

use crate::identity::Identity;

verus! {

/// Most probability points a history keeps; older ones are evicted first.
pub const MAX_POINTS: usize = 40;

/// The process-wide registry: platform owner, pricing constants, fees in
/// basis points and the counter that numbers markets.
#[derive(Debug, Clone, Copy)]
pub struct MainState {
    pub initialized: bool,
    pub owner: Identity,
    pub scale_factor: u64,
    pub initial_price: u64,
    pub current_bet_id: u64,
    pub creator_fee_percent: u64,
    pub platform_fee_percent: u64,
}

/// Outcome of a market: none yet, or the side the arbiter chose.
#[derive(Debug, Clone, Copy, PartialEq, Eq, Structural)]
pub enum Winner {
    Unresolved,
    Yes,
    No,
}

impl Winner {
    /// The wire form of the outcome: "yes", "no", or empty while unresolved.
    pub fn as_str(&self) -> (r: &'static str)
        ensures
            r@ == winner_text(*self),
    {
        match self {
            Winner::Unresolved => "",
            Winner::Yes => "yes",
            Winner::No => "no",
        }
    }
}

pub open spec fn winner_text(w: Winner) -> Seq<char> {
    match w {
        Winner::Unresolved => ""@,
        Winner::Yes => "yes"@,
        Winner::No => "no"@,
    }
}

/// One market: identity, deadline, two-sided reserves and outcome-token
/// supplies, and its resolution flags.
#[derive(Debug, Clone)]
pub struct PoolState {
    pub creator: Identity,
    pub bet_id: u64,
    pub initial_price: u64,
    pub scale_factor: u64,
    pub total_supply: u64,
    pub total_reserve: u64,
    pub yes_supply: u64,
    pub yes_reserve: u64,
    pub no_supply: u64,
    pub no_reserve: u64,
    /// A negative value makes the market open-ended.
    pub end_timestamp: i64,
    pub created_timestamp: i64,
    pub referee: Identity,
    pub title: String,
    pub description: String,
    pub share_uuid: String,
    pub winner: Winner,
    pub complete: bool,
    pub creator_fee_claimed: bool,
    pub platform_fee_claimed: bool,
}

impl PoolState {
    /// The reserves and supplies: (total, yes, no) supply, then (total, yes, no) reserve.
    pub open spec fn balances(&self) -> (u64, u64, u64, u64, u64, u64) {
        (
            self.total_supply,
            self.yes_supply,
            self.no_supply,
            self.total_reserve,
            self.yes_reserve,
            self.no_reserve,
        )
    }

    /// Totals are the sums of the two sides.
    pub open spec fn balanced(&self) -> bool {
        &&& self.total_supply == self.yes_supply + self.no_supply
        &&& self.total_reserve == self.yes_reserve + self.no_reserve
    }

    /// The market invariant: balanced totals, a winner exactly when complete,
    /// and fee flags that only a completed market can carry.
    pub open spec fn wf(&self) -> bool {
        &&& self.balanced()
        &&& self.complete <==> self.winner != Winner::Unresolved
        &&& self.complete ==> self.platform_fee_claimed
        &&& self.creator_fee_claimed ==> self.complete
        &&& self.platform_fee_claimed ==> self.complete
    }

    pub open spec fn open_ended(&self) -> bool {
        self.end_timestamp < 0
    }

    /// Entries and deposits are accepted at `now`.
    pub open spec fn accepting_at(&self, now: i64) -> bool {
        self.end_timestamp < 0 || now < self.end_timestamp
    }

    /// Resolution and claims are allowed at `now`.
    pub open spec fn ended_at(&self, now: i64) -> bool {
        self.end_timestamp < 0 || self.end_timestamp < now
    }

    /// A market without a deadline, resolvable at any time.
    pub fn is_open_ended(&self) -> (r: bool)
        ensures
            r == self.open_ended(),
    {
        self.end_timestamp < 0
    }
}

/// A snapshot of both reserves at a moment.
#[derive(Debug, Clone, Copy, PartialEq, Eq, Structural)]
pub struct ProbabilityPoint {
    pub timestamp: i64,
    pub yes_reserve: u64,
    pub no_reserve: u64,
}

/// The bounded, chronological series of probability points of one market.
#[derive(Debug, Clone)]
pub struct PoolHistoryState {
    pub pool: Identity,
    pub bet_id: u64,
    pub points: Vec<ProbabilityPoint>,
}

/// Timestamps never decrease along the sequence.
pub open spec fn chronological(s: Seq<ProbabilityPoint>) -> bool {
    forall|i: int, j: int| 0 <= i <= j < s.len() ==> s[i].timestamp <= s[j].timestamp
}

/// The last `n` elements of `s`, or all of it when it is shorter.
pub open spec fn last_n<A>(s: Seq<A>, n: nat) -> Seq<A> {
    if s.len() > n {
        s.subrange(s.len() - n, s.len() as int)
    } else {
        s
    }
}

impl PoolHistoryState {
    /// Between one and `MAX_POINTS` points, in chronological order.
    pub open spec fn wf(&self) -> bool {
        &&& 1 <= self.points@.len() <= MAX_POINTS
        &&& chronological(self.points@)
    }

    /// No point lies after `now`.
    pub open spec fn recorded_by(&self, now: i64) -> bool {
        forall|i: int| 0 <= i < self.points@.len() ==> #[trigger] self.points@[i].timestamp <= now
    }
}

/// One participant's position in one market.
#[derive(Debug, Clone, Copy)]
pub struct EntryState {
    pub user: Identity,
    pub bet_id: u64,
    pub deposited_sol_amount: u64,
    pub token_balance: u64,
    pub is_yes: bool,
    pub is_claimed: bool,
}

} // verus!

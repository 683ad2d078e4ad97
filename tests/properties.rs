use betting_platform::{
    claim, claim_creator_fee, create_pool, deposit, init_main_state, set_winner, update_pool,
    BettingError, ClaimCreatorFeeInput, ClaimInput, CreatePoolInput, DepositInput, EntryState,
    Identity, MainState, PoolState, SetWinnerInput, UpdatePoolInput,
};

const NOW: i64 = 1_700_000_000;

fn id(b: u8) -> Identity {
    Identity::new([b; 32])
}

/// A small linear congruential generator, so that every run samples the same cases.
struct Lcg(u64);

impl Lcg {
    fn next(&mut self) -> u64 {
        self.0 = self.0.wrapping_mul(6364136223846793005).wrapping_add(1442695040888963407);
        self.0 >> 11
    }
}

fn balanced(p: &PoolState) -> bool {
    p.total_supply == p.yes_supply + p.no_supply && p.total_reserve == p.yes_reserve + p.no_reserve
}

fn run_case(seed: u64) {
    let mut rng = Lcg(seed);
    let mut main = MainState::uninitialized();
    init_main_state(&mut main, id(1)).unwrap();
    let input = CreatePoolInput {
        title: "Sampled".to_string(),
        description: "Sampled market".to_string(),
        end_timestamp: -1,
        referee: id(2),
    };
    let (mut pool, mut history, _) = create_pool(&mut main, id(3), id(9), input, NOW, 0).unwrap();
    let users = 1 + (rng.next() % 6) as usize;
    let mut entries: Vec<EntryState> = (0..users)
        .map(|u| EntryState {
            user: id(10 + u as u8),
            bet_id: 0,
            deposited_sol_amount: 0,
            token_balance: 0,
            is_yes: true,
            is_claimed: false,
        })
        .collect();
    let deposits = 1 + rng.next() % 50;
    let mut now = NOW;
    for _ in 0..deposits {
        now += (rng.next() % 3) as i64;
        let u = (rng.next() as usize) % users;
        let is_yes = rng.next() % 2 == 0;
        let amount = 1 + rng.next() % 1_000_000_000_000;
        let before = entries[u];
        let r = deposit(&mut pool, &mut entries[u], &mut history, id(9), DepositInput { bet_id: 0, is_yes, amount }, now);
        if before.token_balance > 0 && before.is_yes != is_yes {
            assert_eq!(r.map(|_| ()), Err(BettingError::InvalidBet));
        } else {
            assert!(r.is_ok());
        }
        assert!(balanced(&pool));
        let deposited: u64 = entries.iter().map(|e| e.deposited_sol_amount).sum();
        assert_eq!(pool.total_reserve, deposited);
        assert!(!history.points.is_empty() && history.points.len() <= 40);
        for w in history.points.windows(2) {
            assert!(w[0].timestamp <= w[1].timestamp);
        }
    }
    let is_yes = rng.next() % 2 == 0;
    let (_, platform_fee) = set_winner(&main, &mut pool, id(2), SetWinnerInput { bet_id: 0, is_yes }, now).unwrap();
    let settled = pool.clone();
    // a resolved market takes no more deposits or updates
    let r = deposit(&mut pool, &mut entries[0], &mut history, id(9), DepositInput { bet_id: 0, is_yes, amount: 5 }, now);
    assert_eq!(r.map(|_| ()), Err(BettingError::BetComplete));
    let change = UpdatePoolInput { bet_id: 0, title: None, description: None, end_timestamp: Some(1), referee: None };
    assert_eq!(update_pool(&main, &mut pool, id(3), change), Err(BettingError::BetComplete));
    let creator_fee = claim_creator_fee(&main, &mut pool, id(3), ClaimCreatorFeeInput { bet_id: 0 }, now).unwrap();
    let mut paid: u128 = 0;
    for e in entries.iter_mut() {
        let principal = e.deposited_sol_amount;
        let r = claim(&main, &pool, e, ClaimInput { bet_id: 0 }, now);
        if principal == 0 {
            continue;
        }
        if e.is_yes != is_yes {
            assert_eq!(r, Err(BettingError::WrongBet));
            assert!(!e.is_claimed);
        } else {
            let amount = r.unwrap();
            assert!(amount >= principal);
            assert!(e.is_claimed);
            paid += amount as u128;
            assert_eq!(claim(&main, &pool, e, ClaimInput { bet_id: 0 }, now), Err(BettingError::AlreadyClaimed));
        }
    }
    assert_eq!(pool.total_reserve, settled.total_reserve);
    assert_eq!(pool.yes_supply, settled.yes_supply);
    assert_eq!(pool.no_supply, settled.no_supply);
    let losing = if is_yes { pool.no_reserve } else { pool.yes_reserve };
    if (creator_fee as u128) + (platform_fee as u128) <= losing as u128 {
        assert!(paid + creator_fee as u128 + platform_fee as u128 <= pool.total_reserve as u128);
    }
}

#[test]
fn sampled_deposit_sequences_keep_invariants() {
    for seed in 0..200u64 {
        run_case(seed);
    }
}

#[test]
fn payouts_within_reserve_when_losers_cover_fees() {
    let mut main = MainState::uninitialized();
    init_main_state(&mut main, id(1)).unwrap();
    let input = CreatePoolInput {
        title: "T".to_string(),
        description: "D".to_string(),
        end_timestamp: -1,
        referee: id(2),
    };
    let (mut pool, mut history, _) = create_pool(&mut main, id(3), id(9), input, NOW, 0).unwrap();
    let mut es: Vec<EntryState> = (0..3)
        .map(|u| EntryState { user: id(10 + u), bet_id: 0, deposited_sol_amount: 0, token_balance: 0, is_yes: true, is_claimed: false })
        .collect();
    let plan = [(0usize, true, 3_000_000_007u64), (1, true, 5_000_000_003), (2, false, 7_000_000_001), (0, true, 11)];
    for (u, side, amount) in plan {
        deposit(&mut pool, &mut es[u], &mut history, id(9), DepositInput { bet_id: 0, is_yes: side, amount }, NOW).unwrap();
    }
    let (_, pf) = set_winner(&main, &mut pool, id(2), SetWinnerInput { bet_id: 0, is_yes: true }, NOW).unwrap();
    let cf = claim_creator_fee(&main, &mut pool, id(3), ClaimCreatorFeeInput { bet_id: 0 }, NOW).unwrap();
    let a = claim(&main, &pool, &mut es[0], ClaimInput { bet_id: 0 }, NOW).unwrap();
    let b = claim(&main, &pool, &mut es[1], ClaimInput { bet_id: 0 }, NOW).unwrap();
    assert_eq!(pf, 300_000_000);
    assert_eq!(cf, 150_000_000);
    assert!(a + b + cf + pf <= pool.total_reserve);
    // only rounding is left in the vault
    assert!(pool.total_reserve - (a + b + cf + pf) <= 2);
}

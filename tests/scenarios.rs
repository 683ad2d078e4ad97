use betting_platform::pricing::calculate_token_amount_and_prices;
use betting_platform::{
    claim, claim_creator_fee, create_entry, create_pool, deposit, init_main_state, set_winner,
    update_pool, BettingError, ClaimCreatorFeeInput, ClaimInput, CreateEntryInput,
    CreatePoolInput, DepositInput, EntryState, Identity, MainState, PoolHistoryState, PoolState,
    SetWinnerInput, UpdatePoolInput,
};

const T0: i64 = 1_700_000_000;

fn id(b: u8) -> Identity {
    Identity::new([b; 32])
}

struct Market {
    main: MainState,
    pool: PoolState,
    history: PoolHistoryState,
}

fn market(end_timestamp: i64) -> Market {
    let mut main = MainState::uninitialized();
    init_main_state(&mut main, id(1)).unwrap();
    let input = CreatePoolInput {
        title: "Will it rain tomorrow?".to_string(),
        description: "Resolves yes if any rain is recorded.".to_string(),
        end_timestamp,
        referee: id(2),
    };
    let (pool, history, _) = create_pool(&mut main, id(3), id(9), input, T0, 77).unwrap();
    Market { main, pool, history }
}

fn entry(m: &Market, user: u8) -> EntryState {
    let mut e = None;
    create_entry(&m.pool, &mut e, id(user), CreateEntryInput { bet_id: m.pool.bet_id }, T0)
        .unwrap();
    e.unwrap()
}

fn put(m: &mut Market, e: &mut EntryState, is_yes: bool, amount: u64, now: i64) -> Result<u64, BettingError> {
    let input = DepositInput { bet_id: m.pool.bet_id, is_yes, amount };
    deposit(&mut m.pool, e, &mut m.history, id(9), input, now).map(|ev| ev.token_amount)
}

#[test]
fn first_deposit_sets_baseline() {
    let mut m = market(T0 + 3600);
    let mut e = entry(&m, 10);
    let (tokens, yes_price, no_price) =
        calculate_token_amount_and_prices(1_000_000_000, true, 0, 0).unwrap();
    assert_eq!(yes_price, 500_000_000);
    assert_eq!(no_price, 500_000_000);
    assert_eq!(tokens, 2_000_000_000);
    assert_eq!(put(&mut m, &mut e, true, 1_000_000_000, T0 + 1), Ok(2_000_000_000));
    assert_eq!(m.pool.yes_reserve, 1_000_000_000);
    assert_eq!(m.pool.yes_supply, 2_000_000_000);
    assert_eq!(m.pool.no_reserve, 0);
    assert_eq!(m.pool.total_reserve, 1_000_000_000);
    assert_eq!(m.history.points.len(), 2);
    assert_eq!(e.deposited_sol_amount, 1_000_000_000);
    assert_eq!(e.token_balance, 2_000_000_000);
}

#[test]
fn side_switch_rejected() {
    let mut m = market(T0 + 3600);
    let mut e = entry(&m, 10);
    put(&mut m, &mut e, true, 1_000_000_000, T0 + 1).unwrap();
    let before = m.pool.clone();
    assert_eq!(put(&mut m, &mut e, false, 1_000_000_000, T0 + 2), Err(BettingError::InvalidBet));
    assert_eq!(m.pool.no_reserve, before.no_reserve);
    assert_eq!(m.pool.total_reserve, before.total_reserve);
    assert_eq!(m.history.points.len(), 2);
}

#[test]
fn resolution_before_deadline_rejected() {
    let mut m = market(T0 + 3600);
    let input = SetWinnerInput { bet_id: m.pool.bet_id, is_yes: true };
    let r = set_winner(&m.main, &mut m.pool, id(2), input, T0 + 1800);
    assert_eq!(r.map(|(_, fee)| fee), Err(BettingError::BetNotEnded));
    assert!(!m.pool.complete);
}

fn open_ended_resolved() -> (Market, EntryState, EntryState) {
    let mut m = market(-1);
    let mut a = entry(&m, 10);
    let mut b = entry(&m, 11);
    assert_eq!(put(&mut m, &mut a, true, 1, T0 + 1), Ok(2));
    assert_eq!(put(&mut m, &mut b, false, 1, T0 + 2), Ok(2));
    let input = SetWinnerInput { bet_id: m.pool.bet_id, is_yes: true };
    let (ev, fee) = set_winner(&m.main, &mut m.pool, id(2), input, T0 + 3).unwrap();
    assert_eq!(fee, 0);
    assert_eq!(ev.winner.as_str(), "yes");
    (m, a, b)
}

#[test]
fn open_ended_resolution_and_claim() {
    let (m, mut a, _) = open_ended_resolved();
    assert!(m.pool.complete);
    assert!(m.pool.platform_fee_claimed);
    let paid = claim(&m.main, &m.pool, &mut a, ClaimInput { bet_id: m.pool.bet_id }, T0 + 4);
    assert_eq!(paid, Ok(2));
    assert!(a.is_claimed);
}

#[test]
fn double_claim_rejected() {
    let (m, mut a, _) = open_ended_resolved();
    let input = ClaimInput { bet_id: m.pool.bet_id };
    assert_eq!(claim(&m.main, &m.pool, &mut a, input, T0 + 4), Ok(2));
    let snapshot = a;
    assert_eq!(claim(&m.main, &m.pool, &mut a, input, T0 + 5), Err(BettingError::AlreadyClaimed));
    assert_eq!(a.deposited_sol_amount, snapshot.deposited_sol_amount);
    assert!(a.is_claimed);
}

#[test]
fn losing_entry_cannot_claim() {
    let (m, _, mut b) = open_ended_resolved();
    let input = ClaimInput { bet_id: m.pool.bet_id };
    assert_eq!(claim(&m.main, &m.pool, &mut b, input, T0 + 4), Err(BettingError::WrongBet));
    assert!(!b.is_claimed);
}

#[test]
fn principal_floor_for_late_winner() {
    let mut m = market(T0 + 3600);
    let mut a = entry(&m, 10);
    let mut b = entry(&m, 11);
    let ta = put(&mut m, &mut a, true, 1_000_000_000, T0 + 1).unwrap();
    let tb = put(&mut m, &mut b, true, 9_000_000_000, T0 + 2).unwrap();
    // the later deposit bought at a higher price
    assert!(tb < 9 * ta);
    let input = SetWinnerInput { bet_id: m.pool.bet_id, is_yes: true };
    set_winner(&m.main, &mut m.pool, id(2), input, T0 + 3601).unwrap();
    let ci = ClaimInput { bet_id: m.pool.bet_id };
    assert_eq!(claim(&m.main, &m.pool, &mut a, ci, T0 + 3602), Ok(1_000_000_000));
    assert_eq!(claim(&m.main, &m.pool, &mut b, ci, T0 + 3602), Ok(9_000_000_000));
}

#[test]
fn profit_split_by_tokens_not_lamports() {
    let mut m = market(T0 + 3600);
    let mut a = entry(&m, 10);
    let mut b = entry(&m, 11);
    let mut c = entry(&m, 12);
    let ta = put(&mut m, &mut a, true, 1_000_000_000, T0 + 1).unwrap() as u128;
    let tb = put(&mut m, &mut b, true, 9_000_000_000, T0 + 2).unwrap() as u128;
    put(&mut m, &mut c, false, 10_000_000_000, T0 + 3).unwrap();
    let input = SetWinnerInput { bet_id: m.pool.bet_id, is_yes: true };
    let (_, platform_fee) = set_winner(&m.main, &mut m.pool, id(2), input, T0 + 3601).unwrap();
    assert_eq!(platform_fee, 400_000_000);
    // profit = 20e9 - 10e9 - 1% - 2% of 20e9
    let profit: u128 = 10_000_000_000 - 200_000_000 - 400_000_000;
    let supply = m.pool.yes_supply as u128;
    let ci = ClaimInput { bet_id: m.pool.bet_id };
    let pa = claim(&m.main, &m.pool, &mut a, ci, T0 + 3602).unwrap();
    let pb = claim(&m.main, &m.pool, &mut b, ci, T0 + 3602).unwrap();
    assert_eq!(pa as u128, 1_000_000_000 + ta * profit / supply);
    assert_eq!(pb as u128, 9_000_000_000 + tb * profit / supply);
    assert!(pa > 1_000_000_000 && pb > 9_000_000_000);
    let creator_fee = claim_creator_fee(&m.main, &mut m.pool, id(3), ClaimCreatorFeeInput { bet_id: 0 }, T0 + 3602);
    assert_eq!(creator_fee, Ok(200_000_000));
    assert!(pa + pb + 200_000_000 + platform_fee <= m.pool.total_reserve);
}

#[test]
fn unauthorized_update_changes_nothing() {
    let mut m = market(T0 + 3600);
    let input = UpdatePoolInput {
        bet_id: m.pool.bet_id,
        title: Some("Changed".to_string()),
        description: None,
        end_timestamp: Some(T0 + 7200),
        referee: Some(id(50)),
    };
    assert_eq!(update_pool(&m.main, &mut m.pool, id(40), input), Err(BettingError::Unauthorized));
    assert_eq!(m.pool.title, "Will it rain tomorrow?");
    assert_eq!(m.pool.end_timestamp, T0 + 3600);
    assert_eq!(m.pool.referee, id(2));
}

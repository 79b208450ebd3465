use poly_sight_contracts::errors::PredictionMarketError;
use poly_sight_contracts::instructions::claim_payout::ClaimPayout;
use poly_sight_contracts::instructions::initialize_market::InitializeMarket;
use poly_sight_contracts::instructions::place_bet::PlaceBet;
use poly_sight_contracts::instructions::resolve_market::ResolveMarket;
use poly_sight_contracts::state::{Bet, Market, MarketStatus, Pubkey, MIN_BET};
use poly_sight_contracts::{claim_payout, initialize_market, place_bet, resolve_market};

fn key(b: u8) -> Pubkey {
    Pubkey::new_from_array([b; 32])
}

const T0: i64 = 1_700_000_000;

fn new_market(authority: Pubkey, id: &str) -> Market {
    let ctx = InitializeMarket { authority, unix_timestamp: T0 };
    initialize_market(&ctx, id.to_string(), "Will it rain tomorrow?".to_string()).unwrap()
}

fn bet_on(market: Market, user: Pubkey, outcome: u8, amount: u64) -> (Market, Result<Bet, PredictionMarketError>) {
    let mut ctx = PlaceBet { market, market_key: key(200), user, unix_timestamp: T0 + 10 };
    let r = place_bet(&mut ctx, outcome, amount);
    (ctx.market, r)
}

fn resolve(market: Market, authority: Pubkey, outcome: u8) -> (Market, Result<(), PredictionMarketError>) {
    let mut ctx = ResolveMarket { market, authority, unix_timestamp: T0 + 100 };
    let r = resolve_market(&mut ctx, outcome);
    (ctx.market, r)
}

fn claim(market: Market, bet: Bet, user: Pubkey) -> (Bet, Result<u64, PredictionMarketError>) {
    let mut ctx = ClaimPayout { market, bet, user };
    let r = claim_payout(&mut ctx);
    (ctx.bet, r)
}

#[test]
fn new_market_starts_active_and_empty() {
    let m = new_market(key(1), "m1");
    assert_eq!(m.authority, key(1));
    assert_eq!(m.market_id, "m1");
    assert_eq!(m.question, "Will it rain tomorrow?");
    assert_eq!(m.total_yes_pool, 0);
    assert_eq!(m.total_no_pool, 0);
    assert_eq!(m.status, MarketStatus::Active);
    assert_eq!(m.winning_outcome, None);
    assert_eq!(m.resolved_at, None);
    assert_eq!(m.created_at, T0);
}

#[test]
fn market_id_and_question_limits_are_in_bytes() {
    let ctx = InitializeMarket { authority: key(1), unix_timestamp: T0 };
    assert!(initialize_market(&ctx, "a".repeat(50), "q".repeat(200)).is_ok());
    assert_eq!(
        initialize_market(&ctx, "a".repeat(51), "q".to_string()),
        Err(PredictionMarketError::MarketIdTooLong)
    );
    assert_eq!(
        initialize_market(&ctx, "a".to_string(), "q".repeat(201)),
        Err(PredictionMarketError::QuestionTooLong)
    );
    // 26 two-byte characters are 52 bytes.
    assert_eq!(
        initialize_market(&ctx, "é".repeat(26), "q".to_string()),
        Err(PredictionMarketError::MarketIdTooLong)
    );
    assert_eq!(
        initialize_market(&ctx, "a".repeat(51), "q".repeat(201)),
        Err(PredictionMarketError::MarketIdTooLong)
    );
}

#[test]
fn pools_sum_accepted_stakes() {
    let m = new_market(key(1), "m1");
    let (m, r) = bet_on(m, key(2), 1, 100_000_000);
    assert!(r.is_ok());
    let (m, r) = bet_on(m, key(3), 0, 50_000_000);
    assert!(r.is_ok());
    let (m, r) = bet_on(m, key(3), 2, 70_000_000);
    assert_eq!(r, Err(PredictionMarketError::InvalidOutcome));
    let (m, r) = bet_on(m, key(3), 1, 0);
    assert_eq!(r, Err(PredictionMarketError::InvalidAmount));
    let (m, r) = bet_on(m, key(3), 1, MIN_BET - 1);
    assert_eq!(r, Err(PredictionMarketError::BetTooSmall));
    let (m, r) = bet_on(m, key(4), 1, MIN_BET);
    assert!(r.is_ok());
    assert_eq!(m.total_yes_pool, 110_000_000);
    assert_eq!(m.total_no_pool, 50_000_000);
    assert_eq!(m.total_yes_pool + m.total_no_pool, 160_000_000);
}

#[test]
fn placed_bet_records_the_stake() {
    let m = new_market(key(1), "m1");
    let (_, r) = bet_on(m, key(2), 1, 25_000_000);
    let bet = r.unwrap();
    assert_eq!(bet.market, key(200));
    assert_eq!(bet.user, key(2));
    assert_eq!(bet.outcome, 1);
    assert_eq!(bet.amount, 25_000_000);
    assert!(!bet.claimed);
    assert_eq!(bet.placed_at, T0 + 10);
}

#[test]
fn rejected_bet_leaves_market_unchanged() {
    let m = new_market(key(1), "m1");
    let (m, _) = bet_on(m, key(2), 0, 20_000_000);
    let before = m.clone();
    let (m, r) = bet_on(m, key(2), 7, 20_000_000);
    assert_eq!(r, Err(PredictionMarketError::InvalidOutcome));
    assert_eq!(m, before);
}

#[test]
fn bet_overflowing_the_pool_is_refused() {
    let mut m = new_market(key(1), "m1");
    m.total_yes_pool = u64::MAX - 5;
    let (m, r) = bet_on(m, key(2), 1, MIN_BET);
    assert_eq!(r, Err(PredictionMarketError::Overflow));
    assert_eq!(m.total_yes_pool, u64::MAX - 5);
    let (m, r) = bet_on(m, key(2), 0, MIN_BET);
    assert!(r.is_ok());
    assert_eq!(m.total_no_pool, MIN_BET);
}

#[test]
fn bet_on_resolved_market_is_refused() {
    let m = new_market(key(1), "m1");
    let (m, r) = resolve(m, key(1), 1);
    assert!(r.is_ok());
    let (_, r) = bet_on(m, key(2), 2, 0);
    assert_eq!(r, Err(PredictionMarketError::MarketNotActive));
}

#[test]
fn resolve_is_gated_and_happens_once() {
    let m = new_market(key(1), "m1");
    let (m, r) = resolve(m, key(9), 1);
    assert_eq!(r, Err(PredictionMarketError::Unauthorized));
    assert_eq!(m.status, MarketStatus::Active);
    let (m, r) = resolve(m, key(1), 2);
    assert_eq!(r, Err(PredictionMarketError::InvalidOutcome));
    let (m, r) = resolve(m, key(1), 0);
    assert!(r.is_ok());
    assert_eq!(m.status, MarketStatus::Resolved);
    assert_eq!(m.winning_outcome, Some(0));
    assert_eq!(m.resolved_at, Some(T0 + 100));
    let (m, r) = resolve(m, key(1), 1);
    assert_eq!(r, Err(PredictionMarketError::MarketNotActive));
    let (m, r) = resolve(m, key(9), 1);
    assert_eq!(r, Err(PredictionMarketError::MarketNotActive));
    assert_eq!(m.winning_outcome, Some(0));
}

#[test]
fn locked_market_is_neither_bet_on_nor_resolved() {
    let mut m = new_market(key(1), "m1");
    m.status = MarketStatus::Locked;
    let (m, r) = bet_on(m, key(2), 1, MIN_BET);
    assert_eq!(r, Err(PredictionMarketError::MarketNotActive));
    let (_, r) = resolve(m, key(1), 1);
    assert_eq!(r, Err(PredictionMarketError::MarketNotActive));
}

#[test]
fn claim_before_resolution_is_refused() {
    let m = new_market(key(1), "m1");
    let (m, r) = bet_on(m, key(2), 1, MIN_BET);
    let bet = r.unwrap();
    let (bet, r) = claim(m, bet, key(2));
    assert_eq!(r, Err(PredictionMarketError::MarketNotResolved));
    assert!(!bet.claimed);
}

#[test]
fn claim_by_another_user_is_refused() {
    let m = new_market(key(1), "m1");
    let (m, r) = bet_on(m, key(2), 1, MIN_BET);
    let bet = r.unwrap();
    let (m, _) = resolve(m, key(1), 1);
    let (bet, r) = claim(m, bet, key(3));
    assert_eq!(r, Err(PredictionMarketError::Unauthorized));
    assert!(!bet.claimed);
}

#[test]
fn claim_pays_once() {
    let m = new_market(key(1), "m1");
    let (m, r) = bet_on(m, key(2), 1, 40_000_000);
    let bet = r.unwrap();
    let (m, _) = bet_on(m, key(3), 0, 60_000_000);
    let (m, _) = resolve(m, key(1), 1);
    let (bet, r) = claim(m.clone(), bet, key(2));
    // gross 100_000_000, fee 2_000_000
    assert_eq!(r, Ok(98_000_000));
    assert!(bet.claimed);
    let (bet, r) = claim(m, bet, key(2));
    assert_eq!(r, Err(PredictionMarketError::AlreadyClaimed));
    assert!(bet.claimed);
}

#[test]
fn end_to_end_payout() {
    let authority = key(1);
    let alice = key(2);
    let bob = key(3);
    let m = new_market(authority, "m1");
    let (m, r) = bet_on(m, alice, 1, 100_000_000);
    let alice_bet = r.unwrap();
    let (m, r) = bet_on(m, bob, 0, 50_000_000);
    let bob_bet = r.unwrap();
    let (m, r) = resolve(m, authority, 1);
    assert!(r.is_ok());
    let (alice_bet, r) = claim(m.clone(), alice_bet, alice);
    assert_eq!(r, Ok(147_000_000));
    assert!(alice_bet.claimed);
    let (bob_bet, r) = claim(m, bob_bet, bob);
    assert_eq!(r, Err(PredictionMarketError::NotWinner));
    assert!(!bob_bet.claimed);
}

#[test]
fn zero_winner_claim_fails_with_division_by_zero() {
    let m = new_market(key(1), "m1");
    let (m, _) = bet_on(m, key(2), 0, 30_000_000);
    let (m, _) = bet_on(m, key(3), 0, 20_000_000);
    let (m, r) = resolve(m, key(1), 1);
    assert!(r.is_ok());
    assert_eq!(m.total_yes_pool, 0);
    // A YES bet that no placement recorded in the pools.
    let stray = Bet {
        market: key(200),
        user: key(4),
        outcome: 1,
        amount: MIN_BET,
        claimed: false,
        placed_at: T0,
    };
    let (stray, r) = claim(m, stray, key(4));
    assert_eq!(r, Err(PredictionMarketError::DivisionByZero));
    assert!(!stray.claimed);
}

#[test]
fn error_messages() {
    assert_eq!(PredictionMarketError::NotWinner.message(), "Not a winner");
    assert_eq!(PredictionMarketError::MarketNotActive.message(), "Market is not active");
}

#[test]
fn pubkey_comparison() {
    let a = key(7);
    let mut bytes = [7u8; 32];
    assert!(a.same_key(&Pubkey::new_from_array(bytes)));
    bytes[31] = 8;
    assert!(!a.same_key(&Pubkey::new_from_array(bytes)));
    assert_eq!(a.to_bytes(), [7u8; 32]);
}

#[test]
fn all_winning_claims_fit_in_the_pool() {
    let m = new_market(key(1), "m1");
    let stakes: [(u8, u8, u64); 5] = [
        (2, 1, 33_333_333),
        (3, 1, 10_000_001),
        (4, 0, 77_777_777),
        (5, 1, 12_345_678),
        (6, 0, 10_000_000),
    ];
    let mut market = m;
    let mut bets = Vec::new();
    for (user, outcome, amount) in stakes {
        let (next, r) = bet_on(market, key(user), outcome, amount);
        market = next;
        bets.push(r.unwrap());
    }
    let (market, r) = resolve(market, key(1), 1);
    assert!(r.is_ok());
    let mut paid: u64 = 0;
    let mut winners = 0;
    for bet in bets {
        let user = bet.user;
        let outcome = bet.outcome;
        let (_, r) = claim(market.clone(), bet, user);
        if outcome == 1 {
            paid += r.unwrap();
            winners += 1;
        } else {
            assert_eq!(r, Err(PredictionMarketError::NotWinner));
        }
    }
    assert_eq!(winners, 3);
    assert!(paid <= market.total_yes_pool + market.total_no_pool);
}

use resonance_bot::engine::{
    ArbitrageAction, ArbitrageEvent, ArbitrageSession, Phase, PoolSide, SwapLeg, TradeOutcome,
    DEFAULT_TRADE_AMOUNT,
};
use resonance_bot::error::ResonanceError;
use resonance_bot::vault::ArbitrageVault;

fn pool_blob(price: u64, liquidity_x: u64, liquidity_y: u64) -> Vec<u8> {
    let mut data = vec![0u8; 80];
    data[8..16].copy_from_slice(&price.to_le_bytes());
    data[32..40].copy_from_slice(&liquidity_x.to_le_bytes());
    data[64..72].copy_from_slice(&liquidity_y.to_le_bytes());
    data
}

fn vault(min_profit_threshold: u64, max_single_trade: u64) -> ArbitrageVault {
    ArbitrageVault::new([9u8; 32], min_profit_threshold, max_single_trade, 254)
}

fn cheap_a() -> Vec<u8> {
    pool_blob(100, 1_000_000, 0)
}

fn dear_b() -> Vec<u8> {
    pool_blob(101, 0, 2_000_000)
}

fn start_err(v: &ArbitrageVault, amount: Option<u64>, quote: u64, a: &[u8], b: &[u8]) -> ResonanceError {
    match ArbitrageSession::start(v, amount, quote, 0, a, b) {
        Ok(_) => panic!("expected a failure"),
        Err(e) => e,
    }
}

fn expect_swap(action: ArbitrageAction) -> SwapLeg {
    match action {
        ArbitrageAction::Swap(leg) => leg,
        other => panic!("expected a swap, got {:?}", other),
    }
}

fn expect_abort(action: ArbitrageAction) -> ResonanceError {
    match action {
        ArbitrageAction::Abort(e) => e,
        other => panic!("expected an abort, got {:?}", other),
    }
}

/// A session that has just sent its second leg: 20_060 quote in at a
/// 5_000_000 starting balance.
fn session_after_first_leg(v: &mut ArbitrageVault) -> ArbitrageSession {
    let (mut session, _) =
        ArbitrageSession::start(v, Some(1_000_000), 5_000_000, 0, &cheap_a(), &dear_b()).unwrap();
    let event = ArbitrageEvent::FirstLegDone { base_balance: 200, quote_balance: 4_979_940 };
    expect_swap(session.step(v, event));
    session
}

#[test]
fn zero_request_is_invalid() {
    let v = vault(100, 1_000_000);
    assert_eq!(start_err(&v, Some(0), 5_000_000, &cheap_a(), &dear_b()), ResonanceError::InvalidAmount);
}

#[test]
fn request_above_cap_is_refused() {
    let v = vault(100, 1_000_000);
    assert_eq!(
        start_err(&v, Some(1_000_001), 5_000_000, &cheap_a(), &dear_b()),
        ResonanceError::ExceedsMaxTrade
    );
    // refused before the pools are read
    assert_eq!(start_err(&v, Some(u64::MAX), 5_000_000, &[], &[]), ResonanceError::ExceedsMaxTrade);
}

#[test]
fn request_above_balance_is_refused() {
    let v = vault(100, 1_000_000);
    assert_eq!(
        start_err(&v, Some(600_000), 500_000, &cheap_a(), &dear_b()),
        ResonanceError::InsufficientFunds
    );
}

#[test]
fn default_request_applies_without_ceiling() {
    let v = vault(100, DEFAULT_TRADE_AMOUNT - 1);
    assert_eq!(start_err(&v, None, u64::MAX, &cheap_a(), &dear_b()), ResonanceError::ExceedsMaxTrade);
    let v = vault(100, DEFAULT_TRADE_AMOUNT);
    assert_eq!(
        start_err(&v, None, DEFAULT_TRADE_AMOUNT - 1, &cheap_a(), &dear_b()),
        ResonanceError::InsufficientFunds
    );
}

#[test]
fn malformed_pool_is_refused() {
    let v = vault(100, 1_000_000);
    assert_eq!(
        start_err(&v, Some(1_000), 5_000_000, &cheap_a()[..79], &dear_b()),
        ResonanceError::MalformedPoolData
    );
    assert_eq!(
        start_err(&v, Some(1_000), 5_000_000, &cheap_a(), &dear_b()[..40]),
        ResonanceError::MalformedPoolData
    );
}

#[test]
fn equal_prices_are_refused() {
    let v = vault(100, 1_000_000);
    let a = pool_blob(100, 1_000_000, 1_000_000);
    let b = pool_blob(100, 1_000_000, 1_000_000);
    assert_eq!(start_err(&v, Some(1_000), 5_000_000, &a, &b), ResonanceError::NoArbitrageOpportunity);
}

#[test]
fn empty_counter_pool_is_no_opportunity() {
    let v = vault(100, 1_000_000);
    let b = pool_blob(101, 0, 0);
    assert_eq!(
        start_err(&v, Some(1_000), 5_000_000, &cheap_a(), &b),
        ResonanceError::NoArbitrageOpportunity
    );
}

#[test]
fn first_leg_buys_on_the_cheaper_pool_at_the_solved_size() {
    let v = vault(100, 1_000_000);
    let (session, leg) =
        ArbitrageSession::start(&v, Some(1_000_000), 5_000_000, 0, &cheap_a(), &dear_b()).unwrap();
    assert_eq!(session.phase, Phase::AwaitingFirstLeg);
    assert_eq!(leg.pool, PoolSide::A);
    assert_eq!(leg.params.amount_in, 20_060);
    assert_eq!(leg.params.minimum_amount_out, 10_030);
    assert!(leg.params.swap_for_y);
    assert_eq!(leg.signer.authority, [9u8; 32]);
    assert_eq!(leg.signer.bump, 254);
}

#[test]
fn request_caps_the_solved_size() {
    let v = vault(100, 1_000_000);
    let (_, leg) =
        ArbitrageSession::start(&v, Some(5_000), 5_000_000, 0, &cheap_a(), &dear_b()).unwrap();
    assert_eq!(leg.params.amount_in, 5_000);
}

#[test]
fn direction_follows_prices() {
    let v = vault(100, 1_000_000);
    let a = pool_blob(101, 0, 2_000_000);
    let b = pool_blob(100, 1_000_000, 0);
    let (session, leg) = ArbitrageSession::start(&v, Some(1_000_000), 5_000_000, 0, &a, &b).unwrap();
    assert_eq!(leg.pool, PoolSide::B);
    assert!(!session.plan.buy_from_a);
    assert_eq!(session.plan.cheap_price, 100);
}

#[test]
fn full_arbitrage_commits_profit() {
    let mut v = vault(100, 1_000_000);
    let (mut session, _) =
        ArbitrageSession::start(&v, Some(1_000_000), 5_000_000, 50, &cheap_a(), &dear_b()).unwrap();
    let leg = expect_swap(session.step(
        &mut v,
        ArbitrageEvent::FirstLegDone { base_balance: 30_000_050, quote_balance: 4_979_940 },
    ));
    assert_eq!(leg.pool, PoolSide::B);
    assert_eq!(leg.params.amount_in, 30_000_000);
    assert_eq!(leg.params.minimum_amount_out, 3_000);
    assert!(!leg.params.swap_for_y);
    assert_eq!(session.phase, Phase::AwaitingSecondLeg);
    let action = session.step(&mut v, ArbitrageEvent::SecondLegDone { quote_balance: 5_000_500 });
    match action {
        ArbitrageAction::Commit(outcome) => assert_eq!(
            outcome,
            TradeOutcome { profit: 500, total_profits: 500, total_trades: 1 }
        ),
        other => panic!("expected a commit, got {:?}", other),
    }
    assert_eq!(session.phase, Phase::Committed);
    assert_eq!((v.total_profits, v.total_trades), (500, 1));
}

#[test]
fn profit_below_threshold_leaves_vault_unchanged() {
    let mut v = vault(100, 1_000_000);
    v.total_profits = 700;
    v.total_trades = 3;
    let mut session = session_after_first_leg(&mut v);
    let action = session.step(&mut v, ArbitrageEvent::SecondLegDone { quote_balance: 5_000_050 });
    assert_eq!(expect_abort(action), ResonanceError::ProfitNotRealized);
    assert_eq!(session.phase, Phase::Aborted);
    assert_eq!((v.total_profits, v.total_trades), (700, 3));
}

#[test]
fn loss_is_an_arithmetic_failure() {
    let mut v = vault(0, 1_000_000);
    let mut session = session_after_first_leg(&mut v);
    let action = session.step(&mut v, ArbitrageEvent::SecondLegDone { quote_balance: 4_999_999 });
    assert_eq!(expect_abort(action), ResonanceError::ArithmeticOverflow);
    assert_eq!((v.total_profits, v.total_trades), (0, 0));
}

#[test]
fn second_leg_without_proceeds_fails() {
    let mut v = vault(0, 1_000_000);
    let mut session = session_after_first_leg(&mut v);
    let action = session.step(&mut v, ArbitrageEvent::SecondLegDone { quote_balance: 4_979_940 });
    assert_eq!(expect_abort(action), ResonanceError::SwapFailed);
}

#[test]
fn first_leg_without_base_fails() {
    let mut v = vault(100, 1_000_000);
    let (mut session, _) =
        ArbitrageSession::start(&v, Some(1_000_000), 5_000_000, 50, &cheap_a(), &dear_b()).unwrap();
    let action =
        session.step(&mut v, ArbitrageEvent::FirstLegDone { base_balance: 50, quote_balance: 4_979_940 });
    assert_eq!(expect_abort(action), ResonanceError::SwapFailed);
    assert_eq!(session.phase, Phase::Aborted);
    assert!(!session.accepts(&ArbitrageEvent::SwapCallFailed));
}

#[test]
fn failed_swap_call_aborts() {
    let mut v = vault(100, 1_000_000);
    let (mut session, _) =
        ArbitrageSession::start(&v, Some(1_000_000), 5_000_000, 0, &cheap_a(), &dear_b()).unwrap();
    assert!(session.accepts(&ArbitrageEvent::SwapCallFailed));
    assert!(!session.accepts(&ArbitrageEvent::SecondLegDone { quote_balance: 1 }));
    let action = session.step(&mut v, ArbitrageEvent::SwapCallFailed);
    assert_eq!(expect_abort(action), ResonanceError::SwapFailed);
}

#[test]
fn second_leg_minimum_overflow_aborts() {
    let mut v = vault(100, 1_000_000);
    let a = pool_blob(u64::MAX - 1, 1, 0);
    let b = pool_blob(u64::MAX, 0, u64::MAX);
    let (mut session, _) = ArbitrageSession::start(&v, Some(1_000_000), 5_000_000, 0, &a, &b).unwrap();
    let action = session.step(
        &mut v,
        ArbitrageEvent::FirstLegDone { base_balance: u64::MAX, quote_balance: 0 },
    );
    assert_eq!(expect_abort(action), ResonanceError::ArithmeticOverflow);
}

#[test]
fn profits_accumulate_over_invocations() {
    let mut v = vault(100, 1_000_000);
    let profits = [500u64, 0, 300];
    let mut before = (v.total_profits, v.total_trades);
    for extra in profits {
        let mut session = session_after_first_leg(&mut v);
        let action = session.step(
            &mut v,
            ArbitrageEvent::SecondLegDone { quote_balance: 5_000_000 + extra },
        );
        if extra >= 100 {
            assert!(matches!(action, ArbitrageAction::Commit(_)));
            assert_eq!((v.total_profits, v.total_trades), (before.0 + extra, before.1 + 1));
        } else {
            assert!(matches!(action, ArbitrageAction::Abort(_)));
            assert_eq!((v.total_profits, v.total_trades), before);
        }
        assert!(v.total_profits >= before.0);
        before = (v.total_profits, v.total_trades);
    }
    assert_eq!((v.total_profits, v.total_trades), (800, 2));
}

#[test]
fn statistics_overflow_aborts() {
    let mut v = vault(0, 1_000_000);
    v.total_profits = u64::MAX - 10;
    let mut session = session_after_first_leg(&mut v);
    let action = session.step(&mut v, ArbitrageEvent::SecondLegDone { quote_balance: 5_000_500 });
    assert_eq!(expect_abort(action), ResonanceError::ArithmeticOverflow);
    assert_eq!(v.total_profits, u64::MAX - 10);
    assert_eq!(v.total_trades, 0);
}

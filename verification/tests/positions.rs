use betterwheel::dates::day_of;
use betterwheel::engine::types::{Right, WheelState};
use betterwheel::ibkr::PositionRow;
use betterwheel::positions::{
    deployed_put_collateral, is_option, is_stock, multiplier_of, read_expiries, reconcile,
    reconcile_dated, right_of,
};

fn fx(x: f64) -> i64 {
    (x * 1e6).round() as i64
}

fn stock(symbol: &str, position: f64, average_cost: f64) -> PositionRow {
    PositionRow {
        account: "DU1".into(),
        symbol: symbol.into(),
        security_type: "Stock".into(),
        right: String::new(),
        strike: 0,
        expiry: String::new(),
        position: fx(position),
        average_cost: fx(average_cost),
        multiplier: String::new(),
    }
}

fn option(
    symbol: &str,
    right: &str,
    strike: f64,
    expiry: &str,
    position: f64,
    average_cost: f64,
) -> PositionRow {
    PositionRow {
        account: "DU1".into(),
        symbol: symbol.into(),
        security_type: "Option".into(),
        right: right.into(),
        strike: fx(strike),
        expiry: expiry.into(),
        position: fx(position),
        average_cost: fx(average_cost),
        multiplier: "100".into(),
    }
}

#[test]
fn empty_is_idle() {
    let r = reconcile("AAPL", &[]);
    assert_eq!(r.state, WheelState::Idle);
    assert!(r.shares.is_none() && r.open_short.is_none());
}

#[test]
fn hundred_shares_is_long_shares() {
    let rows = vec![stock("AAPL", 100.0, 93.25)];
    let r = reconcile("AAPL", &rows);
    assert_eq!(r.state, WheelState::LongShares);
    let lot = r.shares.expect("share lot");
    assert_eq!(lot.shares, 100);
    assert!(lot.cost_basis == fx(93.25));
    assert_eq!(r.committed_call_contracts, 0);
}

#[test]
fn short_put_recovers_per_share_credit() {
    // average_cost 215.0 / multiplier 100 = $2.15 per-share credit.
    let rows = vec![option("MSFT", "P", 400.0, "20260116", -2.0, 215.0)];
    let r = reconcile("MSFT", &rows);
    assert_eq!(r.state, WheelState::ShortPut);
    let s = r.open_short.expect("open short");
    assert_eq!(s.right, Right::Put);
    assert_eq!(s.quantity, 2);
    assert!(s.entry_credit == fx(2.15));
}

#[test]
fn shares_plus_short_call_is_covered_call() {
    let rows = vec![
        stock("AAPL", 100.0, 90.0),
        option("AAPL", "C", 100.0, "20260220", -1.0, 180.0),
    ];
    let r = reconcile("AAPL", &rows);
    assert_eq!(r.state, WheelState::ShortCall);
    assert!(r.shares.is_some());
    assert_eq!(r.committed_call_contracts, 1);
    assert_eq!(r.open_short.expect("call").right, Right::Call);
}

#[test]
fn open_short_put_outranks_share_lot() {
    // Partial assignment: holding a 100-share lot AND a still-open short put.
    // The put must keep being managed, not be dropped for a covered call.
    let rows = vec![
        stock("AAPL", 100.0, 90.0),
        option("AAPL", "P", 85.0, "20260116", -1.0, 120.0),
    ];
    let r = reconcile("AAPL", &rows);
    assert_eq!(r.state, WheelState::ShortPut);
    assert_eq!(r.open_short.expect("put").strike, fx(85.0));
    assert!(r.shares.is_some(), "the lot still rides along for the dashboard");
}

#[test]
fn naked_short_call_still_managed() {
    let rows = vec![option("NVDA", "CALL", 1000.0, "20260116", -1.0, 500.0)];
    let r = reconcile("NVDA", &rows);
    assert_eq!(r.state, WheelState::ShortCall);
    assert!(r.shares.is_none());
}

#[test]
fn partial_lot_with_short_put_is_short_put() {
    // 50 shares is not a coverable lot, so an open short put dominates.
    let rows = vec![
        stock("AAPL", 50.0, 90.0),
        option("AAPL", "P", 85.0, "20260116", -1.0, 120.0),
    ];
    let r = reconcile("AAPL", &rows);
    assert_eq!(r.state, WheelState::ShortPut);
    assert!(r.shares.is_none());
}

#[test]
fn earliest_expiry_short_leg_wins() {
    let rows = vec![
        option("AAPL", "P", 90.0, "20260220", -1.0, 100.0),
        option("AAPL", "P", 88.0, "20260116", -1.0, 90.0),
    ];
    let r = reconcile("AAPL", &rows);
    let s = r.open_short.expect("short");
    assert_eq!(s.expiry, day_of(2026, 1, 16).unwrap());
    assert_eq!(s.strike, fx(88.0));
}

#[test]
fn ignores_other_symbols_and_long_options() {
    let rows = vec![
        stock("MSFT", 100.0, 400.0),                       // different symbol
        option("AAPL", "P", 90.0, "20260116", 1.0, 100.0), // long option (position > 0)
    ];
    let r = reconcile("AAPL", &rows);
    // A *bare* long put (no short to protect) is still not a wheel position.
    assert_eq!(r.state, WheelState::Idle);
    assert!(r.protective_long.is_none());
}

#[test]
fn short_put_with_long_below_is_a_hedged_spread() {
    // Sold the $100 put, bought the $95 put (same expiry) = put credit spread.
    let rows = vec![
        option("AAPL", "P", 100.0, "20260116", -1.0, 250.0), // short
        option("AAPL", "P", 95.0, "20260116", 1.0, 100.0),   // protective long
    ];
    let r = reconcile("AAPL", &rows);
    assert_eq!(r.state, WheelState::HedgedShortPut);
    assert_eq!(r.open_short.expect("short").strike, fx(100.0));
    let long = r.protective_long.expect("protective long");
    assert_eq!(long.strike, fx(95.0));
    assert!(long.entry_credit == fx(1.00)); // 100/100 debit paid
}

#[test]
fn long_put_above_the_short_is_not_protective() {
    // A long ABOVE the short doesn't cap downside → plain ShortPut, not hedged.
    let rows = vec![
        option("AAPL", "P", 100.0, "20260116", -1.0, 250.0),
        option("AAPL", "P", 105.0, "20260116", 1.0, 600.0),
    ];
    let r = reconcile("AAPL", &rows);
    assert_eq!(r.state, WheelState::ShortPut);
    assert!(r.protective_long.is_none());
}

#[test]
fn long_put_at_a_different_expiry_is_not_protective() {
    // A diagonal isn't the defined-risk spread we model → not hedged.
    let rows = vec![
        option("AAPL", "P", 100.0, "20260116", -1.0, 250.0),
        option("AAPL", "P", 95.0, "20260220", 1.0, 120.0), // later expiry
    ];
    let r = reconcile("AAPL", &rows);
    assert_eq!(r.state, WheelState::ShortPut);
    assert!(r.protective_long.is_none());
}

#[test]
fn tightest_long_is_chosen_as_the_protective_leg() {
    // Two longs below the short → the highest (tightest) is the paired leg.
    let rows = vec![
        option("AAPL", "P", 100.0, "20260116", -1.0, 250.0),
        option("AAPL", "P", 95.0, "20260116", 1.0, 100.0),
        option("AAPL", "P", 90.0, "20260116", 1.0, 50.0),
    ];
    let r = reconcile("AAPL", &rows);
    assert_eq!(r.state, WheelState::HedgedShortPut);
    assert_eq!(r.protective_long.expect("long").strike, fx(95.0));
}

#[test]
fn fractional_holding_under_a_lot_is_not_covered() {
    // 99.5 shares must not be rounded up into a coverable 100-share lot.
    let rows = vec![stock("AAPL", 99.5, 90.0)];
    let r = reconcile("AAPL", &rows);
    assert_eq!(r.state, WheelState::Idle);
    assert!(r.shares.is_none());
}

#[test]
fn fractional_above_a_lot_keeps_only_whole_shares() {
    // 100.9 shares backs exactly one lot; the fractional remainder is dropped.
    let rows = vec![stock("AAPL", 100.9, 90.0)];
    let r = reconcile("AAPL", &rows);
    assert_eq!(r.state, WheelState::LongShares);
    assert_eq!(r.shares.expect("lot").shares, 100);
}

#[test]
fn unparseable_option_expiry_is_dropped() {
    // A contract-month-only expiry (YYYYMM) can't be dated → no short leg.
    let rows = vec![option("AAPL", "P", 90.0, "202601", -1.0, 100.0)];
    let r = reconcile("AAPL", &rows);
    assert_eq!(r.state, WheelState::Idle);
}

#[test]
fn multiple_long_lots_use_share_weighted_cost_basis() {
    // 100 @ $90 + 100 @ $110 → 200 shares, weighted basis $100.
    let rows = vec![stock("AAPL", 100.0, 90.0), stock("AAPL", 100.0, 110.0)];
    let r = reconcile("AAPL", &rows);
    assert_eq!(r.state, WheelState::LongShares);
    let lot = r.shares.expect("lot");
    assert_eq!(lot.shares, 200);
    assert!(lot.cost_basis == fx(100.0), "basis {}", lot.cost_basis);
}

#[test]
fn short_stock_is_not_a_coverable_lot() {
    // The wheel never shorts stock; a negative net must not become a lot.
    let rows = vec![stock("AAPL", -100.0, 90.0)];
    let r = reconcile("AAPL", &rows);
    assert_eq!(r.state, WheelState::Idle);
    assert!(r.shares.is_none());
}

#[test]
fn missing_or_zero_multiplier_defaults_to_100() {
    // average_cost 250 with no multiplier → per-share credit 250/100 = 2.50.
    let mut empty = option("MSFT", "P", 400.0, "20260116", -1.0, 250.0);
    empty.multiplier = String::new();
    assert!(reconcile("MSFT", &[empty]).open_short.unwrap().entry_credit == fx(2.50));

    let mut zero = option("MSFT", "P", 400.0, "20260116", -1.0, 250.0);
    zero.multiplier = "0".into(); // never divide by zero
    assert!(reconcile("MSFT", &[zero]).open_short.unwrap().entry_credit == fx(2.50));
}

#[test]
fn multi_contract_short_put_reports_quantity() {
    let rows = vec![option("AAPL", "P", 90.0, "20260116", -3.0, 90.0)];
    let r = reconcile("AAPL", &rows);
    assert_eq!(r.open_short.expect("short").quantity, 3);
}

#[test]
fn rows_are_told_apart() {
    let s = stock("AAPL", 100.0, 90.0);
    let o = option("AAPL", "call", 90.0, "20260116", -1.0, 90.0);
    assert!(is_stock(&s) && !is_option(&s));
    assert!(is_option(&o) && !is_stock(&o));
    assert_eq!(right_of(&o), Some(Right::Call));
    assert_eq!(right_of(&s), None);
    assert_eq!(multiplier_of(&o), fx(100.0));
    let mut mini = option("AAPL", "P", 90.0, "20260116", -1.0, 90.0);
    mini.multiplier = "10".into();
    assert_eq!(multiplier_of(&mini), fx(10.0));
    mini.multiplier = "many".into();
    assert_eq!(multiplier_of(&mini), fx(100.0));
}

#[test]
fn an_open_short_is_never_dropped() {
    // Whatever else is held, a dated short option decides the state.
    let rows = vec![
        stock("AAPL", 300.0, 90.0),
        option("AAPL", "C", 120.0, "20260220", -1.0, 180.0),
        option("AAPL", "P", 85.0, "20260116", -1.0, 120.0),
        option("AAPL", "P", 80.0, "20260116", 2.0, 60.0),
    ];
    let r = reconcile("AAPL", &rows);
    assert_eq!(r.state, WheelState::HedgedShortPut);
    assert_eq!(r.open_short.expect("short").strike, fx(85.0));
    assert_eq!(r.shares.expect("lot").shares, 300);
}

#[test]
fn dates_are_read_once() {
    let rows = vec![
        option("AAPL", "P", 90.0, "20260116", -1.0, 100.0),
        option("AAPL", "P", 90.0, "soon", -1.0, 100.0),
    ];
    let days = read_expiries(&rows);
    assert_eq!(days, vec![day_of(2026, 1, 16), None]);
    let r = reconcile_dated("AAPL", &rows, &days);
    assert_eq!(r.open_short.expect("short").expiry, day_of(2026, 1, 16).unwrap());
}

#[test]
fn short_puts_count_as_deployed() {
    let rows = vec![
        option("AAPL", "P", 90.0, "20260116", -2.0, 100.0),
        option("AAPL", "P", 80.0, "20260116", 2.0, 50.0),
        option("MSFT", "C", 400.0, "20260116", -1.0, 50.0),
        stock("AAPL", 100.0, 90.0),
    ];
    assert_eq!(deployed_put_collateral(&rows), fx(18_000.0) as i128);
    assert_eq!(deployed_put_collateral(&[]), 0);
}

#[test]
fn a_symbol_without_holdings_is_idle() {
    let rows = vec![
        stock("MSFT", 300.0, 90.0),
        option("MSFT", "P", 85.0, "20260116", -1.0, 120.0),
    ];
    let r = reconcile("AAPL", &rows);
    assert_eq!(r.state, WheelState::Idle);
    assert!(r.shares.is_none() && r.open_short.is_none() && r.protective_long.is_none());
    assert_eq!(r.committed_call_contracts, 0);
}

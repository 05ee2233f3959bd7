use betterwheel::data::{
    chain_right, far_otm_put_strike, is_permission_block, moneyness, nearest_strike, needs_probe,
    pick_expiry, position_has_short, price_leg, probe_contract, probe_verdict, quote_from_snapshot,
    request_grid, roll_contract, structure_expiry, structure_strikes, target_dte, wheel_expiry,
    wheel_strikes, wheel_updates, ProbeVerdict, MAX_CHAIN_STRIKES,
};
use betterwheel::dates::day_of;
use betterwheel::engine::structures::pick::is_otm;
use betterwheel::engine::types::{EngineConfig, Right, WheelState};
use betterwheel::ibkr::{OptionComputation, PositionRow, SnapshotData, Tradability};
use betterwheel::lists::{sample_spread, sort};
use betterwheel::probe::{median, otm_put_strikes, target_month};
use betterwheel::store::models::WatchlistRow;

fn fx(x: f64) -> i64 {
    (x * 1e6).round() as i64
}

fn fxs(xs: &[f64]) -> Vec<i64> {
    xs.iter().map(|x| fx(*x)).collect()
}

fn opt_pos(symbol: &str, right: &str, strike: f64, expiry: &str, position: f64) -> PositionRow {
    PositionRow {
        account: "DU1".into(),
        symbol: symbol.into(),
        security_type: "Option".into(),
        right: right.into(),
        strike: fx(strike),
        expiry: expiry.into(),
        position: fx(position),
        average_cost: fx(100.0),
        multiplier: "100".into(),
    }
}

fn check_position_has_short() {
    let positions = vec![
        opt_pos("AAPL", "P", 100.0, "20260619", -1.0),
        opt_pos("AAPL", "PUT", 90.0, "20260619", 1.0),
    ];
    assert!(position_has_short(&positions, "AAPL", "P", fx(100.0), "20260619"));
    assert!(!position_has_short(&positions, "AAPL", "P", fx(90.0), "20260619"));
    assert!(!position_has_short(&positions, "AAPL", "P", fx(95.0), "20260619"));
    assert!(!position_has_short(&positions, "AAPL", "C", fx(100.0), "20260619"));
    assert!(!position_has_short(&positions, "MSFT", "P", fx(100.0), "20260619"));
}

#[test]
fn data_position_has_short_matches_leg() {
    check_position_has_short();
}

#[test]
fn live_position_has_short_matches_leg() {
    check_position_has_short();
}

fn check_nearest_strike() {
    let strikes = fxs(&[80.0, 90.0, 95.0, 100.0]);
    assert_eq!(nearest_strike(&strikes, fx(93.0)), Some(fx(95.0)));
    assert_eq!(nearest_strike(&strikes, fx(81.0)), Some(fx(80.0)));
    assert_eq!(nearest_strike(&[], fx(90.0)), None);
}

#[test]
fn data_nearest_strike_picks_closest_listed() {
    check_nearest_strike();
}

#[test]
fn live_nearest_strike_picks_closest_listed() {
    check_nearest_strike();
}

#[test]
fn data_permission_block_only_for_recognized_reasons() {
    assert!(is_permission_block("Order rejected: PRIIPs KID required"));
    assert!(is_permission_block("No trading permission for this product"));
    assert!(is_permission_block("Product not allowed for retail"));
    assert!(!is_permission_block("request timed out"));
    assert!(!is_permission_block("connection reset"));
    assert!(!is_permission_block("no market data subscription"));
    assert!(!is_permission_block("No market data permissions for ISLAND"));
}

#[test]
fn live_permission_block_only_for_recognized_reasons() {
    assert!(is_permission_block("Order rejected: PRIIPs KID required"));
    assert!(is_permission_block("No trading permission for this product"));
    assert!(is_permission_block("Product not allowed for retail"));
    assert!(!is_permission_block("request timed out"));
    assert!(!is_permission_block("connection reset"));
    assert!(!is_permission_block("no market data subscription"));
    assert!(!is_permission_block("No market data permissions for ISLAND"));
}

fn check_far_otm_put_strike() {
    let strikes = fxs(&[70.0, 80.0, 85.0, 90.0, 95.0, 100.0, 110.0]);
    assert_eq!(far_otm_put_strike(&strikes, fx(100.0)), Some(fx(85.0)));
}

#[test]
fn data_far_otm_put_strike_targets_85pct_of_spot() {
    check_far_otm_put_strike();
}

#[test]
fn live_far_otm_put_strike_targets_85pct_of_spot() {
    check_far_otm_put_strike();
}

fn check_far_otm_without_spot() {
    let strikes = fxs(&[70.0, 80.0, 90.0, 100.0, 110.0]);
    assert_eq!(far_otm_put_strike(&strikes, 0), Some(fx(90.0)));
    assert_eq!(far_otm_put_strike(&[], 0), None);
}

#[test]
fn data_far_otm_put_strike_uses_median_without_spot() {
    check_far_otm_without_spot();
}

#[test]
fn live_far_otm_put_strike_uses_median_without_spot() {
    check_far_otm_without_spot();
}

fn check_otm_and_moneyness() {
    assert!(is_otm(Right::Put, fx(95.0), fx(100.0)));
    assert!(!is_otm(Right::Put, fx(105.0), fx(100.0)));
    assert!(is_otm(Right::Call, fx(105.0), fx(100.0)));
    assert!(!is_otm(Right::Call, fx(95.0), fx(100.0)));
    assert_eq!(moneyness(Right::Put, fx(90.0), fx(100.0)), Some(fx(0.10) as i128));
    assert_eq!(moneyness(Right::Call, fx(110.0), fx(100.0)), Some(fx(0.10) as i128));
}

#[test]
fn data_otm_and_moneyness_by_right() {
    check_otm_and_moneyness();
}

#[test]
fn live_otm_and_moneyness_by_right() {
    check_otm_and_moneyness();
    // Without a spot nothing is near.
    assert_eq!(moneyness(Right::Put, fx(90.0), 0), None);
}

fn check_nearest_to_target() {
    let today = day_of(2026, 6, 1).unwrap();
    let exps = vec!["20260605".to_string(), "20260703".to_string(), "20260919".to_string()];
    let (chosen, dte) = pick_expiry(&exps, today, 35, 1).expect("an expiry");
    assert_eq!(chosen, "20260703");
    assert_eq!(dte, 32);
}

#[test]
fn data_pick_expiry_chooses_nearest_to_target() {
    check_nearest_to_target();
}

#[test]
fn live_pick_expiry_chooses_nearest_to_target() {
    check_nearest_to_target();
}

fn check_skips_past() {
    let today = day_of(2026, 6, 1).unwrap();
    let exps = vec!["20260101".to_string(), "20260630".to_string()];
    let (chosen, _) = pick_expiry(&exps, today, 35, 1).expect("a future expiry");
    assert_eq!(chosen, "20260630");
}

#[test]
fn data_pick_expiry_skips_past_dates() {
    check_skips_past();
}

#[test]
fn live_pick_expiry_skips_past_dates() {
    check_skips_past();
}

#[test]
fn pick_expiry_min_dte_zero_allows_today() {
    let today = day_of(2026, 6, 1).unwrap();
    let exps = vec!["20260601".to_string(), "20260603".to_string()];
    let (same_day, dte) = pick_expiry(&exps, today, 0, 0).expect("a 0DTE expiry");
    assert_eq!(same_day, "20260601");
    assert_eq!(dte, 0);
    let (next, _) = pick_expiry(&exps, today, 0, 1).expect("a future expiry");
    assert_eq!(next, "20260603");
}

#[test]
fn chains_that_are_asked_for() {
    let today = day_of(2026, 6, 1).unwrap();
    let exps = vec!["20260601".to_string(), "20260703".to_string(), "20260919".to_string()];
    let cfg = EngineConfig::default();
    assert_eq!(wheel_expiry(&exps, &cfg, today), pick_expiry(&exps, today, target_dte(&cfg), 1));
    assert_eq!(wheel_expiry(&exps, &cfg, today), Some(("20260703".to_string(), 32)));
    assert_eq!(wheel_expiry(&vec!["20260601".to_string()], &cfg, today), None);
    assert_eq!(structure_expiry(&exps, 0, today), Some(("20260601".to_string(), 0)));
    assert_eq!(structure_expiry(&exps, 30, today), Some(("20260703".to_string(), 32)));
    assert_eq!(chain_right(WheelState::Idle), Some(Right::Put));
    assert_eq!(chain_right(WheelState::LongShares), Some(Right::Call));
    assert_eq!(chain_right(WheelState::ShortPut), None);
    assert_eq!(chain_right(WheelState::HedgedShortPut), None);
    assert_eq!(chain_right(WheelState::ShortCall), None);
}

#[test]
fn sample_spread_covers_the_whole_range() {
    let xs: Vec<i64> = (0..20).map(|i| fx(i as f64)).collect();
    let s = sample_spread(&xs, 5);
    assert_eq!(s.len(), 5);
    assert_eq!(s.first(), Some(&0));
    assert_eq!(s.last(), Some(&fx(19.0)));
    assert!(s.iter().any(|x| (fx(8.0)..=fx(11.0)).contains(x)));
    assert_eq!(sample_spread(&fxs(&[1.0, 2.0]), 5), fxs(&[1.0, 2.0]));
    assert_eq!(sample_spread(&Vec::new(), 5), Vec::<i64>::new());
    assert_eq!(sample_spread(&fxs(&[1.0, 2.0, 3.0]), 1), fxs(&[1.0]));
}

// --- chains -----------------------------------------------------------------

#[test]
fn chains_reach_only_so_far() {
    let strikes: Vec<i64> = (50..=150).map(|k| fx(k as f64)).collect();
    let puts = wheel_strikes(&strikes, Right::Put, fx(100.0));
    assert!(puts.len() <= MAX_CHAIN_STRIKES);
    assert!(puts.iter().all(|k| *k <= fx(100.0) && *k >= fx(85.0)));
    assert!(puts.contains(&fx(85.0)));
    let calls = wheel_strikes(&strikes, Right::Call, fx(100.0));
    assert!(calls.iter().all(|k| *k >= fx(100.0) && *k <= fx(115.0)));
    let both = structure_strikes(&strikes, fx(100.0));
    assert_eq!(both, fxs(&[98.0, 99.0, 100.0, 101.0, 102.0]));
    let grid = request_grid(&fxs(&[98.0, 99.0]));
    assert_eq!(grid.len(), 4);
    assert!(grid.contains(&(fx(99.0), Right::Call)));
}

#[test]
fn sorting_keeps_what_was_there() {
    assert_eq!(sort(&vec![3, 1, 2, 1]), vec![1, 1, 2, 3]);
    assert_eq!(sort(&Vec::new()), Vec::<i64>::new());
}

fn snapshot(last: Option<f64>, comp: Option<(Option<f64>, Option<f64>)>) -> SnapshotData {
    SnapshotData {
        last: last.map(fx),
        comp: comp.map(|(price, delta)| OptionComputation {
            option_price: price.map(fx),
            delta: delta.map(|d| fx(d) as i32),
            implied_volatility: Some(fx(0.3)),
        }),
        notices: Vec::new(),
    }
}

#[test]
fn quotes_come_from_snapshots() {
    let day = day_of(2026, 6, 19).unwrap();
    let s = snapshot(Some(1.5), Some((Some(1.40), Some(-0.3))));
    let q = quote_from_snapshot(&s, Right::Put, fx(95.0), day).expect("a quote");
    assert_eq!(q.delta, Some(-300_000));
    assert_eq!(q.strike, fx(95.0));
    assert!(quote_from_snapshot(&snapshot(None, None), Right::Put, fx(95.0), day).is_none());
    assert_eq!(price_leg(&snapshot(Some(1.234), None)), Some(fx(1.23)));
    assert_eq!(price_leg(&snapshot(None, None)), None);
}

#[test]
fn rolls_resolve_to_listed_contracts() {
    let today = day_of(2026, 6, 1).unwrap();
    let exps = vec!["20260619".to_string(), "20260717".to_string()];
    let strikes = fxs(&[80.0, 90.0, 100.0]);
    let to = day_of(2026, 7, 15).unwrap();
    let found = roll_contract(&exps, &strikes, to, fx(88.0), today);
    assert_eq!(found, Some(("20260717".to_string(), fx(90.0))));
    assert_eq!(roll_contract(&exps, &Vec::new(), to, fx(88.0), today), None);
    assert_eq!(roll_contract(&Vec::new(), &strikes, to, fx(88.0), today), None);
    let probe = probe_contract(&exps, &strikes, fx(100.0), today);
    assert_eq!(probe, Some(("20260717".to_string(), fx(80.0))));
    assert_eq!(target_dte(&EngineConfig::default()), 35);
}

// --- tradability ------------------------------------------------------------

fn watched(tradable: Option<i64>, enabled: i64) -> WatchlistRow {
    WatchlistRow {
        symbol: "AAPL".into(),
        sec_type: "STK".into(),
        enabled,
        tradable,
        tradable_reason: None,
        conid: None,
        notes: None,
        added_at: String::new(),
    }
}

#[test]
fn only_unknown_symbols_are_probed() {
    assert!(needs_probe(&watched(None, 1)));
    assert!(!needs_probe(&watched(Some(1), 1)));
    assert!(!needs_probe(&watched(Some(0), 1)));
    assert_eq!(watched(Some(1), 1).tradable_label(), "tradable");
    assert_eq!(watched(Some(0), 1).tradable_label(), "blocked");
    assert_eq!(watched(None, 1).tradable_label(), "unknown");
    assert!(watched(Some(0), 1).is_blocked());
    assert!(!watched(None, 0).is_enabled());
}

#[test]
fn probes_block_only_for_good() {
    let allowed = Tradability::Allowed { init_margin: None, commission: None };
    assert!(matches!(probe_verdict(allowed), ProbeVerdict::Allow));
    let kid = Tradability::Blocked("PRIIPs KID required".into());
    let ProbeVerdict::Block(reason) = probe_verdict(kid) else {
        panic!("expected a block");
    };
    assert_eq!(reason, "PRIIPs KID required");
    let slow = Tradability::Blocked("request timed out".into());
    assert!(matches!(probe_verdict(slow), ProbeVerdict::Retry));
}

// --- wheel state ------------------------------------------------------------

#[test]
fn vanished_positions_go_idle() {
    let held = vec![opt_pos("AAPL", "P", 100.0, "20260619", -1.0)];
    let updates = wheel_updates(&held, &vec!["MSFT".to_string(), "AAPL".to_string()]);
    assert_eq!(updates.len(), 2);
    let aapl = updates.iter().find(|u| u.symbol == "AAPL").unwrap();
    assert_eq!(aapl.state, WheelState::ShortPut);
    let msft = updates.iter().find(|u| u.symbol == "MSFT").unwrap();
    assert_eq!(msft.state, WheelState::Idle);
    assert_eq!(msft.shares, 0);
}

// --- probe ------------------------------------------------------------------

#[test]
fn probe_choices() {
    assert_eq!(median(&fxs(&[3.0, 1.0, 2.0])), fx(2.0));
    assert_eq!(median(&fxs(&[4.0, 1.0, 3.0, 2.0])), fx(3.0));
    assert_eq!(median(&Vec::new()), 0);
    let strikes = fxs(&[110.0, 90.0, 100.0, 80.0, 95.0]);
    assert_eq!(otm_put_strikes(&strikes, fx(100.0), 2), fxs(&[95.0, 90.0]));
    assert_eq!(otm_put_strikes(&strikes, fx(100.0), 9), fxs(&[95.0, 90.0, 80.0]));
    let ladder = fxs(&[80.0, 85.0, 90.0, 95.0, 100.0]);
    assert_eq!(otm_put_strikes(&ladder, fx(98.0), 3), fxs(&[95.0, 90.0, 85.0]));
    assert_eq!(otm_put_strikes(&ladder, fx(98.0), 0), Vec::<i64>::new());
    assert_eq!(otm_put_strikes(&strikes, fx(70.0), 9), Vec::<i64>::new());
    assert_eq!(target_month(day_of(2026, 11, 30).unwrap()).as_deref(), Some("202701"));
    assert_eq!(target_month(i32::MAX), None);
}

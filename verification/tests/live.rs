use betterwheel::dates::day_of;
use betterwheel::engine::types::{ActionKind, EngineConfig, OptionQuote, Right, WheelState};
use betterwheel::ibkr::{OpenOrderInfo, PositionRow};
use betterwheel::live::{
    budget_for, fetch_requests, live_suggestions, symbol_blocked, symbol_inputs, working_symbols,
};
use betterwheel::positions::reconcile;
use betterwheel::store::models::WatchlistRow;

fn fx(x: f64) -> i64 {
    (x * 1e6).round() as i64
}

fn watch(symbol: &str, tradable: Option<i64>, enabled: i64) -> WatchlistRow {
    WatchlistRow {
        symbol: symbol.into(),
        sec_type: "STK".into(),
        enabled,
        tradable,
        tradable_reason: None,
        conid: None,
        notes: None,
        added_at: String::new(),
    }
}

fn short_put(symbol: &str, strike: f64) -> PositionRow {
    PositionRow {
        account: String::new(),
        symbol: symbol.into(),
        security_type: "Option".into(),
        right: "P".into(),
        strike: fx(strike),
        expiry: "20260619".into(),
        position: -fx(1.0),
        average_cost: fx(200.0),
        multiplier: "100".into(),
    }
}

fn put(strike: f64, expiry: i32, mid: f64, delta: f64) -> OptionQuote {
    OptionQuote {
        right: Right::Put,
        strike: fx(strike),
        expiry,
        bid: fx(mid - 0.05),
        ask: fx(mid + 0.05),
        delta: Some(fx(-delta) as i32),
        implied_volatility: Some(fx(0.3)),
        estimated_delta: None,
        open_interest: Some(500),
    }
}

#[test]
fn symbols_with_orders_are_never_advised_on_twice() {
    let open = Some(vec![OpenOrderInfo { order_id: "1".into(), symbol: "AAPL".into() }]);
    let journal = vec!["MSFT".to_string()];
    let pending = vec!["TSLA".to_string()];
    let live = working_symbols(&open, &journal, &pending);
    assert!(live.contains(&"AAPL".to_string()) && live.contains(&"TSLA".to_string()));
    assert!(!live.contains(&"MSFT".to_string()));
    let fallback = working_symbols(&None, &journal, &pending);
    assert!(fallback.contains(&"MSFT".to_string()) && fallback.contains(&"TSLA".to_string()));
    let list = vec![watch("AAPL", None, 1), watch("NVDA", None, 1)];
    let asked = fetch_requests(&list, &[], &live);
    assert_eq!(asked.len(), 1);
    assert_eq!(asked[0].row, 1);
}

#[test]
fn budgets_share_what_is_left_of_the_cap() {
    let list = vec![
        watch("AAPL", None, 1),
        watch("MSFT", Some(1), 1),
        watch("TSLA", Some(0), 1),
        watch("NVDA", None, 0),
    ];
    assert_eq!(budget_for(&list, &[], fx(20_000.0)), fx(10_000.0));
    let held = vec![short_put("X", 100.0)];
    assert_eq!(budget_for(&list, &held, fx(20_000.0)), fx(5_000.0));
    assert_eq!(budget_for(&list, &held, fx(5_000.0)), 0);
    assert_eq!(budget_for(&Vec::new(), &[], fx(20_000.0)), fx(20_000.0));
}

#[test]
fn blocked_symbols_are_not_rolled() {
    let today = day_of(2026, 6, 1).unwrap();
    let day = day_of(2026, 6, 19).unwrap();
    let rows = vec![short_put("AAPL", 95.0)];
    let position = reconcile("AAPL", &rows);
    assert_eq!(position.state, WheelState::ShortPut);
    let tested = put(95.0, day, 6.0, 0.62);
    let inputs = symbol_inputs("AAPL", &position, 0, fx(90.0), Vec::new(), Some(tested))
        .expect("inputs");
    let cfg = EngineConfig::default();
    let open = vec![watch("AAPL", None, 1)];
    let blocked = vec![watch("AAPL", Some(0), 1)];
    assert!(symbol_blocked(&blocked, "AAPL") && !symbol_blocked(&open, "AAPL"));
    let all = vec![inputs];
    let (classic, _) = live_suggestions(&all, &open, &cfg, today);
    assert!(matches!(classic[0].kind, ActionKind::Roll { .. }));
    let (classic, hedged) = live_suggestions(&all, &blocked, &cfg, today);
    assert!(classic.is_empty() && hedged.is_empty());
}

#[test]
fn nothing_is_advised_without_a_spot() {
    let idle = reconcile("AAPL", &[]);
    assert!(symbol_inputs("AAPL", &idle, fx(10_000.0), 0, Vec::new(), None).is_none());
    let i = symbol_inputs("AAPL", &idle, fx(10_000.0), fx(100.0), Vec::new(), None).unwrap();
    assert_eq!(i.max_collateral, fx(10_000.0));
    let short = reconcile("AAPL", &[short_put("AAPL", 95.0)]);
    assert!(symbol_inputs("AAPL", &short, 0, fx(100.0), Vec::new(), None).is_none());
}

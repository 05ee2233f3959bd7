use betterwheel::dates::day_of;
use betterwheel::engine::covered_call::select_covered_call;
use betterwheel::engine::csp::{money_of, select_csp, select_put_spread};
use betterwheel::engine::manage::manage_short_option;
use betterwheel::engine::math::{
    annualized_yield, contracts_for, count_units, entry_score, needs_estimate, passes_short_gates,
    resolve_abs_delta, short_put_pnl_at,
};
use betterwheel::engine::types::{
    ActionKind, EngineConfig, OpenShortOption, OptionQuote, Right, SharePosition, StructureKind,
    Suggestion, UnderlyingQuote, WheelState,
};
use betterwheel::engine::{kind_priority, place, plan, plan_for_symbol, plan_hedged, SymbolContext};

fn fx(x: f64) -> i64 {
    (x * 1e6).round() as i64
}

fn day(n: i32) -> i32 {
    day_of(2026, 1, 1).unwrap() + n
}

fn quote(right: Right, strike: f64, expiry: i32, bid: f64, ask: f64, delta: f64) -> OptionQuote {
    OptionQuote {
        right,
        strike: fx(strike),
        expiry,
        bid: fx(bid),
        ask: fx(ask),
        delta: Some(fx(delta) as i32),
        implied_volatility: Some(fx(0.3)),
        estimated_delta: None,
        open_interest: Some(500),
    }
}

fn call(strike: f64, delta: f64, premium: f64) -> OptionQuote {
    quote(Right::Call, strike, day(30), premium - 0.05, premium + 0.05, delta)
}

// Puts report a negative delta.
fn put(strike: f64, delta: f64, premium: f64) -> OptionQuote {
    quote(Right::Put, strike, day(30), premium - 0.05, premium + 0.05, -delta)
}

fn at(last: f64) -> UnderlyingQuote {
    UnderlyingQuote { last: fx(last) }
}

fn norm_cdf(x: f64) -> f64 {
    let n = 20_000;
    let (lo, hi) = (-8.0, x);
    let h = (hi - lo) / n as f64;
    let pdf = |t: f64| (-0.5 * t * t).exp() / (2.0 * std::f64::consts::PI).sqrt();
    (0..n).map(|i| pdf(lo + (i as f64 + 0.5) * h) * h).sum()
}

fn put_delta(s: f64, k: f64, t: f64, r: f64, sigma: f64) -> f64 {
    let d1 = ((s / k).ln() + (r + 0.5 * sigma * sigma) * t) / (sigma * t.sqrt());
    norm_cdf(d1) - 1.0
}

// --- covered calls ----------------------------------------------------------

#[test]
fn picks_best_call_above_basis() {
    let quotes = vec![call(105.0, 0.30, 1.80), call(110.0, 0.18, 0.80)];
    let s = select_covered_call(
        "AAPL",
        at(100.0),
        SharePosition { shares: 100, cost_basis: fx(95.0) },
        0,
        &quotes,
        &EngineConfig::default(),
        day(0),
    )
    .expect("a suggestion");
    assert_eq!(s.strike, fx(105.0));
    assert_eq!(s.quantity, 1);
    assert_eq!(s.capital_required, 0);
    assert!(matches!(s.kind, ActionKind::SellCall));
}

#[test]
fn never_writes_below_cost_basis() {
    let quotes = vec![call(105.0, 0.30, 3.00)];
    let s = select_covered_call(
        "AAPL",
        at(100.0),
        SharePosition { shares: 100, cost_basis: fx(106.0) },
        0,
        &quotes,
        &EngineConfig::default(),
        day(0),
    );
    assert!(s.is_none());
}

#[test]
fn no_uncommitted_lots() {
    let quotes = vec![call(105.0, 0.30, 1.80)];
    let s = select_covered_call(
        "AAPL",
        at(100.0),
        SharePosition { shares: 100, cost_basis: fx(95.0) },
        1,
        &quotes,
        &EngineConfig::default(),
        day(0),
    );
    assert!(s.is_none());
}

// --- cash-secured puts and spreads ------------------------------------------

#[test]
fn picks_best_yield_within_delta_band() {
    let quotes = vec![
        put(90.0, 0.20, 1.00),
        put(92.0, 0.25, 1.60),
        put(95.0, 0.32, 1.80),
        put(98.0, 0.45, 2.50),
    ];
    let s = select_csp("AAPL", at(100.0), &quotes, fx(10_000.0), &EngineConfig::default(), day(0))
        .expect("a suggestion");
    assert_eq!(s.strike, fx(95.0));
    assert_eq!(s.quantity, 1);
    assert_eq!(s.capital_required, fx(9500.0) as i128);
    assert!(matches!(s.kind, ActionKind::SellPut));
}

#[test]
fn rejects_when_not_cash_secured() {
    let quotes = vec![put(95.0, 0.32, 1.80)];
    let s = select_csp("AAPL", at(100.0), &quotes, fx(5_000.0), &EngineConfig::default(), day(0));
    assert!(s.is_none());
}

#[test]
fn rejects_low_liquidity() {
    let mut q = put(95.0, 0.32, 1.80);
    q.open_interest = Some(10);
    let s = select_csp("AAPL", at(100.0), &[q], fx(10_000.0), &EngineConfig::default(), day(0));
    assert!(s.is_none());
}

#[test]
fn falls_back_to_bs_delta_when_greek_missing() {
    let mut q = put(95.0, 0.0, 1.80);
    q.delta = None;
    assert!(needs_estimate(&q, fx(100.0), 30));
    // Without an estimate there is no delta to choose by.
    let none = select_csp("AAPL", at(100.0), &[q], fx(10_000.0), &EngineConfig::default(), day(0));
    assert!(none.is_none());
    let d = put_delta(100.0, 95.0, 30.0 / 365.0, 0.04, 0.3);
    q.estimated_delta = Some(fx(d) as i32);
    let s = select_csp("AAPL", at(100.0), &[q], fx(10_000.0), &EngineConfig::default(), day(0));
    assert!(s.is_some(), "BS fallback should resolve a delta");
}

#[test]
fn put_spread_picks_a_tight_protective_leg_within_the_cap() {
    let quotes = vec![put(100.0, 0.30, 2.50), put(96.0, 0.22, 1.00), put(90.0, 0.12, 0.40)];
    let s = select_put_spread(
        "AAPL",
        at(105.0),
        &quotes,
        fx(100_000.0),
        &EngineConfig::default(),
        day(0),
    )
    .expect("a spread");
    let ActionKind::SellPutSpread { long_strike, long_price } = s.kind else {
        panic!("expected a spread");
    };
    assert_eq!(long_strike, fx(96.0));
    assert_eq!(long_price, fx(1.00));
    assert_eq!(s.strike, fx(100.0));
    assert_eq!(s.quantity, 10);
    assert_eq!(s.capital_required, fx(4000.0) as i128);
    assert_eq!(s.limit_price, fx(1.50));
}

#[test]
fn put_spread_needs_a_cheaper_protective_leg() {
    let quotes = vec![put(95.0, 0.30, 1.80)];
    assert!(select_put_spread(
        "AAPL",
        at(100.0),
        &quotes,
        fx(10_000.0),
        &EngineConfig::default(),
        day(0),
    )
    .is_none());
}

#[test]
fn put_suggestion_says_why() {
    let quotes = vec![put(95.0, 0.32, 1.80)];
    let s = select_csp("AAPL", at(100.0), &quotes, fx(10_000.0), &EngineConfig::default(), day(0))
        .expect("a suggestion");
    assert_eq!(s.symbol, "AAPL");
    assert_eq!(s.dte, 30);
    assert_eq!(s.limit_price, fx(1.80));
    assert_eq!(s.premium_total, fx(180.0) as i128);
    assert_eq!(s.delta, Some(fx(0.32)));
    // 1.80 / 95 * 365 / 30, rounded down to a billionth.
    assert_eq!(s.annualized_yield, 230_526_315);
    assert_eq!(s.rationale, "CSP 0.32Δ, 30DTE, $1.80 credit → 23.1% annualized");
}

#[test]
fn put_stays_within_the_budget() {
    let quotes = vec![put(95.0, 0.32, 1.80)];
    for budget in [9_499.99, 9_500.0, 18_999.0, 19_000.0, 95_000.0] {
        let s = select_csp("A", at(100.0), &quotes, fx(budget), &EngineConfig::default(), day(0));
        let used = s.map_or(0, |s| s.capital_required);
        assert!(used <= fx(budget) as i128);
        assert_eq!(used, (budget / 9_500.0).floor() as i128 * fx(9_500.0) as i128);
    }
}

// --- management -------------------------------------------------------------

fn short_put(entry_credit: f64) -> OpenShortOption {
    OpenShortOption {
        right: Right::Put,
        strike: fx(95.0),
        expiry: day(20),
        entry_credit: fx(entry_credit),
        quantity: 1,
    }
}

fn managed(price: f64, delta: f64) -> OptionQuote {
    quote(Right::Put, 95.0, day(20), price - 0.02, price + 0.02, -delta)
}

#[test]
fn takes_profit_at_threshold() {
    let s = manage_short_option(
        "AAPL",
        &short_put(2.00),
        &managed(0.90, 0.20),
        at(99.0),
        &EngineConfig::default(),
        day(0),
    )
    .expect("close suggestion");
    assert!(matches!(s.kind, ActionKind::CloseForProfit));
}

#[test]
fn rolls_when_tested_and_itm() {
    let s = manage_short_option(
        "AAPL",
        &short_put(2.00),
        &managed(2.50, 0.62),
        at(90.0),
        &EngineConfig::default(),
        day(0),
    )
    .expect("roll suggestion");
    assert!(matches!(s.kind, ActionKind::Roll { .. }));
}

#[test]
fn roll_premium_counts_every_contract() {
    let mut short = short_put(2.00);
    short.quantity = 3;
    let quote = managed(2.50, 0.62);
    let s = manage_short_option("AAPL", &short, &quote, at(90.0), &EngineConfig::default(), day(0))
        .expect("roll suggestion");
    assert_eq!(s.quantity, 3);
    assert_eq!(s.limit_price, fx(2.50));
    assert_eq!(s.premium_total, fx(750.0) as i128);
}

#[test]
fn holds_when_calm() {
    let s = manage_short_option(
        "AAPL",
        &short_put(2.00),
        &managed(1.50, 0.30),
        at(99.0),
        &EngineConfig::default(),
        day(0),
    );
    assert!(s.is_none());
}

#[test]
fn profit_comes_before_defence() {
    // Deep profit and a tested delta at once: the close wins.
    let s = manage_short_option(
        "AAPL",
        &short_put(2.00),
        &managed(0.50, 0.80),
        at(90.0),
        &EngineConfig::default(),
        day(0),
    )
    .expect("a suggestion");
    assert!(matches!(s.kind, ActionKind::CloseForProfit));
}

// --- arithmetic -------------------------------------------------------------

#[test]
fn yield_basic() {
    let y = annualized_yield(fx(1.50), fx(100.0), 30) as f64 / 1e9;
    assert!((y - 0.1825).abs() < 0.001, "got {y}");
}

#[test]
fn yield_guards_zero() {
    assert_eq!(annualized_yield(fx(1.0), 0, 30), 0);
    assert_eq!(annualized_yield(fx(1.0), fx(100.0), 0), 0);
    assert_eq!(annualized_yield(fx(1.0), fx(100.0), -5), 0);
}

#[test]
fn short_put_pnl_unhedged() {
    let pnl = |spot: f64| short_put_pnl_at(fx(spot), fx(100.0), fx(2.0), None, 100);
    assert_eq!(pnl(105.0), fx(200.0) as i128);
    assert_eq!(pnl(98.0), 0);
    assert_eq!(pnl(80.0), -(fx(1800.0) as i128));
    assert_eq!(pnl(0.0), -(fx(9800.0) as i128));
}

#[test]
fn short_put_pnl_spread_caps_the_loss() {
    let cap = -(fx(350.0) as i128);
    let pnl = |spot: f64| short_put_pnl_at(fx(spot), fx(100.0), fx(1.50), Some(fx(95.0)), 100);
    assert_eq!(pnl(96.0), -(fx(250.0) as i128));
    for spot in [95.0, 90.0, 50.0, 0.0] {
        assert_eq!(pnl(spot), cap, "spot {spot}");
    }
}

#[test]
fn unhedged_loss_grows_as_the_stock_falls() {
    let mut last = i128::MAX;
    for spot in [120.0, 100.0, 99.0, 50.0, 1.0, 0.0] {
        let pnl = short_put_pnl_at(fx(spot), fx(100.0), fx(2.0), None, 100);
        assert!(pnl <= last);
        last = pnl;
    }
}

#[test]
fn contracts_round_down_to_the_budget() {
    assert_eq!(contracts_for(fx(10_000.0), fx(95.0)), 1);
    assert_eq!(contracts_for(fx(9_499.0), fx(95.0)), 0);
    assert_eq!(contracts_for(fx(28_500.0), fx(95.0)), 3);
    assert_eq!(contracts_for(fx(10_000.0), 0), i32::MAX);
    assert_eq!(contracts_for(-fx(10_000.0), fx(95.0)), -2);
    assert_eq!(count_units(1_000, 300), 3);
    assert_eq!(money_of(fx(1.25), 3), fx(375.0) as i128);
}

#[test]
fn delta_comes_from_the_quote_first() {
    let mut q = put(95.0, 0.32, 1.80);
    q.estimated_delta = Some(-100_000);
    assert_eq!(resolve_abs_delta(&q, fx(100.0), 30), Some(320_000));
    assert!(!needs_estimate(&q, fx(100.0), 30));
    q.delta = None;
    assert_eq!(resolve_abs_delta(&q, fx(100.0), 30), Some(100_000));
    // No volatility, no time, no spot: nothing to estimate from.
    assert_eq!(resolve_abs_delta(&q, fx(100.0), 0), None);
    assert_eq!(resolve_abs_delta(&q, 0, 30), None);
    q.implied_volatility = None;
    assert_eq!(resolve_abs_delta(&q, fx(100.0), 30), None);
}

#[test]
fn gates_on_entries() {
    let cfg = EngineConfig::default();
    let q = put(95.0, 0.32, 1.80);
    assert!(passes_short_gates(&q, fx(100.0), 30, &cfg).is_some());
    assert!(passes_short_gates(&q, fx(100.0), cfg.max_dte + 1, &cfg).is_none());
    assert!(passes_short_gates(&q, fx(100.0), cfg.min_dte - 1, &cfg).is_none());
    let far = put(95.0, 0.05, 1.80);
    assert!(passes_short_gates(&far, fx(100.0), 30, &cfg).is_none());
    let cheap = put(95.0, 0.32, 0.01);
    assert!(passes_short_gates(&cheap, fx(100.0), 30, &cfg).is_none());
}

#[test]
fn score_prefers_the_target_delta_among_equal_yields() {
    let cfg = EngineConfig::default();
    let near = entry_score(200_000_000, cfg.target_delta, &cfg);
    let off = entry_score(200_000_000, cfg.target_delta + 50_000, &cfg);
    assert!(near > off);
    assert!(entry_score(201_000_000, cfg.target_delta + 50_000, &cfg) > near);
}

// --- plans ------------------------------------------------------------------

fn entry<'a>(quotes: &'a [OptionQuote]) -> SymbolContext<'a> {
    SymbolContext {
        symbol: "AAPL".to_string(),
        state: WheelState::Idle,
        underlying: at(100.0),
        option_quotes: quotes,
        open_short: None,
        shares: None,
        committed_call_contracts: 0,
        max_collateral: fx(10_000.0),
    }
}

#[test]
fn idle_symbol_yields_a_csp() {
    let quotes = vec![quote(Right::Put, 95.0, day(30), 1.75, 1.85, -0.30)];
    let ctx = entry(&quotes);
    let plan = plan(std::slice::from_ref(&ctx), &EngineConfig::default(), day(0));
    assert_eq!(plan.suggestions.len(), 1);
    assert!(matches!(plan.suggestions[0].kind, ActionKind::SellPut));
    assert_eq!(plan_for_symbol(&ctx, &EngineConfig::default(), day(0)).len(), 1);
}

#[test]
fn management_sorts_before_entries() {
    let quotes = vec![quote(Right::Put, 95.0, day(30), 1.75, 1.85, -0.30)];
    let manage = SymbolContext {
        symbol: "MSFT".to_string(),
        state: WheelState::ShortPut,
        underlying: at(60.0),
        option_quotes: &[],
        open_short: Some((
            OpenShortOption {
                right: Right::Put,
                strike: fx(50.0),
                expiry: day(15),
                entry_credit: fx(1.00),
                quantity: 1,
            },
            quote(Right::Put, 50.0, day(15), 0.20, 0.24, -0.10),
        )),
        shares: None,
        committed_call_contracts: 0,
        max_collateral: fx(10_000.0),
    };
    let plan = plan(&[entry(&quotes), manage], &EngineConfig::default(), day(0));
    assert_eq!(plan.suggestions.len(), 2);
    assert!(matches!(plan.suggestions[0].kind, ActionKind::CloseForProfit));
    assert!(matches!(plan.suggestions[1].kind, ActionKind::SellPut));
}

#[test]
fn hedged_plan_enters_with_spreads() {
    let quotes = vec![put(100.0, 0.30, 2.50), put(96.0, 0.22, 1.00)];
    let mut ctx = entry(&quotes);
    ctx.underlying = at(105.0);
    ctx.max_collateral = fx(100_000.0);
    let plan = plan_hedged(std::slice::from_ref(&ctx), &EngineConfig::default(), day(0));
    assert_eq!(plan.suggestions.len(), 1);
    assert!(matches!(plan.suggestions[0].kind, ActionKind::SellPutSpread { .. }));
}

#[test]
fn modes_differ_in_entries_only() {
    let cfg = EngineConfig::default();
    let quotes = vec![put(100.0, 0.30, 2.50), put(96.0, 0.22, 1.00)];
    let mut idle = entry(&quotes);
    idle.underlying = at(105.0);
    idle.max_collateral = fx(100_000.0);
    let mut tested = entry(&[]);
    tested.symbol = "MSFT".to_string();
    tested.state = WheelState::ShortPut;
    tested.underlying = at(90.0);
    tested.open_short = Some((short_put(2.00), managed(2.50, 0.62)));
    let contexts = [idle, tested];
    let naked = plan(&contexts, &cfg, day(0)).suggestions;
    let hedged = plan_hedged(&contexts, &cfg, day(0)).suggestions;
    assert_eq!((naked.len(), hedged.len()), (2, 2));
    assert!(matches!(naked[0].kind, ActionKind::Roll { .. }));
    assert_eq!(naked[0].limit_price, hedged[0].limit_price);
    assert_eq!(naked[0].rationale, hedged[0].rationale);
    assert!(matches!(naked[1].kind, ActionKind::SellPut));
    assert!(matches!(hedged[1].kind, ActionKind::SellPutSpread { .. }));
}

fn bare(symbol: &str, kind: ActionKind, yield_billionths: i128) -> Suggestion {
    Suggestion {
        symbol: symbol.to_string(),
        kind,
        right: Right::Put,
        strike: fx(95.0),
        underlying_price: fx(100.0),
        expiry: day(30),
        dte: 30,
        quantity: 1,
        limit_price: fx(1.0),
        delta: None,
        premium_total: fx(100.0) as i128,
        capital_required: fx(9500.0) as i128,
        annualized_yield: yield_billionths,
        rationale: String::new(),
    }
}

#[test]
fn listing_order_is_urgency_then_yield_then_arrival() {
    let mut list = Vec::new();
    place(&mut list, bare("A", ActionKind::SellPut, 10));
    place(&mut list, bare("B", ActionKind::SellPut, 20));
    place(&mut list, bare("C", ActionKind::Roll { to_expiry: day(60), to_strike: fx(90.0) }, 0));
    place(&mut list, bare("D", ActionKind::SellPut, 20));
    place(&mut list, bare("E", ActionKind::CloseForProfit, 0));
    let order: Vec<&str> = list.iter().map(|s| s.symbol.as_str()).collect();
    assert_eq!(order, ["E", "C", "B", "D", "A"]);
    assert_eq!(kind_priority(&ActionKind::CloseForProfit), 0);
    let open = ActionKind::OpenStructure { kind: StructureKind::IronFly, legs: Vec::new() };
    assert_eq!(kind_priority(&open), 2);
}

// --- names ------------------------------------------------------------------

#[test]
fn wheel_state_string_roundtrips() {
    for s in [
        WheelState::Idle,
        WheelState::ShortPut,
        WheelState::LongShares,
        WheelState::ShortCall,
    ] {
        assert_eq!(WheelState::parse(s.as_str()), s, "roundtrip {:?}", s);
    }
    assert_eq!(WheelState::parse("nonsense"), WheelState::Idle);
    assert_eq!(WheelState::parse(""), WheelState::Idle);
    assert_eq!(WheelState::default(), WheelState::Idle);
    assert_eq!(WheelState::parse("HedgedShortPut"), WheelState::HedgedShortPut);
}

#[test]
fn option_quote_mid_falls_back_to_bid() {
    let q = OptionQuote {
        right: Right::Put,
        strike: fx(100.0),
        expiry: day_of(2026, 6, 19).unwrap(),
        bid: fx(1.0),
        ask: fx(1.4),
        delta: Some(-300_000),
        implied_volatility: Some(fx(0.3)),
        estimated_delta: None,
        open_interest: None,
    };
    assert_eq!(q.mid(), fx(1.2));
    let no_ask = OptionQuote { ask: 0, ..q };
    assert_eq!(no_ask.mid(), fx(1.0));
    assert_eq!(q.abs_delta(), Some(fx(0.3)));
}

#[test]
fn right_codes_read_back() {
    assert_eq!(Right::from_code(Right::Put.code()), Right::Put);
    assert_eq!(Right::from_code(Right::Call.code()), Right::Call);
    assert_eq!(Right::from_code("CALL"), Right::Call);
    assert_eq!(Right::from_code("call"), Right::Call);
    assert_eq!(Right::from_code("PUT"), Right::Put);
    assert_eq!(Right::from_code(""), Right::Put);
}

#[test]
fn action_names() {
    let spread = ActionKind::SellPutSpread { long_strike: fx(96.0), long_price: fx(1.0) };
    assert_eq!(ActionKind::SellPut.persist_key(), "SellPut");
    assert_eq!(spread.persist_key(), "SellPutSpread");
    let fly = ActionKind::OpenStructure { kind: StructureKind::IronFly, legs: Vec::new() };
    assert_eq!(fly.display_label(), StructureKind::IronFly.label());
    assert!(StructureKind::ShortStrangle.is_naked());
    assert!(!StructureKind::IronCondor.is_naked());
    assert!(!StructureKind::IronFly.pop_is_meaningful());
    assert!(StructureKind::IronCondor.pop_is_meaningful());
}

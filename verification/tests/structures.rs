use betterwheel::dates::day_of;
use betterwheel::engine::structures::assemble::{size_qty, StructureParams};
use betterwheel::engine::structures::payoff::{
    breakevens, candidate_spots, estimate_pop, max_loss_per_share, net_credit, payoff_at,
};
use betterwheel::engine::structures::pick::{is_otm, leg, nearest_by_delta, nearest_by_strike};
use betterwheel::engine::structures::{
    broken_wing, credit_spread, iron_condor, iron_fly, select, strangle,
};
use betterwheel::engine::types::{
    ActionKind, LegSide, OptionQuote, Right, StructureKind, StructureLeg, Suggestion,
};

fn fx(x: f64) -> i64 {
    (x * 1e6).round() as i64
}

fn wide(x: f64) -> i128 {
    fx(x) as i128
}

fn day(n: i32) -> i32 {
    day_of(2026, 1, 1).unwrap() + n
}

fn q(right: Right, strike: f64, expiry: i32, delta: f64, mid: f64) -> OptionQuote {
    OptionQuote {
        right,
        strike: fx(strike),
        expiry,
        bid: fx(mid - 0.05),
        ask: fx(mid + 0.05),
        delta: Some(fx(delta) as i32),
        implied_volatility: Some(fx(0.2)),
        estimated_delta: None,
        open_interest: Some(1000),
    }
}

fn l(right: Right, strike: f64, side: LegSide, price: f64) -> StructureLeg {
    StructureLeg { right, strike: fx(strike), side, price: fx(price), delta: None }
}

fn legs_of(s: &Suggestion) -> (StructureKind, &Vec<StructureLeg>) {
    let ActionKind::OpenStructure { kind, legs } = &s.kind else {
        panic!("expected OpenStructure, got {:?}", s.kind);
    };
    (*kind, legs)
}

fn close_to(a: i64, b: f64) -> bool {
    (a - fx(b)).abs() < fx(1e-2)
}

// --- broken-wing butterfly --------------------------------------------------

fn bwb_params() -> StructureParams {
    StructureParams {
        kind: StructureKind::BrokenWingButterfly,
        short_delta: fx(0.20),
        wing_points: fx(20.0),
        delta_tol: fx(0.06),
        min_credit: fx(0.10),
        max_risk: fx(10_000.0),
        ..Default::default()
    }
}

#[test]
fn credit_bwb_has_no_upside_risk_and_capped_downside() {
    let quotes = vec![
        q(Right::Put, 4920.0, day(0), -0.10, 2.50),
        q(Right::Put, 4960.0, day(0), -0.20, 6.00),
        q(Right::Put, 4980.0, day(0), -0.30, 9.40),
    ];
    let s = broken_wing::select(&bwb_params(), "SPX", fx(5000.0), &quotes, day(0)).expect("a BWB");
    let (kind, legs) = legs_of(&s);
    assert_eq!(kind, StructureKind::BrokenWingButterfly);
    assert_eq!(legs.len(), 4);
    assert_eq!(net_credit(legs), wide(0.10));
    assert_eq!(payoff_at(legs, fx(5200.0)), wide(0.10));
    assert_eq!(max_loss_per_share(legs), wide(19.90));
}

#[test]
fn rejects_symmetric_wings() {
    let quotes = vec![
        q(Right::Put, 4940.0, day(0), -0.12, 3.0),
        q(Right::Put, 4960.0, day(0), -0.20, 6.0),
        q(Right::Put, 4980.0, day(0), -0.30, 9.4),
    ];
    let mut p = bwb_params();
    p.wing_points = fx(20.0);
    assert!(broken_wing::select(&p, "SPX", fx(5000.0), &quotes, day(0)).is_none());
}

// --- credit spreads ---------------------------------------------------------

fn spread_params(kind: StructureKind) -> StructureParams {
    StructureParams {
        kind,
        dte: 1,
        short_delta: fx(0.11),
        call_delta: 0,
        wing_points: fx(10.0),
        delta_tol: fx(0.05),
        min_credit: fx(0.20),
        max_risk: fx(5_000.0),
        ..Default::default()
    }
}

#[test]
fn put_credit_spread_picks_short_and_wing() {
    let quotes = vec![
        q(Right::Put, 4950.0, day(1), -0.07, 1.20),
        q(Right::Put, 4960.0, day(1), -0.11, 2.00),
    ];
    let p = spread_params(StructureKind::PutCreditSpread);
    let s = credit_spread::select(&p, "SPX", fx(5000.0), &quotes, day(0), Right::Put)
        .expect("a put spread");
    let (kind, legs) = legs_of(&s);
    assert_eq!(kind, StructureKind::PutCreditSpread);
    assert_eq!(legs.len(), 2);
    assert_eq!(s.strike, fx(4960.0));
    assert_eq!(net_credit(legs), wide(0.80));
    assert_eq!(max_loss_per_share(legs), wide(9.20));
    let bes = breakevens(legs);
    assert_eq!(bes.len(), 1);
    assert!(close_to(bes[0], 4959.20));
}

#[test]
fn call_credit_spread_wing_is_above() {
    let quotes = vec![
        q(Right::Call, 5040.0, day(1), 0.11, 2.10),
        q(Right::Call, 5050.0, day(1), 0.07, 1.30),
    ];
    let p = spread_params(StructureKind::CallCreditSpread);
    let s = credit_spread::select(&p, "SPX", fx(5000.0), &quotes, day(0), Right::Call)
        .expect("a call spread");
    let (_, legs) = legs_of(&s);
    let long = legs.iter().find(|l| l.side == LegSide::Buy).unwrap();
    let short = legs.iter().find(|l| l.side == LegSide::Sell).unwrap();
    assert!(long.strike > short.strike);
}

// --- iron condor ------------------------------------------------------------

fn ic_params() -> StructureParams {
    StructureParams {
        kind: StructureKind::IronCondor,
        short_delta: fx(0.15),
        call_delta: fx(0.15),
        wing_points: fx(25.0),
        delta_tol: fx(0.06),
        min_credit: fx(0.50),
        max_risk: fx(10_000.0),
        ..Default::default()
    }
}

fn condor_chain() -> Vec<OptionQuote> {
    vec![
        q(Right::Put, 4925.0, day(0), -0.08, 3.0),
        q(Right::Put, 4950.0, day(0), -0.15, 6.0),
        q(Right::Call, 5050.0, day(0), 0.15, 6.5),
        q(Right::Call, 5075.0, day(0), 0.08, 3.5),
    ]
}

#[test]
fn builds_a_four_leg_condor_with_capped_risk() {
    let quotes = condor_chain();
    let s = iron_condor::select(&ic_params(), "SPX", fx(5000.0), &quotes, day(0)).expect("a condor");
    let (kind, legs) = legs_of(&s);
    assert_eq!(kind, StructureKind::IronCondor);
    assert_eq!(legs.len(), 4);
    assert_eq!(net_credit(legs), wide(6.0));
    assert_eq!(s.limit_price, fx(6.0));
    assert_eq!(s.strike, fx(4950.0));
    let bes = breakevens(legs);
    assert_eq!(bes.len(), 2);
    assert!(bes[0] < fx(5000.0) && bes[1] > fx(5000.0));
    assert_eq!(s.quantity, 5);
    // What is at risk stays within the budget.
    assert!(s.capital_required <= wide(10_000.0));
    assert_eq!(s.capital_required, wide(9_500.0));
}

#[test]
fn rejects_when_no_wing_available() {
    let quotes = vec![
        q(Right::Put, 4950.0, day(0), -0.15, 6.0),
        q(Right::Call, 5050.0, day(0), 0.15, 6.5),
    ];
    assert!(iron_condor::select(&ic_params(), "SPX", fx(5000.0), &quotes, day(0)).is_none());
}

// --- iron fly ---------------------------------------------------------------

fn fly_params() -> StructureParams {
    StructureParams {
        kind: StructureKind::IronFly,
        wing_points: fx(30.0),
        min_credit: fx(1.0),
        max_risk: fx(10_000.0),
        ..Default::default()
    }
}

#[test]
fn builds_atm_fly_with_narrow_zone() {
    let quotes = vec![
        q(Right::Put, 4970.0, day(0), -0.5, 3.0),
        q(Right::Put, 5000.0, day(0), -0.5, 10.0),
        q(Right::Call, 5000.0, day(0), 0.5, 10.5),
        q(Right::Call, 5030.0, day(0), 0.5, 3.5),
    ];
    let s = iron_fly::select(&fly_params(), "SPX", fx(5000.0), &quotes, day(0)).expect("a fly");
    let (kind, legs) = legs_of(&s);
    assert_eq!(kind, StructureKind::IronFly);
    assert_eq!(legs.len(), 4);
    assert_eq!(s.strike, fx(5000.0));
    assert_eq!(net_credit(legs), wide(14.0));
    assert_eq!(max_loss_per_share(legs), wide(16.0));
    let bes = breakevens(legs);
    assert_eq!(bes.len(), 2);
    assert!(close_to(bes[0], 4986.0));
    assert!(close_to(bes[1], 5014.0));
}

#[test]
fn a_fly_has_one_body() {
    let fly = |call: i64| {
        let mut body = q(Right::Call, 5000.0, day(0), 0.5, 10.5);
        body.strike = call;
        let quotes = vec![
            q(Right::Put, 4970.0, day(0), -0.5, 3.0),
            q(Right::Put, 5000.0, day(0), -0.5, 10.0),
            body,
            q(Right::Call, 5030.0, day(0), 0.5, 3.5),
        ];
        iron_fly::select(&fly_params(), "SPX", fx(5000.0), &quotes, day(0))
    };
    assert!(fly(fx(5000.0)).is_some());
    assert!(fly(fx(5000.0) + 1).is_some());
    assert!(fly(fx(5000.0) + 2).is_none());
    assert!(fly(fx(5000.0) - 2).is_none());
}

// --- strangle ---------------------------------------------------------------

fn naked_params() -> StructureParams {
    StructureParams {
        kind: StructureKind::ShortStrangle,
        short_delta: fx(0.15),
        call_delta: fx(0.15),
        delta_tol: fx(0.06),
        min_credit: fx(0.50),
        allow_naked: true,
        ..Default::default()
    }
}

#[test]
fn naked_strangle_gated_off_by_default() {
    let quotes = vec![
        q(Right::Put, 4950.0, day(0), -0.15, 6.0),
        q(Right::Call, 5050.0, day(0), 0.15, 6.5),
    ];
    let mut p = naked_params();
    p.allow_naked = false;
    assert!(select(&p, "SPX", fx(5000.0), &quotes, day(0)).is_none());
    p.allow_naked = true;
    assert!(select(&p, "SPX", fx(5000.0), &quotes, day(0)).is_some());
}

#[test]
fn builds_one_lot_with_notional_proxy() {
    let quotes = vec![
        q(Right::Put, 4950.0, day(0), -0.15, 6.0),
        q(Right::Call, 5050.0, day(0), 0.15, 6.5),
    ];
    let s = strangle::select(&naked_params(), "SPX", fx(5000.0), &quotes, day(0))
        .expect("a strangle");
    assert_eq!(s.quantity, 1);
    assert_eq!(s.limit_price, fx(12.5));
    assert_eq!(s.capital_required, wide(495_000.0));
}

// --- payoffs ----------------------------------------------------------------

#[test]
fn net_credit_sums_signed_premia() {
    let legs = vec![
        l(Right::Put, 100.0, LegSide::Sell, 2.00),
        l(Right::Put, 95.0, LegSide::Buy, 0.80),
    ];
    assert_eq!(net_credit(&legs), wide(1.20));
}

#[test]
fn put_credit_spread_risk_and_breakeven() {
    let legs = vec![
        l(Right::Put, 100.0, LegSide::Sell, 2.00),
        l(Right::Put, 95.0, LegSide::Buy, 0.80),
    ];
    assert_eq!(max_loss_per_share(&legs), wide(3.80));
    assert_eq!(payoff_at(&legs, fx(105.0)), wide(1.20));
    assert_eq!(payoff_at(&legs, fx(90.0)), -wide(3.80));
    let bes = breakevens(&legs);
    assert_eq!(bes.len(), 1);
    assert!(close_to(bes[0], 98.80));
}

#[test]
fn iron_condor_caps_both_sides_with_two_breakevens() {
    let legs = vec![
        l(Right::Put, 95.0, LegSide::Buy, 0.80),
        l(Right::Put, 100.0, LegSide::Sell, 2.00),
        l(Right::Call, 110.0, LegSide::Sell, 1.50),
        l(Right::Call, 115.0, LegSide::Buy, 0.50),
    ];
    assert_eq!(net_credit(&legs), wide(2.20));
    assert_eq!(max_loss_per_share(&legs), wide(2.80));
    assert_eq!(payoff_at(&legs, fx(105.0)), wide(2.20));
    let bes = breakevens(&legs);
    assert_eq!(bes.len(), 2);
    assert!(close_to(bes[0], 97.80));
    assert!(close_to(bes[1], 112.20));
    // No price loses more than the stated cap.
    for x in 0..300 {
        assert!(payoff_at(&legs, fx(x as f64)) >= -wide(2.80));
    }
}

#[test]
fn size_qty_respects_budget() {
    assert_eq!(size_qty(wide(2.80), fx(2500.0)), 8);
    assert_eq!(size_qty(wide(2.80), fx(250.0)), 0);
    assert_eq!(size_qty(0, fx(2500.0)), 0);
}

#[test]
fn estimate_pop_uses_distinct_short_strikes() {
    let mut legs = vec![
        l(Right::Put, 100.0, LegSide::Sell, 2.0),
        l(Right::Call, 110.0, LegSide::Sell, 1.5),
    ];
    assert_eq!(estimate_pop(&legs), None);
    legs[0].delta = Some(fx(-0.16));
    legs[1].delta = Some(fx(0.12));
    assert_eq!(estimate_pop(&legs), Some(fx(0.72)));
    // A strike sold twice counts once.
    let again = legs[0];
    legs.push(again);
    assert_eq!(estimate_pop(&legs), Some(fx(0.72)));
}

#[test]
fn candidates_are_zero_the_strikes_and_beyond() {
    let legs = vec![
        l(Right::Put, 100.0, LegSide::Sell, 2.0),
        l(Right::Put, 95.0, LegSide::Buy, 0.8),
    ];
    let spots = candidate_spots(&legs);
    assert!(spots.contains(&0) && spots.contains(&fx(95.0)) && spots.contains(&fx(100.0)));
    assert!(spots.windows(2).all(|w| w[0] < w[1]));
    assert!(*spots.last().unwrap() > fx(100.0));
}

#[test]
fn strikes_are_picked_by_delta_and_by_distance() {
    let chain = condor_chain();
    assert!(is_otm(Right::Put, fx(4950.0), fx(5000.0)));
    assert!(!is_otm(Right::Call, fx(4950.0), fx(5000.0)));
    let p = nearest_by_delta(&chain, Right::Put, fx(5000.0), fx(0.14), fx(0.06), day(0));
    assert_eq!(p.map(|q| q.strike), Some(fx(4950.0)));
    let none = nearest_by_delta(&chain, Right::Put, fx(5000.0), fx(0.40), fx(0.06), day(0));
    assert!(none.is_none());
    let k = nearest_by_strike(&chain, Right::Call, None, wide(5070.0));
    assert_eq!(k.map(|q| q.strike), Some(fx(5075.0)));
    let other_day = nearest_by_strike(&chain, Right::Call, Some(day(1)), wide(5070.0));
    assert!(other_day.is_none());
    let short = leg(&chain[1], LegSide::Sell);
    assert_eq!(short.price, fx(6.0));
    assert_eq!(short.delta, Some(fx(0.15)));
}

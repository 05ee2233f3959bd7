use betterwheel::config::Config;
use betterwheel::dates::{day_of, parse_instant, ClockTime};
use betterwheel::engine::structures::assemble::build_defined_risk;
use betterwheel::engine::structures::iron_condor::call_delta_of;
use betterwheel::engine::types::{
    ActionKind, LegSide, Right, StructureKind, StructureLeg, Suggestion,
};
use betterwheel::ibkr::{OrderOutcome, OrderState};
use betterwheel::store::models::{JournalRow, WatchlistRow, WheelPositionRow, ZeroDtePositionRow};
use betterwheel::tui::app::{App, Tab};
use betterwheel::tui::legs::{combo_legs_from, encode_legs, ComboOrder};
use betterwheel::tui::rolls::{PendingRoll, RollTarget};
use betterwheel::tui::schedule::eastern_wall;
use betterwheel::tui::zerodte::{
    close_entry, close_sent, read_entry_clocks, stop_reason, unplaced_status, StopReason, TickGate,
};

fn fx(x: f64) -> i64 {
    (x * 1e6).round() as i64
}

fn app() -> App {
    let mut a = App::new(Config::default(), true, None, None, Vec::new());
    a.cfg.zerodte.strategies[0].automate = true;
    a
}

fn et(s: &str) -> ClockTime {
    eastern_wall(parse_instant(s).unwrap())
}

fn leg(right: Right, strike: f64, side: LegSide, price: f64) -> StructureLeg {
    StructureLeg { right, strike: fx(strike), side, price: fx(price), delta: None }
}

fn condor_legs() -> Vec<StructureLeg> {
    vec![
        leg(Right::Put, 7480.0, LegSide::Buy, 3.0),
        leg(Right::Put, 7510.0, LegSide::Sell, 5.0),
        leg(Right::Call, 7635.0, LegSide::Sell, 5.2),
        leg(Right::Call, 7660.0, LegSide::Buy, 2.6),
    ]
}

fn condor(quantity: i32) -> Suggestion {
    Suggestion {
        symbol: "SPX".into(),
        kind: ActionKind::OpenStructure { kind: StructureKind::IronCondor, legs: condor_legs() },
        right: Right::Put,
        strike: fx(7510.0),
        underlying_price: fx(7570.0),
        expiry: day_of(2026, 7, 15).unwrap(),
        dte: 0,
        quantity,
        limit_price: fx(4.6),
        delta: None,
        premium_total: fx(460.0) as i128,
        capital_required: fx(2540.0) as i128,
        annualized_yield: 0,
        rationale: String::new(),
    }
}

fn row(status: &str, created_at: &str) -> ZeroDtePositionRow {
    ZeroDtePositionRow {
        entry_oid: "1".into(),
        slot: 0,
        strategy: "Iron Condor".into(),
        underlying: "SPX".into(),
        expiry: "20260715".into(),
        legs: encode_legs(&combo_legs_from(&condor_legs())),
        entry_credit: fx(4.6),
        quantity: 1,
        max_loss: fx(2540.0) as i128,
        profit_target_pct: fx(0.4),
        status: status.into(),
        close_oid: None,
        entry_date: "2026-07-15".into(),
        created_at: created_at.into(),
    }
}

#[test]
fn a_slot_enters_once_and_within_the_guardrails() {
    let mut a = app();
    a.zerodte_suggestions = vec![Some(condor(1))];
    assert_eq!(a.begin_tick(), TickGate::Go);
    let now = et("2026-07-15T14:30:00Z");
    let none: Vec<ZeroDtePositionRow> = Vec::new();
    assert_eq!(a.due_slots(&none, &Vec::new(), now, "2026-07-15"), vec![0]);
    // Before its time, and after it has entered today.
    let early = et("2026-07-15T13:40:00Z");
    assert!(a.due_slots(&none, &Vec::new(), early, "2026-07-15").is_empty());
    let held = vec![row("open", "2026-07-15T14:20:00+00:00")];
    let clocks = read_entry_clocks(&held);
    assert_eq!(clocks.len(), 1);
    assert!(clocks[0].is_some());
    assert!(a.due_slots(&held, &clocks, now, "2026-07-15").is_empty());
    assert_eq!(read_entry_clocks(&vec![row("open", "bad")]), vec![None]);
    // Nothing to enter, or too much of it.
    a.zerodte_suggestions = vec![None];
    assert!(a.due_slots(&none, &Vec::new(), now, "2026-07-15").is_empty());
    a.zerodte_suggestions = vec![Some(condor(11))];
    assert!(a.due_slots(&none, &Vec::new(), now, "2026-07-15").is_empty());
    // Not automated.
    a.zerodte_suggestions = vec![Some(condor(1))];
    a.cfg.zerodte.strategies[0].automate = false;
    assert!(a.due_slots(&none, &Vec::new(), now, "2026-07-15").is_empty());
    assert_eq!(a.begin_tick(), TickGate::Skip);
}

#[test]
fn an_entry_orders_what_the_slot_suggests() {
    let mut a = app();
    a.zerodte_suggestions = vec![None, Some(condor(2)), Some(condor(11))];
    assert!(a.entry_order(0).is_none());
    assert!(a.entry_order(2).is_none());
    assert!(a.entry_order(3).is_none());
    let order = a.entry_order(1).expect("an order");
    assert_eq!(order.symbol, "SPX");
    assert_eq!(order.expiry_yyyymmdd, "20260715");
    assert_eq!(order.legs, combo_legs_from(&condor_legs()));
    assert_eq!((order.quantity, order.net_credit), (2, fx(4.6)));
}

#[test]
fn an_entry_is_stored_once_it_is_submitted() {
    let mut a = app();
    let s = condor(1);
    let order = ComboOrder {
        symbol: "SPX".into(),
        expiry_yyyymmdd: "20260715".into(),
        legs: combo_legs_from(&condor_legs()),
        quantity: 1,
        net_credit: fx(4.6),
    };
    let kind = StructureKind::IronCondor;
    let sent = Ok(OrderOutcome::Submitted("77".into()));
    let (row, entry) =
        a.finish_entry(0, &s, kind, &order, fx(0.4), "2026-07-15", &sent).expect("rows");
    assert_eq!(row.entry_oid, "77");
    assert_eq!(row.status, "pending");
    assert_eq!(row.legs, "B:7480:P:1;S:7510:P:1;S:7635:C:1;B:7660:C:1");
    assert_eq!(row.entry_credit, fx(4.6));
    assert_eq!(entry.ibkr_order_id.as_deref(), Some("77"));
    assert_eq!(entry.note.as_deref(), Some("AUTO entry: Iron Condor 0DTE"));
    assert_eq!(a.status, "⚡ AUTO entered SPX Iron Condor ×1 → id 77");
    let failed = Err("no route".to_string());
    assert!(a.finish_entry(0, &s, kind, &order, fx(0.4), "2026-07-15", &failed).is_none());
    assert_eq!(a.status, "⚡ AUTO entry Iron Condor failed: no route");
}

#[test]
fn stops_watch_open_positions() {
    let mut a = app();
    let now = et("2026-07-15T19:35:00Z");
    // No stop is configured: nothing to price.
    assert!(a.stop_watch(&row("open", ""), now).is_none());
    a.cfg.zerodte.strategies[0].stop_loss_mult = fx(1.2);
    assert!(a.stop_watch(&row("pending", ""), now).is_none());
    let w = a.stop_watch(&row("open", ""), now).expect("a watch");
    assert_eq!(w.legs.len(), 4);
    assert!(!w.timed_out);
    // Credit 4.60: the stop is at a cost of 4.60 + 5.52.
    assert_eq!(stop_reason(fx(10.12), &row("open", ""), &w), Some(StopReason::StopLoss));
    assert_eq!(stop_reason(fx(10.11), &row("open", ""), &w), None);
    a.cfg.zerodte.strategies[0].time_stop_hhmm = Some("15:30".into());
    let w = a.stop_watch(&row("open", ""), now).expect("a watch");
    assert!(w.timed_out);
    assert_eq!(stop_reason(fx(1.0), &row("open", ""), &w), Some(StopReason::TimeStop));
    assert_eq!(StopReason::TimeStop.text(), "time-stop");
    a.note_stop_close("Iron Condor", StopReason::StopLoss, &Ok("9".into()));
    assert_eq!(a.status, "⚡ Iron Condor stop-loss → closing (id 9)");
    a.note_stop_close("Iron Condor", StopReason::TimeStop, &Err("no".into()));
    assert_eq!(a.status, "⚡ Iron Condor time-stop close failed: no");
}

#[test]
fn closes_are_journaled_under_their_order() {
    let a = app();
    let p = row("open", "");
    let close = a.place_profit_close(&p).expect("a close");
    assert_eq!(close.note, "AUTO profit-close @ 40% (debit 2.76)");
    assert_eq!(close.cancels, None);
    let mut covered = row("open", "2026-07-15T14:20:00+00:00");
    covered.close_oid = Some("55".into());
    let stop = a.close_structure_now(&covered, fx(9.0), StopReason::StopLoss).expect("a close");
    assert_eq!(stop.cancels.as_deref(), Some("55"));
    assert_eq!(unplaced_status(&Err("no".into())), Some("open"));
    assert_eq!(unplaced_status(&Ok("88".into())), None);
    let entry = close_entry(&p, &close, "88");
    assert_eq!(entry.action, "Iron Condor close");
    assert_eq!(entry.limit_price, Some(fx(2.76)));
    assert_eq!(entry.status, "submitted");
    assert_eq!(close_sent(Ok(OrderOutcome::Submitted("88".into()))), Ok("88".to_string()));
    let state = OrderState { initial_margin_after: None, commission: None, status: String::new() };
    assert_eq!(
        close_sent(Ok(OrderOutcome::Preview(state))),
        Err("unexpected preview".to_string())
    );
    assert_eq!(close_sent(Err("no".into())), Err("no".to_string()));
}

#[test]
fn structures_need_credit_and_a_budget() {
    let mut params = Config::default().zerodte.strategies.remove(0);
    params.call_delta = 0;
    assert_eq!(call_delta_of(&params), params.short_delta);
    params.call_delta = fx(0.2);
    assert_eq!(call_delta_of(&params), fx(0.2));
    let (today, legs) = (day_of(2026, 7, 15).unwrap(), condor_legs());
    let s = build_defined_risk(&params, "SPX", fx(7570.0), today, today, legs.clone(), legs[1])
        .expect("a structure");
    assert_eq!(s.limit_price, fx(4.6));
    // The wider wing has 30 points: 25.40 at risk per share.
    assert_eq!(s.capital_required, fx(2540.0) as i128);
    params.min_credit = fx(4.61);
    assert!(build_defined_risk(&params, "SPX", fx(7570.0), today, today, legs.clone(), legs[1])
        .is_none());
    params.min_credit = fx(1.0);
    params.max_risk = fx(2539.0);
    assert!(build_defined_risk(&params, "SPX", fx(7570.0), today, today, legs.clone(), legs[1])
        .is_none());
}

#[test]
fn what_a_roll_says() {
    let mut a = app();
    let mut s = condor(2);
    s.kind = ActionKind::Roll { to_expiry: day_of(2026, 8, 21).unwrap(), to_strike: fx(90.0) };
    s.symbol = "AAPL".into();
    s.strike = fx(95.0);
    let target = RollTarget { expiry: "20260821".into(), strike: fx(90.0), credit: fx(2.0) };
    let state = |margin: f64| OrderState {
        initial_margin_after: Some(fx(margin)),
        commission: None,
        status: String::new(),
    };
    let entry = a.finish_roll_preview(
        &s,
        "20260717",
        &target,
        fx(1.5),
        &Ok(OrderOutcome::Preview(state(100.0))),
        &Err("no".into()),
    );
    assert_eq!(
        a.status,
        "preview roll AAPL: close 95.0P@1.50 [margin $100] → open 90.0P 20260821@2.00 [err: no]; net credit $0.50/sh"
    );
    assert_eq!(entry.premium, Some(fx(100.0) as i128));
    assert_eq!(
        entry.note.as_deref(),
        Some("close 95.0P 20260717@1.50 / open 90.0P 20260821@2.00; net +0.50")
    );
    a.roll_unresolved("AAPL", false);
    assert!(a.status.ends_with("aborted, nothing transmitted"));
    a.roll_not_openable("AAPL", "margin");
    assert!(a.status.contains("new leg not openable (margin)"), "{}", a.status);
    a.roll_abandoned("AAPL");
    assert!(a.status.contains("short still open"), "{}", a.status);
}

#[test]
fn local_state_is_taken_over() {
    let mut a = App::new(Config::default(), false, None, None, Vec::new());
    a.tab = Tab::Watchlist;
    a.selected = 5;
    let watch = WatchlistRow {
        symbol: "AAPL".into(),
        sec_type: "STK".into(),
        enabled: 1,
        tradable: None,
        tradable_reason: None,
        conid: None,
        notes: None,
        added_at: String::new(),
    };
    let positions: Vec<WheelPositionRow> = Vec::new();
    let journal: Vec<JournalRow> = Vec::new();
    a.load_local(vec![watch], journal, positions, vec![condor(1)], vec![None]);
    assert_eq!(a.selected, 0);
    assert_eq!(a.suggestions.len(), 1);
    assert_eq!(a.zerodte_suggestions.len(), 1);
    a.pending_rolls = vec![PendingRoll {
        symbol: "MSFT".into(),
        right: Right::Put,
        near_strike: fx(100.0),
        near_expiry: "20260619".into(),
        to_strike: fx(95.0),
        to_expiry: "20260717".into(),
        quantity: 1,
        far_limit: fx(2.0),
        close_oid: "1".into(),
        reconstructed: false,
    }];
    assert_eq!(a.pending_symbols(), vec!["MSFT".to_string()]);
}

use betterwheel::config::{Config, TradingMode, UserSettings, ZeroDteSettings};
use betterwheel::data::wheel_updates;
use betterwheel::dates::day_of;
use betterwheel::engine::types::{ActionKind, LegSide, Right, StructureKind, StructureLeg, Suggestion};
use betterwheel::engine::types::WheelState;
use betterwheel::ibkr::{
    OpenOrderInfo, OrderOutcome, OrderState, PositionRow, Side,
};
use betterwheel::store::models::{
    NewJournalEntry, PendingRollRow, WatchlistRow, WheelPositionRow, ZeroDtePositionRow,
};
use betterwheel::tui::app::{
    initial_status, Action, App, Effect, InputMode, SugList, Tab, LIVE_CONFIRM_PHRASE,
};
use betterwheel::tui::events::{
    journal_status_for, journal_step, order_end, zerodte_step, zerodte_text, AfterEvent, OrderEnd,
    RollStep, ZerodteStep,
};
use betterwheel::tui::keys::{Key, KeyCode};
use betterwheel::tui::legs::{
    combo_cost, combo_legs_from, decode_legs, encode_legs, is_package, reverse_legs, structure_held,
    ComboLeg,
};
use betterwheel::tui::orders::{
    journal_entry_for, order_plan, preview_margin_commission, preview_summary, side_and_right,
    OrderPlan, Verdict,
};
use betterwheel::tui::reload::{LiveData, ReloadStep};
use betterwheel::tui::rolls::{
    fate_of, finish_roll_open, near_cost_of, order_is_open, roll_leg_journal, roll_orders,
    PendingRoll, RollAct, RollFate, RollGate, RollTarget,
};
use betterwheel::tui::zerodte::{
    reconcile_action, reconcile_position, StopReason, TickGate, ZerodteReconcile,
};

fn fx(x: f64) -> i64 {
    (x * 1e6).round() as i64
}

fn offline_app() -> App {
    App::new(Config::default(), false, None, None, Vec::new())
}

fn sug(kind: ActionKind, right: Right) -> Suggestion {
    Suggestion {
        symbol: "AAPL".into(),
        kind,
        right,
        strike: fx(100.0),
        underlying_price: fx(105.0),
        expiry: day_of(2026, 6, 19).unwrap(),
        dte: 30,
        quantity: 1,
        limit_price: fx(1.0),
        delta: None,
        premium_total: fx(100.0) as i128,
        capital_required: 0,
        annualized_yield: 0,
        rationale: String::new(),
    }
}

fn sell_put(qty: i32) -> Suggestion {
    let mut s = sug(ActionKind::SellPut, Right::Put);
    s.quantity = qty;
    s
}

fn sell_put_spread(qty: i32) -> Suggestion {
    let kind = ActionKind::SellPutSpread { long_strike: fx(95.0), long_price: fx(1.0) };
    let mut s = sug(kind, Right::Put);
    s.quantity = qty;
    s
}

fn short_put_at(symbol: &str, strike: f64, contracts: f64) -> PositionRow {
    PositionRow {
        account: String::new(),
        symbol: symbol.into(),
        security_type: "Option".into(),
        right: "P".into(),
        strike: fx(strike),
        expiry: "20260619".into(),
        position: -fx(contracts),
        average_cost: 0,
        multiplier: "100".into(),
    }
}

fn watch_row(symbol: &str, tradable: Option<i64>) -> WatchlistRow {
    WatchlistRow {
        symbol: symbol.into(),
        sec_type: "STK".into(),
        enabled: 1,
        tradable,
        tradable_reason: None,
        conid: None,
        notes: None,
        added_at: String::new(),
    }
}

fn pending(close_oid: &str, reconstructed: bool) -> PendingRoll {
    PendingRoll {
        symbol: "AAPL".into(),
        right: Right::Put,
        near_strike: fx(100.0),
        near_expiry: "20260619".into(),
        to_strike: fx(95.0),
        to_expiry: "20260717".into(),
        quantity: 1,
        far_limit: fx(2.00),
        close_oid: close_oid.into(),
        reconstructed,
    }
}

fn open_order(id: &str, symbol: &str) -> OpenOrderInfo {
    OpenOrderInfo { order_id: id.into(), symbol: symbol.into() }
}

fn stored(symbol: &str, state: &str) -> WheelPositionRow {
    WheelPositionRow {
        symbol: symbol.into(),
        state: state.into(),
        shares: 0,
        cost_basis: 0,
        cumulative_premium: 0,
        updated_at: String::new(),
    }
}

// --- the gates on execution -------------------------------------------------

#[test]
fn execute_blocked_when_disarmed() {
    let mut app = offline_app();
    app.armed = false;
    assert!(app.start_order(&sell_put(1), false).is_none());
    assert!(app.status.contains("disarmed"), "status: {}", app.status);
}

#[test]
fn execute_blocked_when_read_only() {
    let mut app = offline_app();
    app.armed = true;
    app.cfg.guardrails.read_only = true;
    assert!(app.start_order(&sell_put(1), false).is_none());
    assert!(app.status.contains("read_only"), "status: {}", app.status);
}

#[test]
fn execute_blocked_when_quantity_exceeds_max() {
    let mut app = offline_app();
    app.armed = true;
    app.cfg.guardrails.read_only = false;
    app.cfg.guardrails.max_contracts_per_order = 2;
    assert!(app.start_order(&sell_put(5), false).is_none());
    assert!(app.status.contains("exceeds max_contracts_per_order"), "status: {}", app.status);
}

#[test]
fn execute_passes_guards_then_halts_without_connection() {
    let mut app = offline_app();
    app.armed = true;
    app.cfg.guardrails.read_only = false;
    app.cfg.guardrails.max_contracts_per_order = 10;
    assert_eq!(app.execute_verdict(&sell_put(1)), Verdict::Pass);
    assert!(app.start_order(&sell_put(1), false).is_none());
    assert!(app.status.contains("not connected"), "status: {}", app.status);
}

#[test]
fn spread_execute_blocked_when_disarmed() {
    let mut app = offline_app();
    app.armed = false;
    assert!(app.start_order(&sell_put_spread(1), false).is_none());
    assert!(app.status.contains("disarmed"), "status: {}", app.status);
}

#[test]
fn spread_execute_blocked_when_read_only() {
    let mut app = offline_app();
    app.armed = true;
    app.cfg.guardrails.read_only = true;
    assert!(app.start_order(&sell_put_spread(1), false).is_none());
    assert!(app.status.contains("read_only"), "status: {}", app.status);
}

#[test]
fn execute_blocked_when_over_total_deployed() {
    let mut app = offline_app();
    app.armed = true;
    app.cfg.guardrails.read_only = false;
    app.cfg.guardrails.max_contracts_per_order = 10;
    app.cfg.guardrails.max_total_deployed = fx(5_000.0);
    assert!(app.start_order(&sell_put(1), false).is_none());
    assert!(app.status.contains("max_total_deployed"), "status: {}", app.status);
}

#[test]
fn deployment_cap_counts_already_deployed_collateral() {
    let mut app = offline_app();
    app.armed = true;
    app.cfg.guardrails.read_only = false;
    app.cfg.guardrails.max_contracts_per_order = 10;
    app.cfg.guardrails.max_total_deployed = fx(15_000.0);
    app.broker_positions = vec![short_put_at("MSFT", 100.0, 1.0)];
    assert!(app.start_order(&sell_put(1), false).is_none());
    assert!(app.status.contains("already deployed"), "status: {}", app.status);
    app.cfg.guardrails.max_total_deployed = fx(20_000.0);
    assert_eq!(app.execute_verdict(&sell_put(1)), Verdict::Pass);
}

#[test]
fn execute_blocked_until_live_confirmed() {
    let mut app = offline_app();
    app.armed = true;
    app.cfg.guardrails.read_only = false;
    app.cfg.connection.mode = TradingMode::Live;
    app.cfg.guardrails.require_live_confirmation = true;
    assert!(!app.live_gate_ok());
    assert!(app.start_order(&sell_put(1), false).is_none());
    assert!(app.status.contains("LIVE not confirmed"), "status: {}", app.status);
    app.live_confirmed = true;
    assert!(app.live_gate_ok());
}

#[test]
fn submit_input_confirms_live_only_on_exact_phrase() {
    let mut app = offline_app();
    app.cfg.connection.mode = TradingMode::Live;
    app.input = InputMode::ConfirmLive("LIV".into());
    app.dispatch(Action::SubmitInput);
    assert!(!app.live_confirmed);
    assert!(app.status.contains("mismatch"), "status: {}", app.status);
    app.input = InputMode::ConfirmLive(LIVE_CONFIRM_PHRASE.into());
    app.dispatch(Action::SubmitInput);
    assert!(app.live_confirmed);
    let mut other = offline_app();
    assert!(!other.ui_confirm_live("live"));
    assert!(other.ui_confirm_live(" LIVE "));
}

#[test]
fn connected_orders_are_planned() {
    let mut app = offline_app();
    app.connected = true;
    app.armed = true;
    app.cfg.guardrails.read_only = false;
    let Some(OrderPlan::Single { order, entry }) = app.start_order(&sell_put(1), false) else {
        panic!("expected a single order");
    };
    assert_eq!(order.symbol, "AAPL");
    assert_eq!(order.expiry_yyyymmdd, "20260619");
    assert_eq!(order.side, Side::Sell);
    assert_eq!(order.right, "P");
    assert_eq!(order.limit, fx(1.0));
    assert_eq!(entry.action, "SellPut");
    let done = app.finish_order(
        &sell_put(1),
        false,
        entry,
        &Ok(OrderOutcome::Submitted("17".into())),
    );
    assert_eq!(done.status, "submitted");
    assert_eq!(done.ibkr_order_id.as_deref(), Some("17"));
    let Some(OrderPlan::Spread { order, .. }) = app.start_order(&sell_put_spread(1), true) else {
        panic!("expected a spread");
    };
    assert_eq!(order.long_strike, fx(95.0));
    assert_eq!(order.net_credit, fx(1.0));
}

#[test]
fn previews_need_no_arming() {
    let mut app = offline_app();
    app.connected = true;
    app.armed = false;
    assert!(app.start_order(&sell_put(1), true).is_some());
    let entry = journal_entry_for(&sell_put(1), "20260619", "P");
    let state = OrderState {
        initial_margin_after: Some(fx(1234.5)),
        commission: None,
        status: "PreSubmitted".into(),
    };
    let done = app.finish_order(&sell_put(1), true, entry, &Ok(OrderOutcome::Preview(state)));
    assert_eq!(done.status, "previewed");
    let failed = app.finish_order(
        &sell_put(1),
        true,
        journal_entry_for(&sell_put(1), "20260619", "P"),
        &Err("no route".into()),
    );
    assert_eq!(failed.status, "rejected");
}

#[test]
fn preview_texts() {
    let state = OrderState {
        initial_margin_after: Some(fx(1234.4)),
        commission: Some(fx(1.255)),
        status: String::new(),
    };
    let (margin, commission) = preview_margin_commission(&state);
    assert_eq!(margin, "$1234");
    assert_eq!(commission, "$1.26");
    assert_eq!(preview_summary(&Ok(OrderOutcome::Preview(state))), "margin $1234");
    assert_eq!(preview_summary(&Ok(OrderOutcome::Submitted("1".into()))), "?");
    assert_eq!(preview_summary(&Err("boom".into())), "err: boom");
}

#[test]
fn side_and_right_covers_executable_kinds() {
    assert_eq!(
        side_and_right(&sug(ActionKind::SellPut, Right::Put)).map(|(s, r)| (s, r.code())),
        Some((Side::Sell, "P"))
    );
    assert_eq!(
        side_and_right(&sug(ActionKind::SellCall, Right::Call)).map(|(s, r)| (s, r.code())),
        Some((Side::Sell, "C"))
    );
    assert_eq!(
        side_and_right(&sug(ActionKind::CloseForProfit, Right::Put)).map(|(s, r)| (s, r.code())),
        Some((Side::Buy, "P"))
    );
    assert_eq!(
        side_and_right(&sug(ActionKind::CloseForProfit, Right::Call)).map(|(s, r)| (s, r.code())),
        Some((Side::Buy, "C"))
    );
    assert!(side_and_right(&sell_put_spread(1)).is_none());
}

// --- order events -----------------------------------------------------------

#[test]
fn journal_status_mapping() {
    assert_eq!(journal_status_for("Filled"), Some("filled"));
    assert_eq!(journal_status_for("Cancelled"), Some("cancelled"));
    assert_eq!(journal_status_for("ApiCancelled"), Some("cancelled"));
    assert_eq!(journal_status_for("Inactive"), Some("rejected"));
    assert_eq!(journal_status_for("Submitted"), None);
    assert_eq!(journal_status_for("PreSubmitted"), None);
    assert_eq!(journal_status_for("PendingSubmit"), None);
    assert_eq!(journal_status_for("whatever"), None);
}

#[test]
fn fill_event_transitions_journal_to_filled() {
    let mut app = offline_app();
    let step = journal_step(42, "Filled", fx(1.0), fx(1.85));
    assert_eq!(step.oid, "42");
    assert_eq!(step.end, Some(OrderEnd::Filled));
    assert_eq!(OrderEnd::Filled.text(), "filled");
    assert_eq!(step.note.as_deref(), Some("filled 1 @ 1.85"));
    let after = app.settle_event("42", step.end, fx(1.0), None, None);
    assert!(!matches!(after, AfterEvent::Nothing));
    assert!(app.status.contains("filled"), "status: {}", app.status);
}

#[test]
fn cancel_event_transitions_journal_to_cancelled() {
    assert_eq!(journal_step(7, "Cancelled", 0, 0).end, Some(OrderEnd::Cancelled));
    assert_eq!(OrderEnd::Cancelled.text(), "cancelled");
}

#[test]
fn inactive_event_is_recorded_as_rejected() {
    assert_eq!(journal_step(9, "Inactive", 0, 0).end, Some(OrderEnd::Rejected));
    assert_eq!(OrderEnd::Rejected.text(), "rejected");
}

#[test]
fn event_for_foreign_order_leaves_journal_untouched() {
    let mut app = offline_app();
    app.pending_rolls.push(pending("42", false));
    let step = app.roll_step("999", false, order_end("Filled"), fx(1.0));
    assert!(matches!(step, RollStep::Foreign));
    assert_eq!(app.pending_rolls.len(), 1);
}

#[test]
fn working_ack_with_no_fill_is_ignored() {
    let step = journal_step(42, "Submitted", 0, 0);
    assert_eq!(step.end, None);
    assert_eq!(step.note, None);
}

#[test]
fn notice_event_surfaces_on_status_line() {
    let mut app = offline_app();
    app.show_notice("heads up");
    assert!(app.status.contains("broker: heads up"), "status: {}", app.status);
}

// --- rolls ------------------------------------------------------------------

#[test]
fn filled_close_completes_pending_roll_and_keeps_record_on_offline_open() {
    let mut app = offline_app();
    app.pending_rolls.push(pending("50", false));
    let RollStep::Open(p) = app.roll_step("50", true, order_end("Filled"), fx(1.0)) else {
        panic!("expected the open leg");
    };
    assert!(app.pending_rolls.is_empty());
    let refused = app.open_rolled_leg(&p);
    assert!(refused.is_err_and(|e| e.contains("not connected")));
}

#[test]
fn cancelled_close_abandons_pending_roll() {
    let mut app = offline_app();
    app.pending_rolls.push(pending("60", false));
    let RollStep::Dropped { close_oid, status } =
        app.roll_step("60", true, order_end("Cancelled"), 0)
    else {
        panic!("expected the roll to be dropped");
    };
    assert!(app.pending_rolls.is_empty());
    assert_eq!(close_oid, "60");
    assert!(status.contains("not opened"), "status: {status}");
}

#[test]
fn working_close_keeps_the_roll_waiting() {
    let mut app = offline_app();
    app.pending_rolls.push(pending("60", false));
    let step = app.roll_step("60", true, order_end("Submitted"), fx(1.0));
    assert!(matches!(step, RollStep::Nothing));
    assert_eq!(app.pending_rolls.len(), 1);
}

#[test]
fn recycled_ids_are_not_trusted() {
    // A roll of an earlier session is not completed by an order that the journal
    // does not know.
    let mut app = offline_app();
    app.pending_rolls.push(pending("60", true));
    let step = app.roll_step("60", false, order_end("Filled"), fx(1.0));
    assert!(matches!(step, RollStep::Foreign));
    assert_eq!(app.pending_rolls.len(), 1);
    let known = app.roll_step("60", true, order_end("Filled"), fx(1.0));
    assert!(matches!(known, RollStep::Open(_)));
}

#[test]
fn rolls_survive_a_restart() {
    let p = pending("55", false);
    let back = PendingRoll::from_row(p.to_row());
    assert_eq!(back.symbol, p.symbol);
    assert_eq!(back.right, p.right);
    assert_eq!(back.near_strike, p.near_strike);
    assert_eq!(back.to_expiry, p.to_expiry);
    assert_eq!(back.quantity, p.quantity);
    assert_eq!(back.far_limit, p.far_limit);
    assert_eq!(back.close_oid, "55");
    assert!(back.reconstructed);
    let app = App::new(Config::default(), false, None, None, vec![p.to_row()]);
    assert_eq!(app.pending_rolls.len(), 1);
    assert!(app.roll_in_flight("AAPL"));
    assert!(!app.roll_in_flight("MSFT"));
}

#[test]
fn ended_rolls_are_taken_from_the_last_session_only() {
    let mut app = offline_app();
    app.pending_rolls = vec![pending("1", true), pending("2", true), pending("3", false)];
    let open = vec![open_order("2", "AAPL")];
    assert!(order_is_open(&open, "2") && !order_is_open(&open, "1"));
    let ended = app.take_ended_rolls(&open);
    assert_eq!(ended.len(), 1);
    assert_eq!(ended[0].close_oid, "1");
    assert_eq!(app.pending_rolls.len(), 2);
    // The near leg still held: the close did not fill.
    let held = vec![short_put_at("AAPL", 100.0, 1.0)];
    assert_eq!(fate_of(&ended[0], &held), RollFate::Abandon);
    assert_eq!(fate_of(&ended[0], &[]), RollFate::Complete);
    assert_eq!(
        RollFate::Abandon.journal(),
        ("cancelled", "roll close didn't fill (resolved offline); short still open")
    );
    assert_eq!(RollFate::Complete.journal(), ("filled", "close filled while offline"));
}

fn target() -> RollTarget {
    RollTarget { expiry: "20260717".into(), strike: fx(95.0), credit: fx(2.0) }
}

#[test]
fn a_roll_closes_before_it_opens() {
    let kind = ActionKind::Roll { to_expiry: day_of(2026, 7, 17).unwrap(), to_strike: fx(95.0) };
    let s = sug(kind, Right::Put);
    let (near, far) = roll_orders(&s, "20260619", &target(), fx(1.5));
    assert_eq!(near.side, Side::Buy);
    assert_eq!(near.strike, fx(100.0));
    assert_eq!(near.limit, fx(1.5));
    assert_eq!(far.side, Side::Sell);
    assert_eq!(far.strike, fx(95.0));
    assert_eq!(far.expiry_yyyymmdd, "20260717");
    let mut app = offline_app();
    app.connected = true;
    assert_eq!(app.begin_roll("AAPL", false), RollGate::Go);
    assert!(app.accept_roll("AAPL", &target(), fx(1.5)));
    assert!(!app.accept_roll("AAPL", &target(), fx(2.5)));
    let (row, entry) = app.finish_roll_close(
        &s,
        "20260619",
        &target(),
        fx(1.5),
        &Ok(OrderOutcome::Submitted("70".into())),
    );
    let row = row.expect("a row");
    assert_eq!(row.close_oid, "70");
    assert_eq!(row.right, "P");
    assert_eq!(row.near_strike, fx(100.0));
    assert_eq!(row.near_expiry, "20260619");
    assert_eq!(row.created_at, "");
    assert!(entry.is_some());
    assert_eq!(app.pending_rolls.len(), 1);
    assert_eq!(app.begin_roll("AAPL", false), RollGate::InFlight);
    let leg = roll_leg_journal("AAPL", "P", fx(100.0), "20260619", 1, fx(1.5));
    assert_eq!(leg.limit_price, Some(fx(1.5)));
}

#[test]
fn a_roll_transmits_only_its_close() {
    let kind = ActionKind::Roll { to_expiry: day_of(2026, 7, 17).unwrap(), to_strike: fx(95.0) };
    let s = sug(kind, Right::Put);
    let t = target();
    let state = OrderState { initial_margin_after: None, commission: None, status: "ok".into() };
    let passed: Result<OrderOutcome, String> = Ok(OrderOutcome::Preview(state));
    let refused: Result<OrderOutcome, String> = Err("no margin".into());
    let mut app = offline_app();
    app.status = "quiet".into();
    let act = app.next_roll_act(&s, "20260619", Some(&t), Some(fx(1.5)), None);
    let RollAct::CheckFar(far) = act else { panic!("no check") };
    assert_eq!((far.side, far.strike, far.limit), (Side::Sell, fx(95.0), fx(2.0)));
    let act = app.next_roll_act(&s, "20260619", Some(&t), Some(fx(1.5)), Some(&passed));
    let RollAct::CloseNear(near) = act else { panic!("no close") };
    assert_eq!((near.side, near.strike, near.limit), (Side::Buy, fx(100.0), fx(1.5)));
    assert_eq!(app.status, "quiet");
    // Without a quote the plan's price stands.
    assert_eq!(near_cost_of(&s, None), s.limit_price);
    let act = app.next_roll_act(&s, "20260619", Some(&t), None, Some(&passed));
    let RollAct::CloseNear(near) = act else { panic!("no close") };
    assert_eq!(near.limit, s.limit_price);
    let stops = |app: &mut App, t: Option<&RollTarget>, q, check| {
        assert!(matches!(app.next_roll_act(&s, "20260619", t, q, check), RollAct::Stop));
        app.status.clone()
    };
    assert!(stops(&mut app, Some(&t), Some(fx(1.5)), Some(&refused)).contains("(no margin)"));
    assert!(stops(&mut app, Some(&t), Some(fx(2.5)), Some(&passed)).contains("net debit ($0.50/sh)"));
    assert!(stops(&mut app, None, None, None).contains("can't resolve/price the new leg"));
    let sent = Ok(OrderOutcome::Submitted("70".into()));
    let _ = app.finish_roll_close(&s, "20260619", &t, fx(1.5), &sent);
    assert!(stops(&mut app, Some(&t), Some(fx(1.5)), Some(&passed)).contains("already in flight"));
}

#[test]
fn the_open_leg_stays_within_the_guardrails() {
    let mut app = offline_app();
    app.connected = true;
    app.cfg.guardrails.read_only = false;
    let order = app.open_rolled_leg(&pending("1", false)).expect("an order");
    assert_eq!(order.side, Side::Sell);
    assert_eq!(order.strike, fx(95.0));
    app.cfg.guardrails.read_only = true;
    assert!(app.open_rolled_leg(&pending("1", false)).is_err());
    app.cfg.guardrails.read_only = false;
    app.cfg.guardrails.max_contracts_per_order = 0;
    assert!(app.open_rolled_leg(&pending("1", false)).is_err());
    let sent = finish_roll_open(&pending("1", false), &Ok(OrderOutcome::Submitted("9".into())));
    assert!(sent.remove && sent.entry.is_some());
    let failed = finish_roll_open(&pending("1", false), &Err("no route".into()));
    assert!(!failed.remove);
}

// --- state ------------------------------------------------------------------

#[test]
fn is_symbol_blocked_reads_watchlist() {
    let mut app = offline_app();
    app.watchlist =
        vec![watch_row("AAPL", Some(0)), watch_row("MSFT", Some(1)), watch_row("TSLA", None)];
    assert!(app.is_symbol_blocked("AAPL"));
    assert!(!app.is_symbol_blocked("MSFT"));
    assert!(!app.is_symbol_blocked("TSLA"));
    assert!(!app.is_symbol_blocked("NVDA"));
}

#[test]
fn open_position_count_ignores_idle_and_unknown_states() {
    let mut app = offline_app();
    app.positions =
        vec![stored("AAPL", "ShortPut"), stored("MSFT", "Idle"), stored("NVDA", "garbage")];
    assert_eq!(app.open_position_count(), 1);
}

#[test]
fn sync_wheel_state_persists_reconciled_leg() {
    let mut row = short_put_at("AAPL", 90.0, 1.0);
    row.expiry = "20260116".into();
    row.average_cost = fx(150.0);
    let updates = wheel_updates(&[row], &Vec::new());
    assert_eq!(updates.len(), 1);
    assert_eq!(updates[0].symbol, "AAPL");
    assert_eq!(updates[0].state.as_str(), "ShortPut");
}

#[test]
fn sync_wheel_state_closes_vanished_position_but_keeps_premium() {
    // An update carries no premium, so what is stored stays.
    let updates = wheel_updates(&[], &vec!["AAPL".to_string()]);
    assert_eq!(updates.len(), 1);
    assert_eq!(updates[0].symbol, "AAPL");
    assert_eq!(updates[0].state, WheelState::Idle);
}

#[test]
fn zerodte_automate_toggle_persists_across_restart() {
    let mut app = offline_app();
    app.tab = Tab::ZeroDte;
    app.selected = 0;
    assert_eq!(app.zerodte_automating(), 0);
    let effect = app.dispatch(Action::ToggleAutomate);
    assert!(matches!(effect, Effect::SaveRoster { .. }));
    assert!(app.cfg.zerodte.strategies[0].automate);
    assert_eq!(app.zerodte_automating(), 1);
    let saved = ZeroDteSettings::snapshot(&app.cfg.zerodte);
    let app2 = App::new(Config::default(), false, None, Some(saved), Vec::new());
    assert!(app2.cfg.zerodte.strategies[0].automate, "automate not restored");
    assert_eq!(app2.zerodte_automating(), 1);
    app.dispatch(Action::SlotRisk(2));
    assert_eq!(app.cfg.zerodte.strategies[0].max_risk, fx(4000.0));
}

#[test]
fn tabs_wrap_around() {
    let mut app = offline_app();
    assert_eq!(app.tab, Tab::Dashboard);
    app.switch_tab(-1);
    assert_eq!(app.tab, Tab::Help);
    app.switch_tab(1);
    assert_eq!(app.tab, Tab::Dashboard);
    for (i, t) in Tab::ALL.iter().enumerate() {
        assert_eq!(t.index(), i);
    }
    assert_eq!(Tab::ZeroDte.title(), "0DTE");
}

#[test]
fn selection_stays_within_the_list() {
    let mut app = offline_app();
    app.tab = Tab::Watchlist;
    app.refresh_watchlist(vec![watch_row("A", None), watch_row("B", None)]);
    assert_eq!(app.list_len(), 2);
    app.move_selection(1);
    assert_eq!(app.selected, 1);
    app.move_selection(1);
    assert_eq!(app.selected, 0);
    app.move_selection(-1);
    assert_eq!(app.selected, 1);
    app.refresh_watchlist(vec![watch_row("A", None)]);
    assert_eq!(app.selected, 0);
}

#[test]
fn the_focused_suggestion_is_the_selected_one() {
    let mut app = offline_app();
    app.tab = Tab::Suggestions;
    app.suggestions = vec![sell_put(1), sell_put(2)];
    app.selected = 1;
    assert_eq!(app.selected_suggestion().map(|s| s.quantity), Some(2));
    assert!(app.sug_at(SugList::Hedged, 0).is_none());
    app.zerodte_suggestions = vec![None, Some(sell_put(7))];
    assert!(app.sug_at(SugList::ZeroDte, 0).is_none());
    assert_eq!(app.sug_at(SugList::ZeroDte, 1).map(|s| s.quantity), Some(7));
}

#[test]
fn stored_knobs_are_laid_over_the_configuration() {
    let knobs = UserSettings { target_win_pct: fx(80.0), take_profit_pct: fx(60.0) };
    let app = App::new(Config::default(), false, Some(knobs), None, Vec::new());
    assert_eq!(app.cfg.engine.target_delta, fx(0.20));
    assert_eq!(app.cfg.engine.take_profit_pct, fx(0.60));
    assert!(!app.armed && !app.live_confirmed && !app.connected);
    assert_eq!(app.status, initial_status(false));
    assert_eq!(app.mode_label(), "paper");
}

#[test]
fn keys_map_to_actions() {
    let mut app = offline_app();
    let key = |c: char| Key { code: KeyCode::Char(c), control: false };
    assert!(matches!(app.handle_key(key('q')), Some(Action::Quit)));
    assert!(matches!(
        app.handle_key(Key { code: KeyCode::Char('c'), control: true }),
        Some(Action::Quit)
    ));
    assert!(matches!(app.handle_key(key('3')), Some(Action::JumpTab(2))));
    assert!(app.handle_key(Key { code: KeyCode::Other, control: false }).is_none());
    // While typing, letters are text and nothing else.
    app.input = InputMode::AddSymbol(String::new());
    assert!(matches!(app.handle_key(key('x')), Some(Action::InputChar('x'))));
    assert!(matches!(app.handle_key(key('q')), Some(Action::InputChar('q'))));
}

#[test]
fn typing_a_symbol_adds_it_in_capitals() {
    let mut app = offline_app();
    app.tab = Tab::Watchlist;
    app.dispatch(Action::StartAddSymbol);
    for c in "aapl".chars() {
        app.dispatch(Action::InputChar(c));
    }
    app.dispatch(Action::InputChar('x'));
    app.dispatch(Action::Backspace);
    let Effect::AddSymbol(Some(symbol)) = app.dispatch(Action::SubmitInput) else {
        panic!("expected a symbol");
    };
    assert_eq!(symbol, "AAPL");
    assert!(matches!(app.input, InputMode::Normal));
}

#[test]
fn arming_is_refused_while_read_only() {
    let mut app = offline_app();
    app.cfg.guardrails.read_only = true;
    app.ui_set_armed(true);
    let armed_read_only = app.armed;
    app.cfg.guardrails.read_only = false;
    app.ui_set_armed(true);
    assert!(app.armed);
    app.ui_set_armed(false);
    assert!(!app.armed);
    // Whether or not arming is allowed while read-only, nothing is sent then.
    app.armed = armed_read_only;
    app.cfg.guardrails.read_only = true;
    app.connected = true;
    assert!(app.start_order(&sell_put(1), false).is_none());
}

// --- reloads ----------------------------------------------------------------

fn live_data(positions_ok: bool) -> LiveData {
    LiveData {
        account: None,
        watchlist: Vec::new(),
        journal: Vec::new(),
        positions: vec![stored("AAPL", "ShortPut")],
        broker_positions: vec![short_put_at("AAPL", 100.0, 1.0)],
        suggestions: vec![sell_put(1)],
        hedged_suggestions: Vec::new(),
        zerodte_suggestions: Vec::new(),
        open_orders: None,
        positions_ok,
    }
}

#[test]
fn reloads_are_coalesced() {
    let mut app = offline_app();
    assert!(matches!(app.request_reload(true), ReloadStep::Inline | ReloadStep::Spawn));
    app.connected = true;
    app.reloading = false;
    assert!(matches!(app.request_reload(true), ReloadStep::Spawn));
    assert!(matches!(app.request_reload(true), ReloadStep::Coalesced));
    assert!(app.reload_pending);
    app.take_live_data(live_data(true), Vec::new());
    assert_eq!(app.suggestions.len(), 1);
    assert!(app.settle_reload(vec![stored("AAPL", "ShortPut")], true));
}

#[test]
fn going_offline_stops_orders() {
    let mut app = offline_app();
    app.set_connected();
    assert!(app.connected);
    app.armed = true;
    app.cfg.guardrails.read_only = false;
    app.set_disconnected("gone");
    assert!(!app.connected);
    assert_eq!(app.status, "gone");
    assert!(app.start_order(&sell_put(1), false).is_none());
    app.set_offline_reason("still gone".into());
    assert_eq!(app.offline_reason.as_deref(), Some("still gone"));
}

// --- legs -------------------------------------------------------------------

#[test]
fn decode_legs_voids_a_partial_blob() {
    let good = "S:7510:P:1;B:7480:P:1";
    assert_eq!(decode_legs(good).len(), 2);
    assert!(decode_legs("S:7510:P:1;B:garbage:P:1").is_empty());
    assert!(decode_legs("S:7510:P").is_empty());
}

#[test]
fn legs_read_any_notation_of_a_strike() {
    assert_eq!(decode_legs("S:7.51e3:P:1"), decode_legs("S:7510:P:1"));
    assert_eq!(decode_legs("S:1E3:C:2")[0].strike, fx(1000.0));
    for strike in [9_100_000_000_000_000_000, i64::MAX, i64::MIN, -1] {
        let legs = vec![ComboLeg { strike, right: Right::Put, action: Side::Sell, ratio: 1 }];
        assert_eq!(decode_legs(&encode_legs(&legs)), legs);
    }
}

#[test]
fn legs_read_back() {
    let legs = vec![
        ComboLeg { strike: fx(7510.0), right: Right::Put, action: Side::Sell, ratio: 2 },
        ComboLeg { strike: fx(7480.5), right: Right::Call, action: Side::Buy, ratio: 1 },
    ];
    let text = encode_legs(&legs);
    assert_eq!(text, "S:7510:P:2;B:7480.5:C:1");
    assert_eq!(decode_legs(&text), legs);
    let back = reverse_legs(&legs);
    assert_eq!(back[0].action, Side::Buy);
    assert_eq!(back[1].action, Side::Sell);
    assert_eq!(reverse_legs(&back), legs);
    assert!(is_package(&legs));
    assert!(!is_package(&vec![legs[0]]));
}

#[test]
fn equal_legs_are_counted_together() {
    let leg = |strike: f64, side: LegSide| StructureLeg {
        right: Right::Put,
        strike: fx(strike),
        side,
        price: fx(1.0),
        delta: None,
    };
    let legs = vec![
        leg(4920.0, LegSide::Buy),
        leg(4960.0, LegSide::Sell),
        leg(4960.0, LegSide::Sell),
        leg(4980.0, LegSide::Buy),
    ];
    let combo = combo_legs_from(&legs);
    assert_eq!(combo.len(), 3);
    assert_eq!(combo[1].ratio, 2);
    let strikes: Vec<i64> = combo.iter().map(|l| l.strike).collect();
    assert_eq!(strikes, [fx(4920.0), fx(4960.0), fx(4980.0)]);
    assert_eq!(combo.iter().map(|l| l.ratio).sum::<i32>(), 4);
    let kind = ActionKind::OpenStructure { kind: StructureKind::BrokenWingButterfly, legs };
    let OrderPlan::Combo { order, .. } = order_plan(&sug(kind, Right::Put), "20260619") else {
        panic!("expected a combo");
    };
    assert_eq!(order.legs, combo);
}

fn zero_row(status: &str) -> ZeroDtePositionRow {
    ZeroDtePositionRow {
        entry_oid: "1".into(),
        slot: 0,
        strategy: "IC".into(),
        underlying: "SPX".into(),
        expiry: "20260601".into(),
        legs: "B:7480:P:1;S:7510:P:1;S:7635:C:1;B:7660:C:1".into(),
        entry_credit: fx(4.6),
        quantity: 1,
        max_loss: fx(2540.0) as i128,
        profit_target_pct: fx(0.4),
        status: status.into(),
        close_oid: None,
        entry_date: "2026-06-01".into(),
        created_at: String::new(),
    }
}

fn short_put_held() -> Vec<PositionRow> {
    vec![PositionRow {
        account: "DU".into(),
        symbol: "SPX".into(),
        security_type: "Option".into(),
        right: "P".into(),
        strike: fx(7510.0),
        expiry: "20260601".into(),
        position: -fx(1.0),
        average_cost: 0,
        multiplier: "100".into(),
    }]
}

#[test]
fn structure_held_detects_short_legs() {
    let p = zero_row("open");
    assert!(structure_held(&short_put_held(), &p));
    assert!(!structure_held(&[], &p));
}

#[test]
fn zerodte_reconcile_decisions() {
    assert_eq!(reconcile_action("pending", true, false, false), ZerodteReconcile::PlaceClose);
    assert_eq!(reconcile_action("pending", false, false, false), ZerodteReconcile::Cancelled);
    assert_eq!(reconcile_action("pending", false, true, false), ZerodteReconcile::Leave);
    assert_eq!(reconcile_action("open", false, false, true), ZerodteReconcile::Closed);
    assert_eq!(reconcile_action("open", true, false, false), ZerodteReconcile::PlaceClose);
    assert_eq!(reconcile_action("open", true, false, true), ZerodteReconcile::Leave);
    assert_eq!(reconcile_action("closing", false, false, false), ZerodteReconcile::Closed);
}

#[test]
fn positions_are_reconciled_after_a_restart() {
    let open = vec![open_order("1", "SPX")];
    let held = short_put_held();
    assert_eq!(
        reconcile_position(&zero_row("pending"), &open, &[]),
        ZerodteReconcile::Leave
    );
    assert_eq!(
        reconcile_position(&zero_row("open"), &Vec::new(), &held),
        ZerodteReconcile::PlaceClose
    );
    assert_eq!(reconcile_position(&zero_row("open"), &open, &[]), ZerodteReconcile::Closed);
    assert_eq!(reconcile_position(&zero_row("closed"), &open, &[]), ZerodteReconcile::Leave);
}

// --- structures trading unattended ------------------------------------------

#[test]
fn entry_fills_ask_for_the_profit_close() {
    let rows = vec![zero_row("pending")];
    let step = zerodte_step(&rows, true, "1", order_end("Filled"));
    assert!(matches!(step, ZerodteStep::PlaceClose(0)));
    let gone = zerodte_step(&rows, true, "1", order_end("Cancelled"));
    assert!(matches!(gone, ZerodteStep::EntryEnded(0, OrderEnd::Cancelled)));
    assert!(matches!(zerodte_step(&rows, true, "2", order_end("Filled")), ZerodteStep::Nothing));
    let mut closing = zero_row("closing");
    closing.close_oid = Some("5".into());
    let rows = vec![closing];
    let step = zerodte_step(&rows, true, "5", order_end("Filled"));
    assert!(matches!(step, ZerodteStep::Closed(0)));
    assert!(zerodte_text(&rows, step, &Err(String::new())).is_some());
}

#[test]
fn the_profit_close_mirrors_the_entry() {
    let mut app = offline_app();
    app.connected = true;
    app.cfg.guardrails.read_only = false;
    let close = app.place_profit_close(&zero_row("open")).expect("a close");
    // 40 percent of 4.60 captured: buy back at 2.76.
    assert_eq!(close.debit, fx(2.76));
    let entry = decode_legs(&zero_row("open").legs);
    assert_eq!(close.order.legs, reverse_legs(&entry));
    assert_eq!(close.order.quantity, 1);
    app.cfg.guardrails.read_only = true;
    assert!(app.place_profit_close(&zero_row("open")).is_err_and(|e| e.starts_with("read_only")));
    app.cfg.guardrails.read_only = false;
    app.cfg.guardrails.max_contracts_per_order = 0;
    assert!(app.place_profit_close(&zero_row("open")).is_err_and(|e| e.starts_with("qty 1 over")));
}

#[test]
fn journal_rows_start_blank() {
    let e = NewJournalEntry::default();
    assert_eq!(e.symbol, "");
    assert_eq!(e.quantity, 0);
    assert!(e.ibkr_order_id.is_none() && e.note.is_none());
    let row = PendingRollRow {
        close_oid: "55".into(),
        symbol: "AAPL".into(),
        right: "C".into(),
        near_strike: fx(100.0),
        near_expiry: "20260619".into(),
        to_strike: fx(105.0),
        to_expiry: "20260717".into(),
        quantity: 1,
        far_limit: fx(2.10),
        created_at: String::new(),
    };
    assert_eq!(PendingRoll::from_row(row).right, Right::Call);
}

#[test]
fn closing_costs_mirror_the_package() {
    let legs = decode_legs(&zero_row("open").legs);
    let prices = vec![fx(1.0), fx(3.0), fx(2.5), fx(0.5)];
    // Buy back 3.00 and 2.50, sell 1.00 and 0.50.
    assert_eq!(combo_cost(&legs, &prices), fx(4.0) as i128);
    assert_eq!(combo_cost(&reverse_legs(&legs), &prices), -(fx(4.0) as i128));
}

#[test]
fn lists_are_previewed_and_executed_by_place() {
    let mut app = offline_app();
    app.suggestions = vec![sell_put(1), sell_put(50)];
    assert!(app.ui_preview(SugList::Classic, 0).is_none());
    assert!(app.status.contains("not connected"), "status: {}", app.status);
    app.connected = true;
    let status = app.status.clone();
    assert!(app.ui_preview(SugList::Classic, 0).is_some());
    assert_eq!(app.status, status);
    assert!(app.ui_preview(SugList::Classic, 9).is_none());
    assert!(app.ui_execute(SugList::Classic, 0).is_none());
    assert!(app.status.contains("disarmed"), "status: {}", app.status);
    app.ui_set_armed(true);
    assert!(app.ui_execute(SugList::Classic, 0).is_some());
    assert!(app.ui_execute(SugList::Classic, 1).is_none());
    assert!(app.status.contains("exceeds max_contracts_per_order"), "status: {}", app.status);
}

#[test]
fn read_only_sends_nothing_on_any_path() {
    let mut app = offline_app();
    app.connected = true;
    app.armed = true;
    app.cfg.zerodte.strategies[0].automate = true;
    app.cfg.guardrails.read_only = true;
    assert_eq!(app.execute_verdict(&sell_put(1)), Verdict::ReadOnly);
    assert!(app.open_rolled_leg(&pending("1", false)).is_err());
    assert_eq!(app.begin_tick(), TickGate::Skip);
    assert!(app.place_profit_close(&zero_row("open")).is_err());
    assert!(app.close_structure_now(&zero_row("open"), fx(1.0), StopReason::StopLoss).is_none());
    app.cfg.guardrails.read_only = false;
    assert_eq!(app.begin_tick(), TickGate::Go);
    let close = app
        .close_structure_now(&zero_row("open"), fx(1.0), StopReason::StopLoss)
        .expect("a close");
    assert_eq!(close.debit, fx(1.20));
}

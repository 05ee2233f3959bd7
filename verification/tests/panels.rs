use betterwheel::config::{Config, UserSettings};
use betterwheel::dates::day_of;
use betterwheel::desktop::{listed_positions, payoff_curve, slot_views, snapshot_note};
use betterwheel::engine::types::{
    ActionKind, EngineConfig, LegSide, OptionQuote, Right, StructureKind, StructureLeg, Suggestion,
};
use betterwheel::ibkr::AccountSnapshot;
use betterwheel::store::models::{JournalRow, WatchlistRow, WheelPositionRow};
use betterwheel::tui::app::{App, InputMode, Tab};
use betterwheel::tui::demo::{
    demo_index_spot, demo_put_strikes, demo_quote, demo_skew_iv, demo_spot, demo_structure_strikes,
    demo_suggestions, demo_zerodte,
};
use betterwheel::tui::detail::suggestion_detail_lines;
use betterwheel::tui::lines::{LineStyle, TextLine};
use betterwheel::tui::panels::{
    dashboard_lines, journal_cells, quadrant_lines, quadrant_title, settings_lines, status_text,
    suggestion_title, tabs_title, watchlist_cells, watchlist_title,
};
use betterwheel::tui::ui::{
    action_title, downside_scenarios, money, structure_scenarios, suggestion_cells,
};

fn fx(x: f64) -> i64 {
    (x * 1e6).round() as i64
}

fn app() -> App {
    App::new(Config::default(), false, None, None, Vec::new())
}

fn texts(lines: &[TextLine]) -> Vec<&str> {
    lines.iter().map(|l| l.text.as_str()).collect()
}

fn joined(rows: &[Vec<TextLine>]) -> Vec<String> {
    rows.iter().map(|r| texts(r).concat()).collect()
}

fn sug(kind: ActionKind) -> Suggestion {
    Suggestion {
        symbol: "AAPL".into(),
        kind,
        right: Right::Put,
        strike: fx(95.0),
        underlying_price: fx(100.0),
        expiry: day_of(2026, 6, 19).unwrap(),
        dte: 30,
        quantity: 1,
        limit_price: fx(1.80),
        delta: Some(fx(0.32)),
        premium_total: fx(180.0) as i128,
        capital_required: fx(9500.0) as i128,
        annualized_yield: 230_526_315,
        rationale: String::new(),
    }
}

fn leg(right: Right, strike: f64, side: LegSide, price: f64) -> StructureLeg {
    StructureLeg { right, strike: fx(strike), side, price: fx(price), delta: Some(fx(0.15)) }
}

fn condor() -> Suggestion {
    let legs = vec![
        leg(Right::Put, 4925.0, LegSide::Buy, 3.0),
        leg(Right::Put, 4950.0, LegSide::Sell, 6.0),
        leg(Right::Call, 5050.0, LegSide::Sell, 6.5),
        leg(Right::Call, 5075.0, LegSide::Buy, 3.5),
    ];
    let mut s = sug(ActionKind::OpenStructure { kind: StructureKind::IronCondor, legs });
    s.symbol = "SPX".into();
    s.strike = fx(4950.0);
    s.underlying_price = fx(5000.0);
    s.dte = 0;
    s.limit_price = fx(6.0);
    s.premium_total = fx(600.0) as i128;
    s.capital_required = fx(1900.0) as i128;
    s.annualized_yield = 315_789_473;
    s
}

// --- labels -----------------------------------------------------------------

#[test]
fn labels() {
    assert_eq!(action_title(&ActionKind::SellPut), "Cash-Secured Put");
    assert_eq!(action_title(&condor().kind), StructureKind::IronCondor.label());
    assert_eq!(money(Some(fx(1234.5))), "$1234");
    assert_eq!(money(None), "—");
    assert_eq!(
        suggestion_cells(&sug(ActionKind::SellPut)),
        ["AAPL", "Sell Put", "95.0", "2026-06-19", "30", "0.32", "1.80", "23%", "9500"]
    );
    let mut bare = sug(ActionKind::SellCall);
    bare.delta = None;
    bare.capital_required = 0;
    let cells = suggestion_cells(&bare);
    assert_eq!((cells[5].as_str(), cells[8].as_str()), ("-", "—"));
}

// --- scenarios --------------------------------------------------------------

#[test]
fn a_falling_stock_in_figures() {
    let lines = downside_scenarios(fx(100.0), fx(95.0), fx(1.80), None, 100);
    assert_eq!(
        texts(&lines),
        [
            "  Stock $100.00 now — the $95.0 strike is 5% below:",
            "    − 5%  →  $   95.00   +$      180   · above strike",
            "    −10%  →  $   90.00   −$      320",
            "    −20%  →  $   80.00   −$     1320",
            "    −30%  →  $   70.00   −$     2320",
            "    −40%  →  $   60.00   −$     3320",
        ]
    );
    assert_eq!(lines[1].style, LineStyle::Good);
    assert_eq!(lines[2].style, LineStyle::Bad);
    // A long put caps every row.
    let hedged = downside_scenarios(fx(100.0), fx(95.0), fx(1.80), Some(fx(92.0)), 100);
    assert!(hedged[3..].iter().all(|l| l.text.ends_with("−$      120")));
    assert!(downside_scenarios(0, fx(95.0), fx(1.80), None, 100).is_empty());
    let above = downside_scenarios(fx(90.0), fx(95.0), fx(1.80), None, 100);
    assert_eq!(above[0].text, "  If the stock falls, your P&L at expiry:");
}

#[test]
fn closes_of_a_structure_in_figures() {
    let ActionKind::OpenStructure { legs, .. } = condor().kind else { unreachable!() };
    let lines = structure_scenarios(&legs, fx(5000.0), "SPX", 100);
    assert_eq!(
        texts(&lines),
        [
            "  SPX is $5000 now — where it CLOSES decides your P&L:",
            "     -2.0%  →  $    4900   −$   1900",
            "     -1.0%  →  $    4950   +$    600",
            "     -0.5%  →  $    4975   +$    600",
            "     +0.0%  →  $    5000   +$    600  (flat)",
            "     +0.5%  →  $    5025   +$    600",
            "     +1.0%  →  $    5050   +$    600",
            "     +2.0%  →  $    5100   −$   1900",
        ]
    );
}

// --- the detail panel -------------------------------------------------------

#[test]
fn a_put_in_plain_words() {
    let mut a = app();
    a.status = "ready".into();
    let lines = suggestion_detail_lines(&sug(ActionKind::SellPut), &a);
    let t = texts(&lines);
    assert_eq!(t[0], "SELL 1 AAPL $95.0 put, expiring 2026-06-19 (30d).");
    assert_eq!(t[5], "  Breakeven     $93.20   (strike − premium)");
    assert_eq!(t[6], "  Win chance    ~68%   (0.32Δ → ~32% chance of assignment)");
    assert_eq!(t[7], "  Take-profit   50% → buy back ~$0.90/sh, bank ~$90");
    assert_eq!(
        t[9],
        "If above $95.0 at expiry → expires worthless, keep $180 (~23% annualized)."
    );
    assert_eq!(
        t[10],
        "If below $95.0 → assigned: BUY 100 shares @ $95.0 ($9500), cost $93.20/sh."
    );
    assert_eq!(lines[9].style, LineStyle::Good);
    assert_eq!(lines[10].style, LineStyle::Warn);
    assert_eq!(t[t.len() - 1], "  ready");
}

#[test]
fn the_bar_follows_the_gate() {
    let mut a = app();
    let s = sug(ActionKind::CloseForProfit);
    let lines = suggestion_detail_lines(&s, &a);
    assert_eq!(lines[lines.len() - 2].style, LineStyle::Keys);
    assert_eq!(lines[0].text, "BUY TO CLOSE 1 AAPL $95.0 put, ~$1.80/sh ($180 total).");
    a.armed = true;
    let lines = suggestion_detail_lines(&s, &a);
    assert_eq!(lines[lines.len() - 2].style, LineStyle::Alarm);
    assert!(lines[lines.len() - 2].text.contains("EXECUTE LIVE"));
}

#[test]
fn spreads_rolls_and_calls_in_plain_words() {
    let mut s = sug(ActionKind::SellPutSpread { long_strike: fx(92.0), long_price: fx(0.70) });
    s.capital_required = fx(300.0) as i128;
    let lines = suggestion_detail_lines(&s, &app());
    let t = texts(&lines);
    assert_eq!(t[0], "SELL 1 AAPL $95.0/$92.0 put spread, expiring 2026-06-19 (30d).");
    assert_eq!(t[4], "  Max loss      $120   (CAPPED — $300 width minus credit)");
    let roll = sug(ActionKind::Roll {
        to_expiry: day_of(2026, 7, 17).unwrap(),
        to_strike: fx(90.0),
    });
    let lines = suggestion_detail_lines(&roll, &app());
    assert_eq!(lines[0].text, "ROLL 1 AAPL $95.0 put → $90.0 @ 2026-07-17.");
    let mut call = sug(ActionKind::SellCall);
    call.right = Right::Call;
    call.delta = None;
    let lines = suggestion_detail_lines(&call, &app());
    assert!(lines[0].text.ends_with("against your shares."));
    assert!(!texts(&lines).iter().any(|l| l.contains("Win chance")));
}

#[test]
fn a_condor_in_plain_words() {
    let lines = suggestion_detail_lines(&condor(), &app());
    let t = texts(&lines);
    assert_eq!(t[0], "OPEN 1 SPX Iron Condor — expires TODAY (2026-06-19).");
    assert_eq!(
        t[2],
        "YOU'RE BETTING SPX (now $5000) goes nowhere — settles between $4950 and $5050 by today's close."
    );
    assert_eq!(
        t[3],
        "  WIN  → keep up to $600: full credit anywhere $4950–$5050, still green $4944–$5056."
    );
    assert_eq!(
        t[4],
        "  LOSE → if it breaks out; loss CAPPED at $1900 once below $4925 or above $5075."
    );
    assert_eq!(t[7], "  BUY   $4925P  @ $3.00 (wing — your protection)");
    assert_eq!(t[8], "  SELL  $4950P  @ $6.00 (short — the bet)");
    assert!(t.contains(&"  Breakevens    $4944  /  $5056   (profit only between these)"));
    assert!(t.contains(&"  Est. win      ~70%   (chance it lands in the win zone)"));
}

#[test]
fn each_structure_states_its_bet() {
    let shapes = [
        (StructureKind::IronFly, "PINS near"),
        (StructureKind::ShortStrangle, "stays between"),
        (StructureKind::PutCreditSpread, "STAYS ABOVE"),
        (StructureKind::CallCreditSpread, "STAYS BELOW"),
        (StructureKind::BrokenWingButterfly, "DOESN'T CRASH"),
    ];
    for (kind, bet) in shapes {
        let mut s = condor();
        let ActionKind::OpenStructure { legs, .. } = s.kind else { unreachable!() };
        s.kind = ActionKind::OpenStructure { kind, legs };
        let lines = suggestion_detail_lines(&s, &app());
        assert!(lines[2].text.contains(bet), "{}", lines[2].text);
        assert_eq!(lines[2].style, LineStyle::Thesis);
        let naked = texts(&lines).iter().any(|l| l.starts_with("⚠ NAKED"));
        assert_eq!(naked, kind == StructureKind::ShortStrangle);
    }
}

// --- panels -----------------------------------------------------------------

#[test]
fn the_title_warns_of_danger() {
    let mut a = app();
    assert_eq!(
        tabs_title(&a, None),
        ("TheWheel  [paper]  ○ offline  ·  0 open".to_string(), false)
    );
    a.connected = true;
    a.armed = true;
    let (title, warns) = tabs_title(&a, Some(2_520));
    assert_eq!(title, "TheWheel  [paper]  ● live  ⠙ syncing 2s  ·  0 open  ⚡ ARMED");
    assert!(warns);
    a.armed = false;
    a.cfg.zerodte.strategies[0].automate = true;
    let (title, warns) = tabs_title(&a, None);
    assert!(title.ends_with("  ⚡ 1 AUTO-TRADING") && warns);
}

#[test]
fn the_status_line() {
    let mut a = app();
    a.status = "ok".into();
    assert!(status_text(&a).starts_with(" ok   ·   q quit"));
    a.input = InputMode::AddSymbol("AA".into());
    assert_eq!(status_text(&a), " add symbol: AA_ ");
    a.input = InputMode::ConfirmLive("LI".into());
    assert_eq!(status_text(&a), " confirm LIVE: LI_   (type LIVE then Enter, Esc cancels) ");
}

#[test]
fn the_overview() {
    let mut a = app();
    a.offline_reason = Some("no gateway".into());
    let rows = joined(&dashboard_lines(&a, None));
    assert_eq!(rows.len(), 9);
    assert_eq!(
        rows[0],
        "Mode:        paper   Connection:  offline / demo — retrying every 15s"
    );
    assert_eq!(rows[1], "Account:     —  (no gateway)");
    assert_eq!(rows[2], "Armed:       disarmed (`A` to arm)");
    assert_eq!(rows[4], "Watchlist:   0 symbols");
    a.account = Some(AccountSnapshot {
        net_liquidation: Some(fx(250_000.0)),
        total_cash: None,
        buying_power: Some(fx(10.0)),
        available_funds: None,
    });
    a.connected = true;
    let rows = joined(&dashboard_lines(&a, Some(7)));
    assert_eq!(rows[1], "Account:     net liq $250000   cash —   buying power $10");
    assert!(rows[8].starts_with("⟳ Syncing live data from IB Gateway… 7s"));
}

#[test]
fn rows_of_the_lists() {
    let w = WatchlistRow {
        symbol: "AAPL".into(),
        sec_type: "STK".into(),
        enabled: 1,
        tradable: Some(0),
        tradable_reason: None,
        conid: Some(265598),
        notes: None,
        added_at: String::new(),
    };
    assert_eq!(watchlist_cells(&w), ["AAPL", "STK", "yes", "blocked", "265598", ""]);
    assert_eq!(watchlist_title(0), " Watchlist — empty; press 'a' to add a symbol ");
    assert_eq!(watchlist_title(3), " Watchlist (3) ");
    assert_eq!(
        suggestion_title(Tab::Suggestions, 2, "cash-secured puts", None),
        " Suggestions (2) — cash-secured puts, best yield first "
    );
    assert!(suggestion_title(Tab::Suggestions, 0, "x", Some(4)).contains("syncing live data… 4s"));
    assert!(suggestion_title(Tab::Suggestions, 0, "x", None).contains("none yet"));
    let mut j = JournalRow {
        id: 1,
        ts: "2026-06-01T14:05:09.123+00:00".into(),
        symbol: "AAPL".into(),
        action: "SellPut".into(),
        right: None,
        strike: Some(fx(95.0)),
        expiry: None,
        quantity: 1,
        limit_price: None,
        status: "filled".into(),
        ibkr_order_id: None,
        premium: None,
        note: None,
    };
    assert_eq!(journal_cells(&j), ["14:05:09", "AAPL", "SellPut", "95.0", "1", "filled"]);
    j.ts = "bad".into();
    j.strike = None;
    assert_eq!(journal_cells(&j)[..4], ["bad", "AAPL", "SellPut", ""]);
}

#[test]
fn a_quadrant() {
    let mut a = app();
    a.tab = Tab::ZeroDte;
    a.selected = 0;
    assert_eq!(texts(&quadrant_title(&a, 0)), [" Iron Condor · SPX 0DTE ", " manual "]);
    a.cfg.zerodte.strategies[0].automate = true;
    assert_eq!(quadrant_title(&a, 0)[1].style, LineStyle::Alarm);
    a.cfg.zerodte.slots = vec![0, 9];
    assert_eq!(texts(&quadrant_title(&a, 1)), [" slot 2 — empty "]);
    let s = condor();
    let rows = joined(&quadrant_lines(Some(&s), true, None));
    assert_eq!(rows[0], "credit $600   max loss $1900   ×1");
    assert_eq!(rows[1], "breakeven 4944–5056  ·  ror 32%  ·  est win ~70%");
    assert_eq!(rows[3], "  buy  4925P @ 3.00");
    assert_eq!(rows[4], "  sell 4950P @ 6.00");
    assert_eq!(rows.len(), 10);
    assert_eq!(joined(&quadrant_lines(Some(&s), false, None)).len(), 7);
    assert_eq!(joined(&quadrant_lines(None, false, Some(3))), ["⟳ syncing… 3s"]);
    assert_eq!(quadrant_lines(None, false, None).len(), 2);
}

#[test]
fn the_settings() {
    let mut a = app();
    a.settings = UserSettings { target_win_pct: fx(70.0), take_profit_pct: fx(50.0) };
    a.tab = Tab::Settings;
    a.selected = 0;
    let rows = joined(&settings_lines(&a));
    assert_eq!(
        rows[2],
        "▶ Target win rate    70%    sell ≈ 0.30Δ puts  (band 0.20–0.40Δ)"
    );
    assert!(rows[3].starts_with("  Take-profit        50%"));
    a.settings_editing = true;
    let rows = settings_lines(&a);
    assert_eq!(rows[2][1].text, " 70% ↕ ");
    assert_eq!(rows[2][1].style, LineStyle::Picked);
    assert!(rows[0][0].text.starts_with("Editing"));
}

// --- the window -------------------------------------------------------------

#[test]
fn payoff_curves_cover_the_strikes() {
    let ActionKind::OpenStructure { legs, .. } = condor().kind else { unreachable!() };
    let (xs, ys) = payoff_curve(&legs, 2);
    assert_eq!((xs.len(), ys.len()), (81, 81));
    // 75 points on each side of 4925 to 5075, but at least two percent of 5075.
    assert_eq!(xs[0], fx(4823.5));
    assert_eq!(xs[80], fx(5176.5));
    assert_eq!(xs[40], fx(5000.0));
    assert_eq!(ys[40], fx(1200.0) as i128);
    assert_eq!(ys[0], -(fx(3800.0) as i128));
    assert!(xs.windows(2).all(|w| w[0] <= w[1]));
    assert_eq!(payoff_curve(&Vec::new(), 1), (Vec::new(), Vec::new()));
}

#[test]
fn slots_of_the_window() {
    let mut cfg = Config::default();
    cfg.zerodte.slots = vec![0, 9];
    let views = slot_views(&cfg.zerodte, &vec![Some(condor())]);
    assert_eq!(views.len(), 2);
    assert_eq!(views[0].name, "Iron Condor");
    assert_eq!(views[0].breakevens.len(), 2);
    assert_eq!(views[0].pop, Some(fx(0.70)));
    assert_eq!(views[0].payoff_xs.len(), 81);
    assert_eq!(views[1].name, "Slot 1");
    assert!(views[1].breakevens.is_empty() && views[1].pop.is_none());
    let row = |state: &str| WheelPositionRow {
        symbol: "AAPL".into(),
        state: state.into(),
        shares: 0,
        cost_basis: 0,
        cumulative_premium: 0,
        updated_at: String::new(),
    };
    assert_eq!(listed_positions(&vec![row("Idle"), row("ShortPut")]), vec![1]);
    assert_eq!(snapshot_note(true, true), "");
    assert!(snapshot_note(true, false).contains("hidden"));
    assert!(snapshot_note(false, true).contains("demo data"));
}

// --- made-up data -----------------------------------------------------------

fn norm_cdf(x: f64) -> f64 {
    let t = 1.0 / (1.0 + 0.231_641_9 * x.abs());
    let poly = t
        * (0.319_381_530
            + t * (-0.356_563_782
                + t * (1.781_477_937 + t * (-1.821_255_978 + t * 1.330_274_429))));
    let tail = (-0.5 * x * x).exp() / (2.0 * std::f64::consts::PI).sqrt() * poly;
    if x >= 0.0 {
        1.0 - tail
    } else {
        tail
    }
}

fn priced(right: Right, s: f64, k: f64, t: f64, sig: f64) -> (f64, f64) {
    let r = 0.04;
    let d1 = ((s / k).ln() + (r + 0.5 * sig * sig) * t) / (sig * t.sqrt());
    let d2 = d1 - sig * t.sqrt();
    let disc = k * (-r * t).exp();
    match right {
        Right::Put => (disc * norm_cdf(-d2) - s * norm_cdf(-d1), norm_cdf(d1) - 1.0),
        Right::Call => (s * norm_cdf(d1) - disc * norm_cdf(d2), norm_cdf(d1)),
    }
}

fn structure_chain(spot: i64, today: i32, dte: i64) -> Vec<OptionQuote> {
    let t = (dte as f64 + 0.3) / 365.0;
    let mut out = Vec::new();
    for k in demo_structure_strikes(spot) {
        let iv = demo_skew_iv(spot, k);
        for right in [Right::Put, Right::Call] {
            let (price, delta) =
                priced(right, spot as f64 / 1e6, k as f64 / 1e6, t, iv as f64 / 1e6);
            out.push(demo_quote(
                right,
                k,
                today + dte as i32,
                fx(price),
                fx(0.10),
                Some(fx(delta) as i32),
                iv,
                2000,
            ));
        }
    }
    out
}

#[test]
fn demo_zerodte_populates_every_default_slot() {
    let today = day_of(2026, 5, 30).unwrap();
    let z = Config::default().zerodte;
    let chains: Vec<Vec<OptionQuote>> = (0..z.slot_count())
        .map(|i| {
            let p = z.slot(i).unwrap();
            structure_chain(demo_index_spot(&p.underlying), today, p.dte)
        })
        .collect();
    let out = demo_zerodte(&z, &chains, today);
    assert_eq!(out.len(), 4);
    for (i, slot) in out.iter().enumerate() {
        let s = slot.as_ref().unwrap_or_else(|| panic!("slot {i} produced no structure"));
        assert!(matches!(s.kind, ActionKind::OpenStructure { .. }));
        assert!(s.limit_price > 0, "slot {i} has no credit");
        assert!(s.capital_required > 0, "slot {i} has no defined risk");
    }
    let ActionKind::OpenStructure { kind, legs } = &out[0].as_ref().unwrap().kind else {
        unreachable!()
    };
    assert_eq!(*kind, StructureKind::IronCondor);
    assert_eq!(legs.len(), 4);
}

#[test]
fn app_boots_offline_with_demo_data() {
    let today = day_of(2026, 5, 30).unwrap();
    let cfg = EngineConfig::default();
    let symbols = vec!["AAPL".to_string(), "MSFT".to_string()];
    let chains: Vec<Vec<OptionQuote>> = symbols
        .iter()
        .map(|s| {
            let spot = demo_spot(s);
            demo_put_strikes(spot)
                .into_iter()
                .map(|k| {
                    let (price, delta) = priced(
                        Right::Put,
                        spot as f64 / 1e6,
                        k as f64 / 1e6,
                        35.0 / 365.0,
                        0.45,
                    );
                    demo_quote(
                        Right::Put,
                        k,
                        today + 35,
                        fx(price),
                        fx(0.05),
                        Some(fx(delta) as i32),
                        fx(0.45),
                        800,
                    )
                })
                .collect()
        })
        .collect();
    let found = demo_suggestions(&symbols, &chains, &cfg, today);
    assert!(!found.is_empty());
    assert!(found.windows(2).all(|w| w[0].annualized_yield >= w[1].annualized_yield));
    let a = app();
    assert!(!a.connected && !a.armed);
    assert_eq!(a.open_position_count(), 0);
}

#[test]
fn made_up_market() {
    // h("A") = 65, so 50 + 65.
    assert_eq!(demo_spot("A"), fx(115.0));
    // h("AB") = 65 * 31 + 66 = 2081; 2081 mod 250 = 81.
    assert_eq!(demo_spot("AB"), fx(131.0));
    assert_eq!(demo_spot("AAPL"), demo_spot("AAPL"));
    assert_eq!(demo_index_spot("SPX"), fx(7600.0));
    assert_eq!(demo_index_spot("A"), fx(115.0));
    let puts = demo_put_strikes(fx(100.0));
    assert_eq!(puts.first(), Some(&fx(75.0)));
    assert_eq!(puts.last(), Some(&fx(105.0)));
    assert_eq!(puts.len(), 13);
    let grid = demo_structure_strikes(fx(7600.0));
    assert_eq!(grid.first(), Some(&fx(6990.0)));
    assert_eq!(grid[1] - grid[0], fx(10.0));
    assert_eq!(grid.last(), Some(&fx(8200.0)));
    assert_eq!(demo_skew_iv(fx(100.0), fx(100.0)), fx(0.15));
    assert_eq!(demo_skew_iv(fx(100.0), fx(90.0)), fx(0.21));
    assert_eq!(demo_skew_iv(fx(100.0), fx(150.0)), fx(0.08));
    assert!(demo_skew_iv(fx(100.0), fx(80.0)) >= demo_skew_iv(fx(100.0), fx(95.0)));
    let q = demo_quote(Right::Put, fx(90.0), 0, fx(0.04), fx(0.05), None, fx(0.2), 800);
    assert_eq!((q.bid, q.ask), (0, fx(0.09)));
}

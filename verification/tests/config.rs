use betterwheel::config::{
    ConnectionConfig, Guardrails, TradingMode, UserSettings, ZeroDteConfig, ZeroDteSettings,
};
use betterwheel::engine::types::{EngineConfig, StructureKind};

fn fx(x: f64) -> i64 {
    (x * 1e6).round() as i64
}

#[test]
fn win_pct_maps_to_delta_and_recenters_band() {
    let mut eng = EngineConfig::default();
    UserSettings { target_win_pct: fx(70.0), take_profit_pct: fx(50.0) }.apply_to(&mut eng);
    assert_eq!(eng.target_delta, fx(0.30), "delta {}", eng.target_delta);
    assert_eq!(eng.min_delta, fx(0.20));
    assert_eq!(eng.max_delta, fx(0.40));
    assert_eq!(eng.take_profit_pct, fx(0.50));
}

#[test]
fn from_engine_inverts_apply() {
    let eng = EngineConfig::default();
    let s = UserSettings::from_engine(&eng);
    assert_eq!(s.target_win_pct, fx(70.0));
    assert_eq!(s.take_profit_pct, fx(50.0));
    let mut eng2 = EngineConfig::default();
    s.apply_to(&mut eng2);
    assert_eq!(eng2.target_delta, eng.target_delta);
}

#[test]
fn clamp_holds_knobs_in_range() {
    let mut s = UserSettings { target_win_pct: fx(999.0), take_profit_pct: fx(-5.0) };
    s.clamp();
    assert_eq!(s.target_win_pct, UserSettings::WIN_MAX);
    assert_eq!(s.take_profit_pct, UserSettings::TP_MIN);
    let mut eng = EngineConfig::default();
    UserSettings { target_win_pct: fx(99.0), take_profit_pct: fx(50.0) }.apply_to(&mut eng);
    assert!(eng.min_delta >= fx(0.05) && eng.max_delta <= fx(0.95));
    assert!(eng.min_delta <= eng.target_delta && eng.target_delta <= eng.max_delta);
}

#[test]
fn zerodte_defaults_seed_four_slots() {
    let z = ZeroDteConfig::default();
    assert_eq!(z.strategies.len(), 4);
    assert_eq!(z.slot_count(), 4);
    assert_eq!(z.slot(0).unwrap().kind, StructureKind::IronCondor);
    assert_eq!(z.slot(3).unwrap().kind, StructureKind::IronFly);
    assert!(z.slot(9).is_none());
}

#[test]
fn at_most_four_slots_are_shown() {
    let mut z = ZeroDteConfig::default();
    z.slots = vec![0, 9, 1, 2, 3, 0];
    assert_eq!(z.slot_count(), 4);
    assert!(z.slot(1).is_none());
    assert_eq!(z.slot(2).unwrap().kind, StructureKind::PutCreditSpread);
}

#[test]
fn roster_edits_survive_by_name() {
    let mut z = ZeroDteConfig::default();
    z.strategies[2].automate = true;
    z.strategies[2].max_risk = fx(1234.0);
    let saved = ZeroDteSettings::snapshot(&z);
    let mut fresh = ZeroDteConfig::default();
    fresh.strategies.swap(0, 2);
    saved.apply_to(&mut fresh);
    assert!(fresh.strategies[0].automate);
    assert_eq!(fresh.strategies[0].max_risk, fx(1234.0));
    assert!(!fresh.strategies[2].automate);
    fresh.strategies[0].name = "renamed".into();
    fresh.strategies[0].automate = false;
    saved.apply_to(&mut fresh);
    assert!(!fresh.strategies[0].automate);
}

#[test]
fn connection_defaults_are_safe() {
    let mut c = ConnectionConfig::default();
    assert!(!c.is_live());
    assert_eq!(c.address(), format!("{}:{}", c.host, c.paper_port));
    c.mode = TradingMode::Live;
    assert!(c.is_live());
    assert_eq!(c.address(), format!("{}:{}", c.host, c.live_port));
    let g = Guardrails::default();
    assert!(!g.read_only);
    assert!(g.require_live_confirmation);
}

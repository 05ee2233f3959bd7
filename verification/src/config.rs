//! User configuration: connection target, engine tuning, safety guardrails and
//! the roster of short-dated structures.

use vstd::prelude::*;
use vstd::string::*;
use crate::engine::structures::assemble::StructureParams;
use crate::engine::types::{EngineConfig, StructureKind};
use crate::fixed::{clamp, clamp_to, int_text, is_price, max, min, push_int, round_away, SCALE};
use crate::text::{own, same_text};

verus! {

/// Top-level application configuration.
#[derive(Debug, Clone)]
pub struct Config {
    pub connection: ConnectionConfig,
    pub engine: EngineConfig,
    pub guardrails: Guardrails,
    /// Roster of short-dated structures and the quadrant slots that show them.
    pub zerodte: ZeroDteConfig,
}

impl Default for Config {
    fn default() -> (r: Self)
        ensures
            r.connection.is_standard(),
            r.engine == EngineConfig::standard(),
            r.guardrails == Guardrails::standard(),
            r.zerodte.is_standard(),
    {
        Config {
            connection: ConnectionConfig::default(),
            engine: EngineConfig::default(),
            guardrails: Guardrails::default(),
            zerodte: ZeroDteConfig::default(),
        }
    }
}

// --- user settings ---------------------------------------------------------

/// The two strategy knobs that the user tunes live: percentages, in millionths
/// of a percent.
#[derive(Debug, Clone, Copy, PartialEq, Eq, Structural)]
pub struct UserSettings {
    /// Target probability that the short expires worthless.
    pub target_win_pct: i64,
    /// Buy to close once this percentage of the premium is captured.
    pub take_profit_pct: i64,
}

/// The engine delta for a win percentage: its complement, between 5 and 95
/// hundredths.
pub open spec fn win_delta(win_pct: int) -> int {
    clamp(SCALE - win_pct / 100, 50_000, 950_000)
}

/// A fraction as a percentage, to the nearest whole one.
pub open spec fn whole_percent(fraction: int) -> int {
    round_away(fraction, 10_000) * SCALE
}

/// An engine configuration with the knobs laid over it: the target delta is the
/// complement of the win percentage, the entry band spans ten hundredths to each
/// side of it.
pub open spec fn overlaid(s: UserSettings, cfg: EngineConfig) -> EngineConfig {
    let target = win_delta(s.target_win_pct as int);
    EngineConfig {
        target_delta: target as i64,
        min_delta: max(target - 100_000, 50_000) as i64,
        max_delta: min(target + 100_000, 950_000) as i64,
        take_profit_pct: clamp(s.take_profit_pct as int / 100, 50_000, 950_000) as i64,
        ..cfg
    }
}

/// The knobs held within their ranges.
pub open spec fn clamped(s: UserSettings) -> UserSettings {
    UserSettings {
        target_win_pct: clamp(s.target_win_pct as int, 50_000_000, 90_000_000) as i64,
        take_profit_pct: clamp(s.take_profit_pct as int, 10_000_000, 90_000_000) as i64,
    }
}

/// The whole number nearest to `x / 10_000`, in millionths.
fn percent_of(x: i128) -> (r: i64)
    requires
        is_price(x as int - 1_000_000) || is_price(x as int),
    ensures
        r == whole_percent(x as int),
{
    let q: i128 = if x >= 0 {
        (2 * x + 10_000) / 20_000
    } else {
        -((2 * (-x) + 10_000) / 20_000)
    };
    (q * 1_000_000) as i64
}

/// A hundredth of `x`, rounded down.
fn hundredth(x: i64) -> (r: i64)
    ensures
        r == x as int / 100,
{
    if x >= 0 {
        x / 100
    } else {
        let m: i64 = -(x + 1);
        -(m / 100) - 1
    }
}

impl UserSettings {
    /// Bounds of the win percentage.
    pub const WIN_MIN: i64 = 50_000_000;

    pub const WIN_MAX: i64 = 90_000_000;

    /// Bounds of the take-profit percentage.
    pub const TP_MIN: i64 = 10_000_000;

    pub const TP_MAX: i64 = 90_000_000;

    /// The knobs that an engine configuration stands for.
    pub fn from_engine(cfg: &EngineConfig) -> (r: Self)
        requires
            is_price(cfg.target_delta as int),
            is_price(cfg.take_profit_pct as int),
        ensures
            r.target_win_pct == whole_percent(SCALE - cfg.target_delta),
            r.take_profit_pct == whole_percent(cfg.take_profit_pct as int),
    {
        UserSettings {
            target_win_pct: percent_of(1_000_000 - cfg.target_delta as i128),
            take_profit_pct: percent_of(cfg.take_profit_pct as i128),
        }
    }

    /// The engine delta that the win percentage stands for.
    pub(crate) fn target_delta(&self) -> (r: i64)
        ensures
            r == win_delta(self.target_win_pct as int),
    {
        clamp_to(1_000_000 - hundredth(self.target_win_pct), 50_000, 950_000)
    }

    /// Lays these knobs over an engine configuration.
    pub fn apply_to(&self, cfg: &mut EngineConfig)
        ensures
            *final(cfg) == overlaid(*self, *old(cfg)),
    {
        let target: i64 = self.target_delta();
        cfg.target_delta = target;
        cfg.min_delta = if target - 100_000 > 50_000 {
            target - 100_000
        } else {
            50_000
        };
        cfg.max_delta = if target + 100_000 < 950_000 {
            target + 100_000
        } else {
            950_000
        };
        cfg.take_profit_pct = clamp_to(hundredth(self.take_profit_pct), 50_000, 950_000);
    }

    /// Holds both knobs within their ranges.
    pub fn clamp(&mut self)
        ensures
            *final(self) == clamped(*old(self)),
    {
        self.target_win_pct = clamp_to(self.target_win_pct, Self::WIN_MIN, Self::WIN_MAX);
        self.take_profit_pct = clamp_to(self.take_profit_pct, Self::TP_MIN, Self::TP_MAX);
    }
}

/// Clamped knobs are in range, and clamping them again changes nothing.
pub proof fn law_clamp_holds_range(s: UserSettings)
    ensures
        UserSettings::WIN_MIN <= clamped(s).target_win_pct <= UserSettings::WIN_MAX,
        UserSettings::TP_MIN <= clamped(s).take_profit_pct <= UserSettings::TP_MAX,
        clamped(clamped(s)) == clamped(s),
{
}

/// Whatever the knobs, the engine's band stays within 5 and 95 hundredths and
/// holds the target; nothing but the target, the band and the take-profit changes.
pub proof fn law_band_holds_target(s: UserSettings, cfg: EngineConfig)
    ensures
        50_000 <= overlaid(s, cfg).min_delta <= overlaid(s, cfg).target_delta <= overlaid(
            s,
            cfg,
        ).max_delta <= 950_000,
        50_000 <= overlaid(s, cfg).take_profit_pct <= 950_000,
        overlaid(s, cfg).min_dte == cfg.min_dte,
        overlaid(s, cfg).max_dte == cfg.max_dte,
        overlaid(s, cfg).roll_delta == cfg.roll_delta,
        overlaid(s, overlaid(s, cfg)) == overlaid(s, cfg),
{
}

/// Knobs derived from an engine configuration and laid over one give the target
/// delta and the take-profit back, where they are whole percentages between 5
/// and 95.
pub proof fn law_from_engine_inverts_apply(cfg: EngineConfig, other: EngineConfig, s: UserSettings)
    requires
        s.target_win_pct == whole_percent(SCALE - cfg.target_delta),
        s.take_profit_pct == whole_percent(cfg.take_profit_pct as int),
        cfg.target_delta % 10_000 == 0,
        cfg.take_profit_pct % 10_000 == 0,
        50_000 <= cfg.target_delta <= 950_000,
        50_000 <= cfg.take_profit_pct <= 950_000,
    ensures
        overlaid(s, other).target_delta == cfg.target_delta,
        overlaid(s, other).take_profit_pct == cfg.take_profit_pct,
{
}

// --- connection ------------------------------------------------------------

/// Paper or live trading.
#[derive(Debug, Clone, Copy, PartialEq, Eq, Structural)]
pub enum TradingMode {
    Paper,
    Live,
}

/// Preferred market-data type.
#[derive(Debug, Clone, Copy, PartialEq, Eq, Structural)]
pub enum MarketDataPref {
    Realtime,
    Frozen,
    Delayed,
    DelayedFrozen,
}

/// Connection settings of the broker's gateway.
#[derive(Debug, Clone)]
pub struct ConnectionConfig {
    pub host: String,
    pub mode: TradingMode,
    pub paper_port: u16,
    pub live_port: u16,
    /// Each concurrent API client needs a distinct id.
    pub client_id: i32,
    /// Account id; discovered where absent.
    pub account: Option<String>,
    pub market_data: MarketDataPref,
    /// While offline, retry connecting this often; 0 disables it.
    pub reconnect_secs: u64,
}

impl ConnectionConfig {
    /// Whether these are the settings that hold where nothing is configured.
    pub open spec fn is_standard(self) -> bool {
        &&& self.host@ == "127.0.0.1"@
        &&& self.mode == TradingMode::Paper
        &&& self.paper_port == 4002
        &&& self.live_port == 4001
        &&& self.client_id == 100
        &&& self.account is None
        &&& self.market_data == MarketDataPref::Delayed
        &&& self.reconnect_secs == 15
    }

    pub open spec fn live(self) -> bool {
        self.mode == TradingMode::Live
    }

    /// The port of the active mode.
    pub open spec fn port(self) -> u16 {
        match self.mode {
            TradingMode::Paper => self.paper_port,
            TradingMode::Live => self.live_port,
        }
    }

    /// The `host:port` address to connect to in the active mode.
    pub fn address(&self) -> (r: String)
        ensures
            r@ == self.host@ + ":"@ + int_text(self.port() as int),
    {
        let port: u16 = match self.mode {
            TradingMode::Paper => self.paper_port,
            TradingMode::Live => self.live_port,
        };
        let mut s = own(self.host.as_str());
        s.append(":");
        push_int(&mut s, port as i128);
        s
    }

    /// Whether the active mode is live trading.
    pub fn is_live(&self) -> (r: bool)
        ensures
            r == self.live(),
    {
        matches!(self.mode, TradingMode::Live)
    }
}

impl Default for ConnectionConfig {
    fn default() -> (r: Self)
        ensures
            r.is_standard(),
    {
        ConnectionConfig {
            host: own("127.0.0.1"),
            mode: TradingMode::Paper,
            paper_port: 4002,
            live_port: 4001,
            client_id: 100,
            account: None,
            market_data: MarketDataPref::Delayed,
            reconnect_secs: 15,
        }
    }
}

// --- guardrails ------------------------------------------------------------

/// Hard limits enforced regardless of the engine's suggestions.
#[derive(Debug, Clone, Copy, PartialEq, Eq, Structural)]
pub struct Guardrails {
    /// Most capital (short-put collateral) to deploy, in millionths of a dollar.
    pub max_total_deployed: i64,
    /// Most contracts on a single order.
    pub max_contracts_per_order: i32,
    /// Whether live trading needs a typed confirmation phrase.
    pub require_live_confirmation: bool,
    /// Whether every order-transmit path is disabled.
    pub read_only: bool,
}

impl Guardrails {
    /// The limits that hold where nothing is configured.
    pub open spec fn standard() -> Guardrails {
        Guardrails {
            max_total_deployed: 50_000_000_000,
            max_contracts_per_order: 10,
            require_live_confirmation: true,
            read_only: false,
        }
    }
}

impl Default for Guardrails {
    fn default() -> (r: Self)
        ensures
            r == Guardrails::standard(),
    {
        Guardrails {
            max_total_deployed: 50_000_000_000,
            max_contracts_per_order: 10,
            require_live_confirmation: true,
            read_only: false,
        }
    }
}

// --- roster of structures --------------------------------------------------

/// The roster of short-dated structures and the quadrants that show them:
/// `slots` picks, by roster index, the structure of each quadrant.
#[derive(Debug, Clone)]
pub struct ZeroDteConfig {
    pub strategies: Vec<StructureParams>,
    pub slots: Vec<usize>,
}

impl ZeroDteConfig {
    /// The roster index behind quadrant `i`, where both resolve.
    pub open spec fn slot_index(self, i: int) -> Option<int> {
        if 0 <= i < self.slots@.len() && self.slots@[i] < self.strategies@.len() {
            Some(self.slots@[i] as int)
        } else {
            None
        }
    }

    /// How many quadrants are shown.
    pub open spec fn shown(self) -> int {
        min(self.slots@.len() as int, 4)
    }

    /// Whether this is the roster that holds where nothing is configured: a
    /// condor, a put spread with a stop, a broken-wing fly and an iron fly.
    pub open spec fn is_standard(self) -> bool {
        &&& self.slots@ == seq![0usize, 1usize, 2usize, 3usize]
        &&& self.strategies@.len() == 4
        &&& self.strategies@[0].standard_but(
            "Iron Condor"@,
            StructureKind::IronCondor,
            0,
            130_000,
            25_000_000,
            800_000,
            3_500_000_000,
            45,
            400_000,
            0,
        )
        &&& self.strategies@[1].standard_but(
            "Put Credit Spread"@,
            StructureKind::PutCreditSpread,
            1,
            110_000,
            10_000_000,
            300_000,
            1_500_000_000,
            45,
            400_000,
            1_200_000,
        )
        &&& self.strategies@[2].standard_but(
            "Broken-Wing Fly"@,
            StructureKind::BrokenWingButterfly,
            0,
            320_000,
            10_000_000,
            100_000,
            2_000_000_000,
            30,
            500_000,
            0,
        )
        &&& self.strategies@[3].standard_but(
            "Iron Fly"@,
            StructureKind::IronFly,
            0,
            130_000,
            30_000_000,
            2_000_000,
            2_500_000_000,
            30,
            250_000,
            0,
        )
    }

    /// The structure assigned to quadrant `i`, where the slot and the roster
    /// index both resolve.
    pub fn slot(&self, i: usize) -> (r: Option<&StructureParams>)
        ensures
            r is Some <==> self.slot_index(i as int) is Some,
            r is Some ==> *(r->0) == self.strategies@[self.slot_index(i as int)->0],
    {
        if i < self.slots.len() && self.slots[i] < self.strategies.len() {
            Some(&self.strategies[self.slots[i]])
        } else {
            None
        }
    }

    /// How many quadrants to show: at most four.
    pub fn slot_count(&self) -> (r: usize)
        ensures
            r == self.shown(),
    {
        if self.slots.len() < 4 {
            self.slots.len()
        } else {
            4
        }
    }
}

impl Default for ZeroDteConfig {
    fn default() -> (r: Self)
        ensures
            r.is_standard(),
    {
        let mut condor = StructureParams::default();
        condor.name = own("Iron Condor");
        condor.min_credit = 800_000;
        condor.max_risk = 3_500_000_000;
        let mut spread = StructureParams::default();
        spread.name = own("Put Credit Spread");
        spread.kind = StructureKind::PutCreditSpread;
        spread.dte = 1;
        spread.short_delta = 110_000;
        spread.wing_points = 10_000_000;
        spread.min_credit = 300_000;
        spread.max_risk = 1_500_000_000;
        spread.stop_loss_mult = 1_200_000;
        let mut wing = StructureParams::default();
        wing.name = own("Broken-Wing Fly");
        wing.kind = StructureKind::BrokenWingButterfly;
        wing.short_delta = 320_000;
        wing.wing_points = 10_000_000;
        wing.min_credit = 100_000;
        wing.max_risk = 2_000_000_000;
        wing.entry_minutes_after_open = 30;
        wing.profit_target_pct = 500_000;
        let mut fly = StructureParams::default();
        fly.name = own("Iron Fly");
        fly.kind = StructureKind::IronFly;
        fly.wing_points = 30_000_000;
        fly.min_credit = 2_000_000;
        fly.entry_minutes_after_open = 30;
        fly.profit_target_pct = 250_000;
        let mut strategies: Vec<StructureParams> = Vec::new();
        strategies.push(condor);
        strategies.push(spread);
        strategies.push(wing);
        strategies.push(fly);
        let mut slots: Vec<usize> = Vec::new();
        slots.push(0);
        slots.push(1);
        slots.push(2);
        slots.push(3);
        assert(slots@ =~= seq![0usize, 1usize, 2usize, 3usize]);
        ZeroDteConfig { strategies, slots }
    }
}

// --- roster edits ----------------------------------------------------------

/// The fields of one roster entry that are edited in the app.
#[derive(Debug, Clone)]
pub struct SlotSettings {
    pub name: String,
    pub automate: bool,
    pub max_risk: i64,
    pub profit_target_pct: i64,
}

/// The edited fields of the whole roster, laid over the configured one at start.
#[derive(Debug, Clone)]
pub struct ZeroDteSettings {
    pub entries: Vec<SlotSettings>,
}

/// Whether `e` holds the edited fields of `p`.
pub open spec fn records(e: SlotSettings, p: StructureParams) -> bool {
    &&& e.name@ == p.name@
    &&& e.automate == p.automate
    &&& e.max_risk == p.max_risk
    &&& e.profit_target_pct == p.profit_target_pct
}

/// The first entry with the given name.
pub open spec fn find_entry(entries: Seq<SlotSettings>, name: Seq<char>) -> Option<SlotSettings>
    decreases entries.len(),
{
    if entries.len() == 0 {
        None
    } else if entries[0].name@ == name {
        Some(entries[0])
    } else {
        find_entry(entries.drop_first(), name)
    }
}

/// `p` with the edited fields of the entry of its name, unchanged where there is
/// none.
pub open spec fn edited(p: StructureParams, entries: Seq<SlotSettings>) -> StructureParams {
    match find_entry(entries, p.name@) {
        Some(e) => StructureParams {
            automate: e.automate,
            max_risk: e.max_risk,
            profit_target_pct: e.profit_target_pct,
            ..p
        },
        None => p,
    }
}

pub proof fn lemma_find_entry(entries: Seq<SlotSettings>, name: Seq<char>, i: int)
    requires
        0 <= i <= entries.len(),
        forall|j: int| 0 <= j < i ==> (#[trigger] entries[j]).name@ != name,
        i < entries.len() ==> entries[i].name@ == name,
    ensures
        find_entry(entries, name) == (if i < entries.len() {
            Some(entries[i])
        } else {
            None
        }),
    decreases entries.len(),
{
    if entries.len() > 0 && entries[0].name@ != name {
        let t = entries.drop_first();
        assert forall|j: int| 0 <= j < i - 1 implies (#[trigger] t[j]).name@ != name by {
            assert(t[j] == entries[j + 1]);
        }
        lemma_find_entry(t, name, i - 1);
    }
}

impl ZeroDteSettings {
    /// The edited fields of a roster.
    pub fn snapshot(cfg: &ZeroDteConfig) -> (r: Self)
        ensures
            r.entries@.len() == cfg.strategies@.len(),
            forall|i: int|
                0 <= i < cfg.strategies@.len() ==> records(
                    #[trigger] r.entries@[i],
                    cfg.strategies@[i],
                ),
    {
        let mut entries: Vec<SlotSettings> = Vec::new();
        let mut i: usize = 0;
        while i < cfg.strategies.len()
            invariant
                i <= cfg.strategies@.len(),
                entries@.len() == i,
                forall|j: int|
                    0 <= j < i ==> records(#[trigger] entries@[j], cfg.strategies@[j]),
            decreases cfg.strategies@.len() - i,
        {
            let p = &cfg.strategies[i];
            entries.push(
                SlotSettings {
                    name: own(p.name.as_str()),
                    automate: p.automate,
                    max_risk: p.max_risk,
                    profit_target_pct: p.profit_target_pct,
                },
            );
            i = i + 1;
        }
        ZeroDteSettings { entries }
    }

    fn find(&self, name: &str) -> (r: Option<usize>)
        ensures
            r is Some ==> r->0 < self.entries@.len() && find_entry(self.entries@, name@) == Some(
                self.entries@[r->0 as int],
            ),
            r is None ==> find_entry(self.entries@, name@) is None,
    {
        let mut i: usize = 0;
        while i < self.entries.len()
            invariant
                i <= self.entries@.len(),
                forall|j: int| 0 <= j < i ==> (#[trigger] self.entries@[j]).name@ != name@,
            decreases self.entries@.len() - i,
        {
            if same_text(self.entries[i].name.as_str(), name) {
                proof {
                    lemma_find_entry(self.entries@, name@, i as int);
                }
                return Some(i);
            }
            i = i + 1;
        }
        proof {
            lemma_find_entry(self.entries@, name@, i as int);
        }
        None
    }

    /// Lays the edited fields over a roster, by name.
    pub fn apply_to(&self, cfg: &mut ZeroDteConfig)
        ensures
            final(cfg).slots == old(cfg).slots,
            final(cfg).strategies@.len() == old(cfg).strategies@.len(),
            forall|i: int|
                0 <= i < old(cfg).strategies@.len() ==> #[trigger] final(cfg).strategies@[i]
                    == edited(old(cfg).strategies@[i], self.entries@),
    {
        let ghost before = cfg.strategies@;
        let mut i: usize = 0;
        while i < cfg.strategies.len()
            invariant
                i <= cfg.strategies@.len(),
                cfg.strategies@.len() == before.len(),
                cfg.slots == old(cfg).slots,
                forall|j: int|
                    0 <= j < i ==> #[trigger] cfg.strategies@[j] == edited(before[j], self.entries@),
                forall|j: int| i <= j < before.len() ==> #[trigger] cfg.strategies@[j] == before[j],
            decreases cfg.strategies@.len() - i,
        {
            assert(cfg.strategies@[i as int] == before[i as int]);
            let found = self.find(cfg.strategies[i].name.as_str());
            if let Some(k) = found {
                let (automate, max_risk, target) = (
                    self.entries[k].automate,
                    self.entries[k].max_risk,
                    self.entries[k].profit_target_pct,
                );
                let p = &mut cfg.strategies[i];
                p.automate = automate;
                p.max_risk = max_risk;
                p.profit_target_pct = target;
            }
            i = i + 1;
        }
    }
}

/// Edits survive a restart: a snapshot of an edited roster, laid over the roster
/// that it was edited from, gives every entry its edited fields back, where no
/// two entries share a name.
pub proof fn law_edits_survive(
    configured: Seq<StructureParams>,
    live: Seq<StructureParams>,
    entries: Seq<SlotSettings>,
    i: int,
)
    requires
        configured.len() == live.len() == entries.len(),
        forall|k: int| 0 <= k < live.len() ==> records(#[trigger] entries[k], live[k]),
        forall|k: int| 0 <= k < live.len() ==> (#[trigger] live[k]).name@ == configured[k].name@,
        forall|k: int, m: int|
            0 <= k < m < live.len() ==> (#[trigger] live[k]).name@ != (#[trigger] live[m]).name@,
        0 <= i < live.len(),
    ensures
        edited(configured[i], entries).automate == live[i].automate,
        edited(configured[i], entries).max_risk == live[i].max_risk,
        edited(configured[i], entries).profit_target_pct == live[i].profit_target_pct,
{
    let name = configured[i].name@;
    assert(live[i].name@ == name);
    assert forall|j: int| 0 <= j < i implies (#[trigger] entries[j]).name@ != name by {
        assert(records(entries[j], live[j]));
        assert(live[j].name@ != live[i].name@);
    }
    assert(records(entries[i], live[i]));
    lemma_find_entry(entries, name, i);
}

} // verus!

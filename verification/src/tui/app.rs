//! State of the front end and how each action changes it. What has to be done
//! outside (store writes, broker calls, refreshes) comes back as an [`Effect`].

use vstd::prelude::*;
use vstd::string::*;
use crate::config::{overlaid, whole_percent, Config, TradingMode, UserSettings, ZeroDteSettings};
use crate::engine::structures::assemble::StructureParams;
use crate::engine::types::{opt_view, Suggestion, SuggestionView, WheelState};
use crate::engine::all_wf;
use crate::fixed::{is_price, SCALE};
use crate::ibkr::{rows_wf, AccountSnapshot, PositionRow};
use crate::live::{is_blocked, symbol_blocked};
use crate::store::models::{
    JournalRow, PendingRollRow, WatchlistRow, WheelPositionRow,
};
use crate::text::own;
use crate::tui::rolls::{rolls_of, PendingRoll};

verus! {

// --- tabs ------------------------------------------------------------------

/// Top-level tabs.
#[derive(Debug, Clone, Copy, PartialEq, Eq, Structural)]
pub enum Tab {
    Dashboard,
    Watchlist,
    Suggestions,
    HedgedWheel,
    ZeroDte,
    Journal,
    Settings,
    Help,
}

impl Tab {
    pub const ALL: [Tab; 8] = [
        Tab::Dashboard,
        Tab::Watchlist,
        Tab::Suggestions,
        Tab::HedgedWheel,
        Tab::ZeroDte,
        Tab::Journal,
        Tab::Settings,
        Tab::Help,
    ];

    pub open spec fn spec_title(self) -> Seq<char> {
        match self {
            Tab::Dashboard => "Dashboard"@,
            Tab::Watchlist => "Watchlist"@,
            Tab::Suggestions => "Suggestions"@,
            Tab::HedgedWheel => "Hedged Wheel"@,
            Tab::ZeroDte => "0DTE"@,
            Tab::Journal => "Journal"@,
            Tab::Settings => "Settings"@,
            Tab::Help => "Help"@,
        }
    }

    /// The place of a tab in the row of tabs.
    pub open spec fn place(self) -> int {
        match self {
            Tab::Dashboard => 0,
            Tab::Watchlist => 1,
            Tab::Suggestions => 2,
            Tab::HedgedWheel => 3,
            Tab::ZeroDte => 4,
            Tab::Journal => 5,
            Tab::Settings => 6,
            Tab::Help => 7,
        }
    }

    /// The tab at a place, counted modulo the number of tabs.
    pub open spec fn at(i: int) -> Tab {
        Tab::ALL@[i % 8]
    }

    /// Heading of the tab.
    pub fn title(self) -> (r: &'static str)
        ensures
            r@ == self.spec_title(),
    {
        match self {
            Tab::Dashboard => "Dashboard",
            Tab::Watchlist => "Watchlist",
            Tab::Suggestions => "Suggestions",
            Tab::HedgedWheel => "Hedged Wheel",
            Tab::ZeroDte => "0DTE",
            Tab::Journal => "Journal",
            Tab::Settings => "Settings",
            Tab::Help => "Help",
        }
    }

    /// Place of the tab in the row of tabs.
    pub fn index(self) -> (r: usize)
        ensures
            r == self.place(),
            r < 8,
            Tab::ALL@[r as int] == self,
    {
        match self {
            Tab::Dashboard => 0,
            Tab::Watchlist => 1,
            Tab::Suggestions => 2,
            Tab::HedgedWheel => 3,
            Tab::ZeroDte => 4,
            Tab::Journal => 5,
            Tab::Settings => 6,
            Tab::Help => 7,
        }
    }
}

/// Going one tab on and one tab back, in either order, leads back to the tab;
/// eight steps on lead around.
pub proof fn law_tabs_wrap(t: Tab)
    ensures
        Tab::at(t.place()) == t,
        Tab::at(Tab::at(t.place() + 1).place() - 1) == t,
        Tab::at(Tab::at(t.place() - 1).place() + 1) == t,
        Tab::at(t.place() + 8) == t,
{
}

// --- inputs and actions ----------------------------------------------------

/// The phrase that unlocks live orders for the session.
pub const LIVE_CONFIRM_PHRASE: &'static str = "LIVE";

/// Keyboard input mode.
#[derive(Debug, Clone)]
pub enum InputMode {
    Normal,
    /// Typing a symbol to add to the watchlist.
    AddSymbol(String),
    /// Typing the phrase that unlocks live trading.
    ConfirmLive(String),
}

/// What an [`InputMode`] holds.
pub enum InputView {
    Normal,
    AddSymbol(Seq<char>),
    ConfirmLive(Seq<char>),
}

impl View for InputMode {
    type V = InputView;

    open spec fn view(&self) -> InputView {
        match self {
            InputMode::Normal => InputView::Normal,
            InputMode::AddSymbol(s) => InputView::AddSymbol(s@),
            InputMode::ConfirmLive(s) => InputView::ConfirmLive(s@),
        }
    }
}

/// An intent produced by a keypress.
#[derive(Debug, Clone, Copy, PartialEq, Eq, Structural)]
pub enum Action {
    Quit,
    NextTab,
    PrevTab,
    JumpTab(usize),
    Up,
    Down,
    StartAddSymbol,
    /// Begin typing the live-trading phrase.
    StartLiveConfirm,
    InputChar(char),
    Backspace,
    CancelInput,
    SubmitInput,
    DeleteSelected,
    Refresh,
    ToggleArm,
    Preview,
    Execute,
    /// Open the detail panel of the selected suggestion.
    OpenDetail,
    /// Close the detail panel.
    CloseDetail,
    /// Adjust the selected knob of the Settings tab.
    SettingAdjust(i32),
    /// Enter or leave edit mode on the selected knob.
    ToggleSettingEdit,
    /// Toggle the focused slot's automation.
    ToggleAutomate,
    /// Adjust the focused slot's risk budget.
    SlotRisk(i32),
    /// Adjust the focused slot's profit target.
    SlotProfit(i32),
}

/// Which ranked list a command addresses.
#[derive(Clone, Copy, Debug, PartialEq, Eq, Structural)]
pub enum SugList {
    Classic,
    Hedged,
    ZeroDte,
}

/// What is to be done outside after an action.
#[derive(Debug, Clone)]
pub enum Effect {
    Nothing,
    /// Request a reload.
    Reload,
    /// Add the symbol, where there is one; re-read the watchlist; reload.
    AddSymbol(Option<String>),
    /// Remove the symbol; re-read the watchlist; reload.
    RemoveSymbol(String),
    /// Store the settings; reload.
    SaveSettings,
    /// Store the roster edits; reload where asked.
    SaveRoster { reload: bool },
    /// Preview the order of a suggestion.
    Preview(Suggestion),
    /// Execute the order of a suggestion.
    Execute(Suggestion),
}

// --- state -----------------------------------------------------------------

/// All state of the front end.
#[derive(Debug, Clone)]
pub struct App {
    pub cfg: Config,
    pub tab: Tab,
    pub watchlist: Vec<WatchlistRow>,
    pub suggestions: Vec<Suggestion>,
    /// Put-spread suggestions.
    pub hedged_suggestions: Vec<Suggestion>,
    /// One structure per quadrant slot, `None` where nothing fits.
    pub zerodte_suggestions: Vec<Option<Suggestion>>,
    pub journal: Vec<JournalRow>,
    /// Wheel state from the local store.
    pub positions: Vec<WheelPositionRow>,
    /// Live broker positions.
    pub broker_positions: Vec<PositionRow>,
    pub account: Option<AccountSnapshot>,
    pub selected: usize,
    pub input: InputMode,
    pub status: String,
    /// Whether there is a broker connection.
    pub connected: bool,
    /// Whether executing transmits.
    pub armed: bool,
    /// Whether the live-trading phrase was typed this session.
    pub live_confirmed: bool,
    /// Rolls whose close leg is live but not yet filled.
    pub pending_rolls: Vec<PendingRoll>,
    /// A background reload is in flight.
    pub reloading: bool,
    /// A reload was asked for while one was in flight.
    pub reload_pending: bool,
    /// Why there is no connection.
    pub offline_reason: Option<String>,
    /// Whether the detail panel is open.
    pub detail_open: bool,
    pub settings: UserSettings,
    /// Whether the selected knob is in edit mode.
    pub settings_editing: bool,
    pub should_quit: bool,
}

/// What stands on the status line at rest.
pub open spec fn rest_status(connected: bool) -> Seq<char> {
    if connected {
        "connected — `r` refreshes live data, `p` previews, `A` arms, `x` executes"@
    } else {
        "offline — showing demo data. Start IB Gateway and configure config.toml to connect."@
    }
}

/// What stands on the status line at rest.
pub fn initial_status(connected: bool) -> (r: String)
    ensures
        r@ == rest_status(connected),
{
    if connected {
        own("connected — `r` refreshes live data, `p` previews, `A` arms, `x` executes")
    } else {
        own("offline — showing demo data. Start IB Gateway and configure config.toml to connect.")
    }
}

/// Whether every structure of a list is in range.
pub open spec fn slots_wf(s: Seq<Option<Suggestion>>) -> bool {
    forall|i: int| 0 <= i < s.len() && (#[trigger] s[i]) is Some ==> (s[i]->0)@.wf()
}

impl App {
    /// Whether all suggestions and broker positions are in range.
    pub open spec fn wf(self) -> bool {
        &&& rows_wf(self.broker_positions@)
        &&& all_wf(self.suggestions@)
        &&& all_wf(self.hedged_suggestions@)
        &&& slots_wf(self.zerodte_suggestions@)
    }

    /// The state at start: stored knobs laid over the engine configuration (or
    /// derived from it where none are stored), stored roster edits over the
    /// roster, the rolls of a prior session taken up again, disarmed and not
    /// confirmed for live trading.
    pub fn new(
        cfg: Config,
        connected: bool,
        stored_settings: Option<UserSettings>,
        stored_roster: Option<ZeroDteSettings>,
        rolls: Vec<PendingRollRow>,
    ) -> (r: Self)
        requires
            is_price(cfg.engine.target_delta as int),
            is_price(cfg.engine.take_profit_pct as int),
        ensures
            r.wf(),
            r.settings == (match stored_settings {
                Some(s) => s,
                None => UserSettings {
                    target_win_pct: whole_percent(SCALE - cfg.engine.target_delta) as i64,
                    take_profit_pct: whole_percent(cfg.engine.take_profit_pct as int) as i64,
                },
            }),
            r.cfg.engine == overlaid(r.settings, cfg.engine),
            r.cfg.connection == cfg.connection,
            r.cfg.guardrails == cfg.guardrails,
            r.cfg.zerodte.slots == cfg.zerodte.slots,
            stored_roster is None ==> r.cfg.zerodte == cfg.zerodte,
            stored_roster is Some ==> r.cfg.zerodte.strategies@.len()
                == cfg.zerodte.strategies@.len() && (forall|i: int|
                0 <= i < cfg.zerodte.strategies@.len() ==> #[trigger] r.cfg.zerodte.strategies@[i]
                    == crate::config::edited(
                    cfg.zerodte.strategies@[i],
                    (stored_roster->0).entries@,
                )),
            r.pending_rolls@.len() == rolls@.len(),
            forall|i: int|
                0 <= i < rolls@.len() ==> (#[trigger] r.pending_rolls@[i]).takes_up(rolls@[i]),
            r.connected == connected,
            r.status@ == rest_status(connected),
            r.tab == Tab::Dashboard && r.selected == 0 && r.input@ == InputView::Normal,
            !r.armed && !r.live_confirmed && !r.reloading && !r.reload_pending && !r.detail_open
                && !r.settings_editing && !r.should_quit,
            r.watchlist@.len() == 0 && r.suggestions@.len() == 0 && r.hedged_suggestions@.len() == 0
                && r.zerodte_suggestions@.len() == 0 && r.journal@.len() == 0
                && r.positions@.len() == 0 && r.broker_positions@.len() == 0,
            r.account is None && r.offline_reason is None,
    {
        let settings = match stored_settings {
            Some(s) => s,
            None => UserSettings::from_engine(&cfg.engine),
        };
        let mut cfg = cfg;
        settings.apply_to(&mut cfg.engine);
        if let Some(z) = stored_roster {
            z.apply_to(&mut cfg.zerodte);
        }
        App {
            cfg,
            tab: Tab::Dashboard,
            watchlist: Vec::new(),
            suggestions: Vec::new(),
            hedged_suggestions: Vec::new(),
            zerodte_suggestions: Vec::new(),
            journal: Vec::new(),
            positions: Vec::new(),
            broker_positions: Vec::new(),
            account: None,
            selected: 0,
            input: InputMode::Normal,
            status: initial_status(connected),
            connected,
            armed: false,
            live_confirmed: false,
            pending_rolls: rolls_of(rolls),
            reloading: false,
            reload_pending: false,
            offline_reason: None,
            detail_open: false,
            settings,
            settings_editing: false,
            should_quit: false,
        }
    }

    // --- what the state says -----------------------------------------------

    /// How many rows the active tab lists.
    pub open spec fn rows_shown(self) -> int {
        match self.tab {
            Tab::Watchlist => self.watchlist@.len() as int,
            Tab::Suggestions => self.suggestions@.len() as int,
            Tab::HedgedWheel => self.hedged_suggestions@.len() as int,
            Tab::ZeroDte => self.zerodte_suggestions@.len() as int,
            Tab::Journal => self.journal@.len() as int,
            Tab::Settings => 2,
            _ => 0,
        }
    }

    /// How many rows the active tab lists.
    pub fn list_len(&self) -> (r: usize)
        ensures
            r == self.rows_shown(),
    {
        match self.tab {
            Tab::Watchlist => self.watchlist.len(),
            Tab::Suggestions => self.suggestions.len(),
            Tab::HedgedWheel => self.hedged_suggestions.len(),
            Tab::ZeroDte => self.zerodte_suggestions.len(),
            Tab::Journal => self.journal.len(),
            Tab::Settings => 2,
            _ => 0,
        }
    }

    /// The suggestion at a place of a list.
    pub open spec fn listed(self, list: SugList, i: int) -> Option<SuggestionView> {
        match list {
            SugList::Classic => if 0 <= i < self.suggestions@.len() {
                Some(self.suggestions@[i]@)
            } else {
                None
            },
            SugList::Hedged => if 0 <= i < self.hedged_suggestions@.len() {
                Some(self.hedged_suggestions@[i]@)
            } else {
                None
            },
            SugList::ZeroDte => if 0 <= i < self.zerodte_suggestions@.len() {
                opt_view(self.zerodte_suggestions@[i])
            } else {
                None
            },
        }
    }

    /// The suggestion under the cursor of the active tab.
    pub open spec fn focused(self) -> Option<SuggestionView> {
        match self.tab {
            Tab::Suggestions => self.listed(SugList::Classic, self.selected as int),
            Tab::HedgedWheel => self.listed(SugList::Hedged, self.selected as int),
            Tab::ZeroDte => self.listed(SugList::ZeroDte, self.selected as int),
            _ => None,
        }
    }

    /// The suggestion at a place of a list, where there is one.
    pub fn sug_at(&self, list: SugList, i: usize) -> (r: Option<&Suggestion>)
        ensures
            self.listed(list, i as int) is Some <==> r is Some,
            r is Some ==> Some((r->0)@) == self.listed(list, i as int),
            self.wf() && r is Some ==> (r->0)@.wf(),
    {
        match list {
            SugList::Classic => if i < self.suggestions.len() {
                Some(&self.suggestions[i])
            } else {
                None
            },
            SugList::Hedged => if i < self.hedged_suggestions.len() {
                Some(&self.hedged_suggestions[i])
            } else {
                None
            },
            SugList::ZeroDte => if i < self.zerodte_suggestions.len() {
                assert(self.wf() && self.zerodte_suggestions@[i as int] is Some ==> (
                self.zerodte_suggestions@[i as int]->0)@.wf());
                self.zerodte_suggestions[i].as_ref()
            } else {
                None
            },
        }
    }

    /// The suggestion highlighted on the active tab, if any.
    pub fn selected_suggestion(&self) -> (r: Option<&Suggestion>)
        ensures
            self.focused() is Some <==> r is Some,
            r is Some ==> Some((r->0)@) == self.focused(),
            self.wf() && r is Some ==> (r->0)@.wf(),
    {
        match self.tab {
            Tab::Suggestions => self.sug_at(SugList::Classic, self.selected),
            Tab::HedgedWheel => self.sug_at(SugList::Hedged, self.selected),
            Tab::ZeroDte => self.sug_at(SugList::ZeroDte, self.selected),
            _ => None,
        }
    }

    /// Slots of the first `n` that trade unattended.
    pub open spec fn automating(strategies: Seq<StructureParams>, n: int) -> int
        decreases n,
    {
        if n <= 0 {
            0
        } else {
            App::automating(strategies, n - 1) + if strategies[n - 1].automate {
                1int
            } else {
                0
            }
        }
    }

    /// How many roster entries are armed for unattended trading.
    pub fn zerodte_automating(&self) -> (r: usize)
        ensures
            r == App::automating(
                self.cfg.zerodte.strategies@,
                self.cfg.zerodte.strategies@.len() as int,
            ),
    {
        let list = &self.cfg.zerodte.strategies;
        let mut n: usize = 0;
        let mut i: usize = 0;
        while i < list.len()
            invariant
                i <= list@.len(),
                n <= i,
                n == App::automating(list@, i as int),
            decreases list@.len() - i,
        {
            if list[i].automate {
                n = n + 1;
            }
            i = i + 1;
        }
        n
    }

    /// Whether orders may be transmitted as far as the live confirmation goes:
    /// always on paper, always with the guardrail off, else once the phrase was
    /// typed.
    pub open spec fn live_open(self) -> bool {
        !self.cfg.connection.live() || !self.cfg.guardrails.require_live_confirmation
            || self.live_confirmed
    }

    /// Whether orders may be transmitted as far as the live confirmation goes.
    pub fn live_gate_ok(&self) -> (r: bool)
        ensures
            r == self.live_open(),
    {
        !self.cfg.connection.is_live() || !self.cfg.guardrails.require_live_confirmation
            || self.live_confirmed
    }

    /// `paper` or `live`.
    pub fn mode_label(&self) -> (r: &'static str)
        ensures
            r@ == (match self.cfg.connection.mode {
                TradingMode::Paper => "paper"@,
                TradingMode::Live => "live"@,
            }),
    {
        match self.cfg.connection.mode {
            TradingMode::Paper => "paper",
            TradingMode::Live => "live",
        }
    }

    /// Positions among the first `n` that are in an open wheel leg.
    pub open spec fn open_among(positions: Seq<WheelPositionRow>, n: int) -> int
        decreases n,
    {
        if n <= 0 {
            0
        } else {
            App::open_among(positions, n - 1) + if WheelState::of_name(positions[n - 1].state@)
                != WheelState::Idle {
                1int
            } else {
                0
            }
        }
    }

    /// How many symbols are in an open wheel leg; a stored state that is not
    /// known counts as idle.
    pub fn open_position_count(&self) -> (r: usize)
        ensures
            r == App::open_among(self.positions@, self.positions@.len() as int),
    {
        let mut n: usize = 0;
        let mut i: usize = 0;
        while i < self.positions.len()
            invariant
                i <= self.positions@.len(),
                n <= i,
                n == App::open_among(self.positions@, i as int),
            decreases self.positions@.len() - i,
        {
            if WheelState::parse(self.positions[i].state.as_str()) != WheelState::Idle {
                n = n + 1;
            }
            i = i + 1;
        }
        n
    }

    /// Whether the tradability probe has marked a symbol blocked.
    pub fn is_symbol_blocked(&self, symbol: &str) -> (r: bool)
        ensures
            r == is_blocked(self.watchlist@, symbol@),
    {
        symbol_blocked(&self.watchlist, symbol)
    }

    // --- moving around -----------------------------------------------------

    /// Goes `delta` tabs on, wrapping around.
    pub fn switch_tab(&mut self, delta: i32)
        ensures
            *final(self) == (App {
                tab: Tab::at(old(self).tab.place() + delta),
                selected: 0,
                settings_editing: false,
                ..*old(self)
            }),
    {
        let i: usize = wrap(self.tab.index(), delta, 8);
        self.tab = Tab::ALL[i];
        self.selected = 0;
        self.settings_editing = false;
    }

    /// Moves the cursor by `delta` rows, wrapping around.
    pub fn move_selection(&mut self, delta: i32)
        ensures
            *final(self) == (App {
                selected: (if old(self).rows_shown() == 0 {
                    0
                } else {
                    (old(self).selected + delta) % old(self).rows_shown()
                }) as usize,
                ..*old(self)
            }),
            old(self).rows_shown() > 0 ==> final(self).selected < old(self).rows_shown(),
    {
        let len: usize = self.list_len();
        if len == 0 {
            self.selected = 0;
        } else {
            self.selected = wrap(self.selected, delta, len);
        }
    }

    /// Holds the cursor within the rows of the active tab.
    pub fn hold_selection(&mut self)
        ensures
            *final(self) == (App {
                selected: held(old(self).selected as int, old(self).rows_shown()) as usize,
                ..*old(self)
            }),
    {
        let len: usize = self.list_len();
        if self.selected >= len {
            self.selected = if len == 0 {
                0
            } else {
                len - 1
            };
        }
    }

    /// Takes over the watchlist as re-read from the store.
    pub fn refresh_watchlist(&mut self, watchlist: Vec<WatchlistRow>)
        ensures
            *final(self) == (App {
                watchlist,
                selected: held(
                    old(self).selected as int,
                    (App { watchlist, ..*old(self) }).rows_shown(),
                ) as usize,
                ..*old(self)
            }),
    {
        self.watchlist = watchlist;
        self.hold_selection();
    }
}

/// A cursor held within `len` rows.
pub open spec fn held(selected: int, len: int) -> int {
    if selected < len {
        selected
    } else if len == 0 {
        0
    } else {
        len - 1
    }
}

/// `i + delta` modulo `n`.
fn wrap(i: usize, delta: i32, n: usize) -> (r: usize)
    requires
        n > 0,
    ensures
        r == (i + delta) % (n as int),
        r < n,
{
    let x: i128 = i as i128 + delta as i128;
    let m: i128 = n as i128;
    if x >= 0 {
        (x % m) as usize
    } else {
        let q: i128 = crate::fixed::floor_of(x, m);
        proof {
            let (xi, mi) = (x as int, m as int);
            assert(q * mi + xi % mi == xi && 0 <= xi % mi && xi % mi < mi) by (nonlinear_arith)
                requires
                    mi > 0,
                    q == xi / mi,
            ;
            assert(-0x8_0000_0000 * 0x1_0000_0000_0000_0000 <= q * m <= 0) by (nonlinear_arith)
                requires
                    q * m <= x,
                    x < 0,
                    x < q * m + m,
                    -0x8000_0000 <= x,
                    0 < m <= 0x1_0000_0000_0000_0000,
            ;
        }
        (x - q * m) as usize
    }
}

} // verus!

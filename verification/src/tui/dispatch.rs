//! How each action changes the state, and what is left to do outside.

use vstd::prelude::*;
use vstd::string::*;
use crate::config::{overlaid, Config, UserSettings};
use crate::engine::structures::assemble::StructureParams;
use crate::fixed::{clamp, dec_text, push_dec, push_ratio, ratio_text};
use crate::text::{own, same_text, trim_text, trimmed, upper, upper_char};
use crate::tui::app::{
    initial_status, rest_status, Action, App, Effect, InputMode, InputView, Tab,
    LIVE_CONFIRM_PHRASE,
};

verus! {

// --- typed text ------------------------------------------------------------

pub open spec fn is_alnum(c: char) -> bool {
    ('0' <= c && c <= '9') || ('a' <= c && c <= 'z') || ('A' <= c && c <= 'Z')
}

/// Typed text after one more character: letters and digits go in as capitals, a
/// symbol also takes a point, anything else is ignored.
pub open spec fn typed(input: InputView, c: char) -> InputView {
    match input {
        InputView::AddSymbol(s) => if is_alnum(c) || c == '.' {
            InputView::AddSymbol(s.push(upper(c)))
        } else {
            input
        },
        InputView::ConfirmLive(s) => if is_alnum(c) {
            InputView::ConfirmLive(s.push(upper(c)))
        } else {
            input
        },
        InputView::Normal => input,
    }
}

/// Typed text without its last character.
pub open spec fn rubbed(input: InputView) -> InputView {
    match input {
        InputView::AddSymbol(s) => InputView::AddSymbol(
            if s.len() > 0 {
                s.drop_last()
            } else {
                s
            },
        ),
        InputView::ConfirmLive(s) => InputView::ConfirmLive(
            if s.len() > 0 {
                s.drop_last()
            } else {
                s
            },
        ),
        InputView::Normal => input,
    }
}

/// Whether a phrase unlocks live trading.
pub open spec fn unlocks(phrase: Seq<char>) -> bool {
    trim_text(phrase) == LIVE_CONFIRM_PHRASE@
}

/// What the status line says of a typed phrase.
pub open spec fn phrase_status(phrase: Seq<char>) -> Seq<char> {
    if unlocks(phrase) {
        "✓ LIVE trading confirmed for this session"@
    } else {
        "phrase mismatch — LIVE trading still locked (type "@ + LIVE_CONFIRM_PHRASE@ + ")"@
    }
}

// --- knobs and slots -------------------------------------------------------

/// The knobs after the one under the cursor is stepped: a percent for the win
/// rate, five for the take-profit, held within their ranges.
pub open spec fn stepped(s: UserSettings, selected: int, dir: int) -> UserSettings {
    UserSettings {
        target_win_pct: clamp(
            s.target_win_pct + (if selected == 0 {
                dir * 1_000_000
            } else {
                0
            }),
            UserSettings::WIN_MIN as int,
            UserSettings::WIN_MAX as int,
        ) as i64,
        take_profit_pct: clamp(
            s.take_profit_pct + (if selected == 0 {
                0
            } else {
                dir * 5_000_000
            }),
            UserSettings::TP_MIN as int,
            UserSettings::TP_MAX as int,
        ) as i64,
    }
}

/// The two knobs in words.
pub open spec fn knobs_text(s: UserSettings) -> Seq<char> {
    "win "@ + dec_text(s.target_win_pct as int, 0) + "% · take-profit "@ + dec_text(
        s.take_profit_pct as int,
        0,
    ) + "% — saved"@
}

/// The roster index behind the cursor.
pub open spec fn focused_slot(app: App) -> Option<int> {
    app.cfg.zerodte.slot_index(app.selected as int)
}

/// Whether `b` is `a` with its focused roster entry changed to `p`; the status
/// line may differ too.
pub open spec fn slot_changed(a: App, b: App, p: StructureParams) -> bool {
    &&& b == (App { cfg: b.cfg, status: b.status, ..a })
    &&& b.cfg == (Config { zerodte: b.cfg.zerodte, ..a.cfg })
    &&& b.cfg.zerodte.slots == a.cfg.zerodte.slots
    &&& focused_slot(a) is Some
    &&& b.cfg.zerodte.strategies@ == a.cfg.zerodte.strategies@.update(focused_slot(a)->0, p)
}

/// The focused roster entry.
pub open spec fn focused_entry(a: App) -> StructureParams {
    a.cfg.zerodte.strategies@[focused_slot(a)->0]
}

/// How toggling the focused slot's automation goes: refused in read-only mode,
/// and for a naked structure that is not allowed; otherwise the slot changes and
/// the roster is to be stored.
pub open spec fn automate_toggled(a: App, b: App, e: Effect) -> bool {
    let p = focused_entry(a);
    if a.selected >= a.cfg.zerodte.slots@.len() {
        b == a && e is Nothing
    } else if a.cfg.guardrails.read_only {
        &&& b == (App { status: b.status, ..a })
        &&& b.status@ == "read_only — disable it in config to allow automation"@
        &&& e is Nothing
    } else if focused_slot(a) is None {
        b == a && e is Nothing
    } else if p.kind.naked() && !p.allow_naked {
        &&& b == (App { status: b.status, ..a })
        &&& b.status@ == p.name@ + ": naked structure needs allow_naked in config first"@
        &&& e is Nothing
    } else {
        &&& slot_changed(a, b, StructureParams { automate: !p.automate, ..p })
        &&& b.status@ == (if !p.automate {
            "⚡ "@ + p.name@ + " AUTO-TRADING — it will enter at its scheduled time"@
        } else {
            p.name@ + " automation off"@
        })
        &&& e == (Effect::SaveRoster { reload: false })
    }
}

/// The risk budget after a step: 250 dollars each, between 250 and a million.
pub open spec fn risk_stepped(max_risk: int, dir: int) -> int {
    clamp(max_risk + dir * 250_000_000, 250_000_000, 1_000_000_000_000)
}

/// The profit target after a step: five percent each, between 5 and 95.
pub open spec fn target_stepped(target: int, dir: int) -> int {
    clamp(target + dir * 50_000, 50_000, 950_000)
}

// --- the whole -------------------------------------------------------------

/// Whether only the status line changed, to `text`.
pub open spec fn says(a: App, b: App, text: Seq<char>) -> bool {
    b == (App { status: b.status, ..a }) && b.status@ == text
}

/// How an action changes the state, and what is left to do.
#[verifier::opaque]
pub open spec fn dispatched(a: App, action: Action, b: App, e: Effect) -> bool {
    match action {
        Action::Quit => b == (App { should_quit: true, ..a }) && e is Nothing,
        Action::NextTab => b == (App {
            tab: Tab::at(a.tab.place() + 1),
            selected: 0,
            settings_editing: false,
            ..a
        }) && e is Nothing,
        Action::PrevTab => b == (App {
            tab: Tab::at(a.tab.place() - 1),
            selected: 0,
            settings_editing: false,
            ..a
        }) && e is Nothing,
        Action::JumpTab(i) => e is Nothing && if i < 8 {
            b == (App { tab: Tab::ALL@[i as int], selected: 0, settings_editing: false, ..a })
        } else {
            b == a
        },
        Action::Up => e is Nothing && b == (App {
            selected: (if a.rows_shown() == 0 {
                0
            } else {
                (a.selected - 1) % a.rows_shown()
            }) as usize,
            ..a
        }),
        Action::Down => e is Nothing && b == (App {
            selected: (if a.rows_shown() == 0 {
                0
            } else {
                (a.selected + 1) % a.rows_shown()
            }) as usize,
            ..a
        }),
        Action::StartAddSymbol => {
            &&& e is Nothing
            &&& b == (App { tab: Tab::Watchlist, input: b.input, status: b.status, ..a })
            &&& b.input@ == InputView::AddSymbol(Seq::empty())
            &&& b.status@ == "add symbol — type a ticker, Enter to confirm, Esc to cancel"@
        },
        Action::StartLiveConfirm => e is Nothing && if !a.cfg.connection.live() {
            says(a, b, "live confirmation only applies in live mode"@)
        } else if a.live_confirmed {
            says(a, b, "LIVE trading already confirmed this session"@)
        } else {
            &&& b == (App { input: b.input, status: b.status, ..a })
            &&& b.input@ == InputView::ConfirmLive(Seq::empty())
            &&& b.status@ == "type "@ + LIVE_CONFIRM_PHRASE@
                + " then Enter to unlock LIVE trading (Esc cancels)"@
        },
        Action::InputChar(c) => {
            &&& e is Nothing
            &&& b == (App { input: b.input, ..a })
            &&& b.input@ == typed(a.input@, c)
        },
        Action::Backspace => {
            &&& e is Nothing
            &&& b == (App { input: b.input, ..a })
            &&& b.input@ == rubbed(a.input@)
        },
        Action::CancelInput => {
            &&& e is Nothing
            &&& b == (App { input: InputMode::Normal, status: b.status, ..a })
            &&& b.status@ == rest_status(a.connected)
        },
        Action::SubmitInput => match a.input@ {
            InputView::AddSymbol(buf) => if trim_text(buf).len() == 0 {
                b == (App { input: InputMode::Normal, ..a }) && e == Effect::AddSymbol(None)
            } else {
                &&& b == (App { input: InputMode::Normal, status: b.status, ..a })
                &&& b.status@ == "added "@ + trim_text(buf)
                &&& e is AddSymbol
                &&& e->AddSymbol_0 is Some
                &&& (e->AddSymbol_0->0)@ == trim_text(buf)
            },
            InputView::ConfirmLive(buf) => {
                &&& e is Nothing
                &&& b == (App {
                    input: InputMode::Normal,
                    live_confirmed: a.live_confirmed || unlocks(buf),
                    status: b.status,
                    ..a
                })
                &&& b.status@ == phrase_status(buf)
            },
            InputView::Normal => b == a && e is Nothing,
        },
        Action::DeleteSelected => if a.tab == Tab::Watchlist && a.selected < a.watchlist@.len() {
            let sym = a.watchlist@[a.selected as int].symbol@;
            says(a, b, "removed "@ + sym) && e is RemoveSymbol && (e->RemoveSymbol_0)@ == sym
        } else {
            b == a && e is Nothing
        },
        Action::Refresh => b == a && e is Reload,
        Action::ToggleArm => {
            &&& e is Nothing
            &&& b == (App { armed: !a.armed, status: b.status, ..a })
            &&& b.status@ == (if !a.armed {
                "ARMED — `x` will transmit a real order"@
            } else {
                "disarmed"@
            })
        },
        Action::Preview => b == a && match a.focused() {
            Some(s) => e is Preview && (e->Preview_0)@ == s,
            None => e is Nothing,
        },
        Action::Execute => b == a && match a.focused() {
            Some(s) => e is Execute && (e->Execute_0)@ == s,
            None => e is Nothing,
        },
        Action::OpenDetail => e is Nothing && b == (App {
            detail_open: a.detail_open || a.focused() is Some,
            ..a
        }),
        Action::CloseDetail => {
            &&& e is Nothing
            &&& b == (App { detail_open: false, status: b.status, ..a })
            &&& b.status@ == rest_status(a.connected)
        },
        Action::SettingAdjust(dir) => {
            let next = stepped(a.settings, a.selected as int, dir as int);
            &&& e is SaveSettings
            &&& b == (App { settings: next, cfg: b.cfg, status: b.status, ..a })
            &&& b.cfg == (Config { engine: overlaid(next, a.cfg.engine), ..a.cfg })
            &&& b.status@ == knobs_text(next) + ", re-ranking…"@
        },
        Action::ToggleSettingEdit => {
            &&& e is Nothing
            &&& b == (App { settings_editing: !a.settings_editing, status: b.status, ..a })
            &&& b.status@ == (if !a.settings_editing {
                "editing — ↑/↓ change · Enter or Esc when done"@
            } else {
                knobs_text(a.settings)
            })
        },
        Action::ToggleAutomate => automate_toggled(a, b, e),
        Action::SlotRisk(dir) => if focused_slot(a) is None {
            b == a && e is Nothing
        } else {
            let p = focused_entry(a);
            let next = risk_stepped(p.max_risk as int, dir as int);
            &&& e == (Effect::SaveRoster { reload: true })
            &&& slot_changed(a, b, StructureParams { max_risk: next as i64, ..p })
            &&& b.status@ == p.name@ + " max risk $"@ + dec_text(next, 0) + " — re-ranking…"@
        },
        Action::SlotProfit(dir) => if focused_slot(a) is None {
            b == a && e is Nothing
        } else {
            let p = focused_entry(a);
            let next = target_stepped(p.profit_target_pct as int, dir as int);
            &&& e == (Effect::SaveRoster { reload: false })
            &&& slot_changed(a, b, StructureParams { profit_target_pct: next as i64, ..p })
            &&& b.status@ == p.name@ + " profit target "@ + ratio_text(next, 10_000, 0) + "%"@
        },
    }
}

fn alnum(c: char) -> (r: bool)
    ensures
        r == is_alnum(c),
{
    ('0' <= c && c <= '9') || ('a' <= c && c <= 'z') || ('A' <= c && c <= 'Z')
}

fn knobs_string(s: &UserSettings) -> (r: String)
    ensures
        r@ == knobs_text(*s),
{
    let mut t = String::from_str("win ");
    push_dec(&mut t, s.target_win_pct as i128, 0);
    t.append("% · take-profit ");
    push_dec(&mut t, s.take_profit_pct as i128, 0);
    t.append("% — saved");
    t
}

fn clamp_wide(x: i128, lo: i64, hi: i64) -> (r: i64)
    requires
        lo <= hi,
    ensures
        r == clamp(x as int, lo as int, hi as int),
{
    if x < lo as i128 {
        lo
    } else if x > hi as i128 {
        hi
    } else {
        x as i64
    }
}

impl App {
    /// Applies an action.
    pub fn dispatch(&mut self, action: Action) -> (e: Effect)
        ensures
            dispatched(*old(self), action, *final(self), e),
    {
        match action {
            Action::Quit => self.quit(),
            Action::NextTab => self.next_tab(),
            Action::PrevTab => self.prev_tab(),
            Action::JumpTab(i) => self.jump_tab(i),
            Action::Up => self.go_up(),
            Action::Down => self.go_down(),
            Action::StartAddSymbol => self.start_add_symbol(),
            Action::StartLiveConfirm => self.start_live_confirm(),
            Action::InputChar(c) => self.take_char(c),
            Action::Backspace => self.rub_char(),
            Action::CancelInput => self.cancel_input(),
            Action::SubmitInput => self.submit_input(),
            Action::DeleteSelected => self.delete_selected(),
            Action::Refresh => self.refresh(),
            Action::ToggleArm => self.toggle_arm(),
            Action::Preview => self.pick_preview(),
            Action::Execute => self.pick_execute(),
            Action::OpenDetail => self.open_detail(),
            Action::CloseDetail => self.close_detail(),
            Action::SettingAdjust(dir) => self.adjust_setting(dir),
            Action::ToggleAutomate => self.toggle_slot_automate(),
            Action::SlotRisk(dir) => self.adjust_slot_risk(dir),
            Action::SlotProfit(dir) => self.adjust_slot_profit(dir),
            Action::ToggleSettingEdit => self.toggle_setting_edit(),
        }
    }

    fn quit(&mut self) -> (e: Effect)
        ensures
            dispatched(*old(self), Action::Quit, *final(self), e),
    {
        proof {
            reveal(dispatched);
        }
        self.should_quit = true;
        Effect::Nothing
    }

    fn next_tab(&mut self) -> (e: Effect)
        ensures
            dispatched(*old(self), Action::NextTab, *final(self), e),
    {
        proof {
            reveal(dispatched);
        }
        self.switch_tab(1);
        Effect::Nothing
    }

    fn prev_tab(&mut self) -> (e: Effect)
        ensures
            dispatched(*old(self), Action::PrevTab, *final(self), e),
    {
        proof {
            reveal(dispatched);
        }
        self.switch_tab(-1);
        Effect::Nothing
    }

    fn jump_tab(&mut self, i: usize) -> (e: Effect)
        ensures
            dispatched(*old(self), Action::JumpTab(i), *final(self), e),
    {
        proof {
            reveal(dispatched);
        }
        if i < 8 {
            self.tab = Tab::ALL[i];
            self.selected = 0;
            self.settings_editing = false;
        }
        Effect::Nothing
    }

    fn go_up(&mut self) -> (e: Effect)
        ensures
            dispatched(*old(self), Action::Up, *final(self), e),
    {
        proof {
            reveal(dispatched);
        }
        self.move_selection(-1);
        Effect::Nothing
    }

    fn go_down(&mut self) -> (e: Effect)
        ensures
            dispatched(*old(self), Action::Down, *final(self), e),
    {
        proof {
            reveal(dispatched);
        }
        self.move_selection(1);
        Effect::Nothing
    }

    fn start_add_symbol(&mut self) -> (e: Effect)
        ensures
            dispatched(*old(self), Action::StartAddSymbol, *final(self), e),
    {
        proof {
            reveal(dispatched);
        }
        self.tab = Tab::Watchlist;
        self.input = InputMode::AddSymbol(String::new());
        self.status = own("add symbol — type a ticker, Enter to confirm, Esc to cancel");
        Effect::Nothing
    }

    fn start_live_confirm(&mut self) -> (e: Effect)
        ensures
            dispatched(*old(self), Action::StartLiveConfirm, *final(self), e),
    {
        proof {
            reveal(dispatched);
        }
        if !self.cfg.connection.is_live() {
            self.status = own("live confirmation only applies in live mode");
        } else if self.live_confirmed {
            self.status = own("LIVE trading already confirmed this session");
        } else {
            self.input = InputMode::ConfirmLive(String::new());
            let mut s = String::from_str("type ");
            s.append(LIVE_CONFIRM_PHRASE);
            s.append(" then Enter to unlock LIVE trading (Esc cancels)");
            self.status = s;
        }
        Effect::Nothing
    }

    fn take_char(&mut self, c: char) -> (e: Effect)
        ensures
            dispatched(*old(self), Action::InputChar(c), *final(self), e),
    {
        proof {
            reveal(dispatched);
        }
        self.input_char(c);
        Effect::Nothing
    }

    fn rub_char(&mut self) -> (e: Effect)
        ensures
            dispatched(*old(self), Action::Backspace, *final(self), e),
    {
        proof {
            reveal(dispatched);
        }
        self.backspace();
        Effect::Nothing
    }

    fn cancel_input(&mut self) -> (e: Effect)
        ensures
            dispatched(*old(self), Action::CancelInput, *final(self), e),
    {
        proof {
            reveal(dispatched);
        }
        self.input = InputMode::Normal;
        self.status = initial_status(self.connected);
        Effect::Nothing
    }

    fn delete_selected(&mut self) -> (e: Effect)
        ensures
            dispatched(*old(self), Action::DeleteSelected, *final(self), e),
    {
        proof {
            reveal(dispatched);
        }
        if self.tab == Tab::Watchlist && self.selected < self.watchlist.len() {
            let sym = own(self.watchlist[self.selected].symbol.as_str());
            let mut s = String::from_str("removed ");
            s.append(sym.as_str());
            self.status = s;
            Effect::RemoveSymbol(sym)
        } else {
            Effect::Nothing
        }
    }

    fn refresh(&mut self) -> (e: Effect)
        ensures
            dispatched(*old(self), Action::Refresh, *final(self), e),
    {
        proof {
            reveal(dispatched);
        }
        Effect::Reload
    }

    fn toggle_arm(&mut self) -> (e: Effect)
        ensures
            dispatched(*old(self), Action::ToggleArm, *final(self), e),
    {
        proof {
            reveal(dispatched);
        }
        self.armed = !self.armed;
        self.status = if self.armed {
            own("ARMED — `x` will transmit a real order")
        } else {
            own("disarmed")
        };
        Effect::Nothing
    }

    fn pick_preview(&mut self) -> (e: Effect)
        ensures
            dispatched(*old(self), Action::Preview, *final(self), e),
    {
        proof {
            reveal(dispatched);
        }
        match self.selected_suggestion() {
            Some(s) => Effect::Preview(s.copied()),
            None => Effect::Nothing,
        }
    }

    fn pick_execute(&mut self) -> (e: Effect)
        ensures
            dispatched(*old(self), Action::Execute, *final(self), e),
    {
        proof {
            reveal(dispatched);
        }
        match self.selected_suggestion() {
            Some(s) => Effect::Execute(s.copied()),
            None => Effect::Nothing,
        }
    }

    fn open_detail(&mut self) -> (e: Effect)
        ensures
            dispatched(*old(self), Action::OpenDetail, *final(self), e),
    {
        proof {
            reveal(dispatched);
        }
        if self.selected_suggestion().is_some() {
            self.detail_open = true;
        }
        Effect::Nothing
    }

    fn close_detail(&mut self) -> (e: Effect)
        ensures
            dispatched(*old(self), Action::CloseDetail, *final(self), e),
    {
        proof {
            reveal(dispatched);
        }
        self.detail_open = false;
        self.status = initial_status(self.connected);
        Effect::Nothing
    }

    fn toggle_setting_edit(&mut self) -> (e: Effect)
        ensures
            dispatched(*old(self), Action::ToggleSettingEdit, *final(self), e),
    {
        proof {
            reveal(dispatched);
        }
        self.settings_editing = !self.settings_editing;
        self.status = if self.settings_editing {
            own("editing — ↑/↓ change · Enter or Esc when done")
        } else {
            knobs_string(&self.settings)
        };
        Effect::Nothing
    }

    fn input_char(&mut self, c: char)
        ensures
            *final(self) == (App { input: final(self).input, ..*old(self) }),
            final(self).input@ == typed(old(self).input@, c),
    {
        match &mut self.input {
            InputMode::AddSymbol(buf) => {
                if alnum(c) || c == '.' {
                    buf.push(upper_char(c));
                }
            },
            InputMode::ConfirmLive(buf) => {
                if alnum(c) {
                    buf.push(upper_char(c));
                }
            },
            InputMode::Normal => {},
        }
    }

    fn backspace(&mut self)
        ensures
            *final(self) == (App { input: final(self).input, ..*old(self) }),
            final(self).input@ == rubbed(old(self).input@),
    {
        match &mut self.input {
            InputMode::AddSymbol(buf) => {
                let _ = buf.pop();
            },
            InputMode::ConfirmLive(buf) => {
                let _ = buf.pop();
            },
            InputMode::Normal => {},
        }
    }

    fn submit_input(&mut self) -> (e: Effect)
        ensures
            dispatched(*old(self), Action::SubmitInput, *final(self), e),
    {
        proof {
            reveal(dispatched);
        }
        let mut taken = InputMode::Normal;
        std::mem::swap(&mut self.input, &mut taken);
        match taken {
            InputMode::AddSymbol(buf) => {
                let sym = trimmed(buf.as_str());
                if sym.as_str().is_empty() {
                    Effect::AddSymbol(None)
                } else {
                    let mut s = String::from_str("added ");
                    s.append(sym.as_str());
                    self.status = s;
                    Effect::AddSymbol(Some(sym))
                }
            },
            InputMode::ConfirmLive(buf) => {
                let _ = self.ui_confirm_live(buf.as_str());
                Effect::Nothing
            },
            InputMode::Normal => Effect::Nothing,
        }
    }

    /// Confirms live trading for this session where the phrase is the right one.
    pub fn ui_confirm_live(&mut self, phrase: &str) -> (r: bool)
        ensures
            r == unlocks(phrase@),
            *final(self) == (App {
                live_confirmed: old(self).live_confirmed || r,
                status: final(self).status,
                ..*old(self)
            }),
            final(self).status@ == phrase_status(phrase@),
    {
        if same_text(trimmed(phrase).as_str(), LIVE_CONFIRM_PHRASE) {
            self.live_confirmed = true;
            self.status = own("✓ LIVE trading confirmed for this session");
            true
        } else {
            let mut s = String::from_str("phrase mismatch — LIVE trading still locked (type ");
            s.append(LIVE_CONFIRM_PHRASE);
            s.append(")");
            self.status = s;
            false
        }
    }

    /// Arms or disarms.
    pub fn ui_set_armed(&mut self, on: bool)
        ensures
            *final(self) == (App { armed: on, status: final(self).status, ..*old(self) }),
            final(self).status@ == (if on {
                "ARMED — execute will transmit a real order"@
            } else {
                "disarmed"@
            }),
    {
        self.armed = on;
        self.status = if on {
            own("ARMED — execute will transmit a real order")
        } else {
            own("disarmed")
        };
    }

    fn adjust_setting(&mut self, dir: i32) -> (e: Effect)
        ensures
            dispatched(*old(self), Action::SettingAdjust(dir), *final(self), e),
    {
        proof {
            reveal(dispatched);
        }
        let (up, on): (i128, i128) = if self.selected == 0 {
            (dir as i128 * 1_000_000, 0)
        } else {
            (0, dir as i128 * 5_000_000)
        };
        self.settings = UserSettings {
            target_win_pct: clamp_wide(
                self.settings.target_win_pct as i128 + up,
                UserSettings::WIN_MIN,
                UserSettings::WIN_MAX,
            ),
            take_profit_pct: clamp_wide(
                self.settings.take_profit_pct as i128 + on,
                UserSettings::TP_MIN,
                UserSettings::TP_MAX,
            ),
        };
        let settings = self.settings;
        settings.apply_to(&mut self.cfg.engine);
        let mut s = knobs_string(&self.settings);
        s.append(", re-ranking…");
        self.status = s;
        Effect::SaveSettings
    }

    fn toggle_slot_automate(&mut self) -> (e: Effect)
        ensures
            dispatched(*old(self), Action::ToggleAutomate, *final(self), e),
    {
        proof {
            reveal(dispatched);
        }
        if self.selected >= self.cfg.zerodte.slots.len() {
            return Effect::Nothing;
        }
        let idx: usize = self.cfg.zerodte.slots[self.selected];
        if self.cfg.guardrails.read_only {
            self.status = own("read_only — disable it in config to allow automation");
            return Effect::Nothing;
        }
        if idx >= self.cfg.zerodte.strategies.len() {
            return Effect::Nothing;
        }
        let ghost before = self.cfg.zerodte.strategies@;
        let (naked, allowed, on) = {
            let p = &self.cfg.zerodte.strategies[idx];
            (p.kind.is_naked(), p.allow_naked, p.automate)
        };
        let mut s = own(self.cfg.zerodte.strategies[idx].name.as_str());
        if naked && !allowed {
            s.append(": naked structure needs allow_naked in config first");
            self.status = s;
            return Effect::Nothing;
        }
        {
            let p = &mut self.cfg.zerodte.strategies[idx];
            p.automate = !on;
        }
        assert(self.cfg.zerodte.strategies@ =~= before.update(
            idx as int,
            StructureParams { automate: !on, ..before[idx as int] },
        ));
        if on {
            s.append(" automation off");
            self.status = s;
        } else {
            let mut t = String::from_str("⚡ ");
            t.append(s.as_str());
            t.append(" AUTO-TRADING — it will enter at its scheduled time");
            self.status = t;
        }
        Effect::SaveRoster { reload: false }
    }

    fn adjust_slot_risk(&mut self, dir: i32) -> (e: Effect)
        ensures
            dispatched(*old(self), Action::SlotRisk(dir), *final(self), e),
    {
        proof {
            reveal(dispatched);
        }
        if self.selected >= self.cfg.zerodte.slots.len() {
            return Effect::Nothing;
        }
        let idx: usize = self.cfg.zerodte.slots[self.selected];
        if idx >= self.cfg.zerodte.strategies.len() {
            return Effect::Nothing;
        }
        let ghost before = self.cfg.zerodte.strategies@;
        let next: i64 = clamp_wide(
            self.cfg.zerodte.strategies[idx].max_risk as i128 + dir as i128 * 250_000_000,
            250_000_000,
            1_000_000_000_000,
        );
        let mut s = own(self.cfg.zerodte.strategies[idx].name.as_str());
        {
            let p = &mut self.cfg.zerodte.strategies[idx];
            p.max_risk = next;
        }
        assert(self.cfg.zerodte.strategies@ =~= before.update(
            idx as int,
            StructureParams { max_risk: next, ..before[idx as int] },
        ));
        s.append(" max risk $");
        push_dec(&mut s, next as i128, 0);
        s.append(" — re-ranking…");
        self.status = s;
        Effect::SaveRoster { reload: true }
    }

    fn adjust_slot_profit(&mut self, dir: i32) -> (e: Effect)
        ensures
            dispatched(*old(self), Action::SlotProfit(dir), *final(self), e),
    {
        proof {
            reveal(dispatched);
        }
        if self.selected >= self.cfg.zerodte.slots.len() {
            return Effect::Nothing;
        }
        let idx: usize = self.cfg.zerodte.slots[self.selected];
        if idx >= self.cfg.zerodte.strategies.len() {
            return Effect::Nothing;
        }
        let ghost before = self.cfg.zerodte.strategies@;
        let next: i64 = clamp_wide(
            self.cfg.zerodte.strategies[idx].profit_target_pct as i128 + dir as i128 * 50_000,
            50_000,
            950_000,
        );
        let mut s = own(self.cfg.zerodte.strategies[idx].name.as_str());
        {
            let p = &mut self.cfg.zerodte.strategies[idx];
            p.profit_target_pct = next;
        }
        assert(self.cfg.zerodte.strategies@ =~= before.update(
            idx as int,
            StructureParams { profit_target_pct: next, ..before[idx as int] },
        ));
        s.append(" profit target ");
        push_ratio(&mut s, next as i128, 10_000, 0);
        s.append("%");
        self.status = s;
        Effect::SaveRoster { reload: false }
    }
}

// --- laws ------------------------------------------------------------------

/// Arming and live confirmation change only by their own actions: no action but
/// the arm key changes whether the app is armed, and live trading is confirmed
/// only by submitting the exact phrase.
pub proof fn law_gates_change_only_on_purpose(a: App, action: Action, b: App, e: Effect)
    requires
        dispatched(a, action, b, e),
    ensures
        action != Action::ToggleArm ==> b.armed == a.armed,
        b.live_confirmed && !a.live_confirmed ==> action == Action::SubmitInput
            && a.input@ is ConfirmLive && unlocks(a.input@->ConfirmLive_0),
        a.live_confirmed ==> b.live_confirmed,
        b.cfg.guardrails == a.cfg.guardrails,
        b.cfg.connection == a.cfg.connection,
{
    reveal(dispatched);
}

/// A naked structure that is not allowed is never set to trade unattended, and in
/// read-only mode nothing is.
pub proof fn law_no_unsafe_automation(a: App, b: App, e: Effect, i: int)
    requires
        dispatched(a, Action::ToggleAutomate, b, e),
        0 <= i < a.cfg.zerodte.strategies@.len(),
        b.cfg.zerodte.strategies@[i].automate && !a.cfg.zerodte.strategies@[i].automate,
    ensures
        !a.cfg.guardrails.read_only,
        a.cfg.zerodte.strategies@[i].kind.naked() ==> a.cfg.zerodte.strategies@[i].allow_naked,
{
    reveal(dispatched);
}

} // verus!

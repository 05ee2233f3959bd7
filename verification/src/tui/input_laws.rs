//! What a key does and what an action changes, in the keys and the amounts themselves.

use vstd::prelude::*;
use crate::config::{clamped, edited, overlaid, SlotSettings, UserSettings};
use crate::engine::structures::assemble::StructureParams;
use crate::engine::types::{EngineConfig, StructureKind};
use crate::text::trim_text;
use crate::tui::app::{Action, App, Effect, InputView};
use crate::tui::dispatch::{
    dispatched, risk_stepped, rubbed, stepped, target_stepped, typed,
};
use crate::tui::keys::{key_action, Key, KeyCode};

verus! {

// --- the knobs -------------------------------------------------------------

/// The knobs in the engine: the target delta is what the win rate leaves of the whole,
/// the band reaches ten hundredths to either side of it, and the take-profit is its
/// percentage as a fraction; all in millionths, between 5 and 95 hundredths.
pub proof fn law_knobs(s: UserSettings, cfg: EngineConfig)
    ensures
        ({
            let r = overlaid(s, cfg);
            let (w, t) = (s.target_win_pct as int, s.take_profit_pct as int);
            let d = r.target_delta as int;
            &&& 5_000_000 <= w <= 95_000_000 ==> 100_000_000 - w <= 100 * d < 100_000_000 - w + 100
            &&& w < 5_000_000 ==> d == 950_000
            &&& w >= 95_000_100 ==> d == 50_000
            &&& d >= 150_000 ==> r.min_delta == d - 100_000
            &&& d <= 150_000 ==> r.min_delta == 50_000
            &&& d <= 850_000 ==> r.max_delta == d + 100_000
            &&& d >= 850_000 ==> r.max_delta == 950_000
            &&& 5_000_000 <= t <= 95_000_000 ==> t - 100 < 100 * r.take_profit_pct <= t
            &&& t < 5_000_000 ==> r.take_profit_pct == 50_000
            &&& t > 95_000_000 ==> r.take_profit_pct == 950_000
            &&& r.min_premium == cfg.min_premium
            &&& r.min_open_interest == cfg.min_open_interest
            &&& r.min_annualized_yield == cfg.min_annualized_yield
            &&& r.min_dte == cfg.min_dte
            &&& r.max_dte == cfg.max_dte
            &&& r.roll_delta == cfg.roll_delta
            &&& r.roll_dte == cfg.roll_dte
            &&& r.cc_min_pct_above_basis == cfg.cc_min_pct_above_basis
            &&& r.risk_free_rate == cfg.risk_free_rate
            &&& r.hedge_pct_below == cfg.hedge_pct_below
            &&& r.hedge_min_credit == cfg.hedge_min_credit
        }),
{
}

/// The win rate is held between 50 and 90 percent, the take-profit between 10 and 90.
pub proof fn law_knobs_held(s: UserSettings)
    ensures
        ({
            let (c, w, t) = (clamped(s), s.target_win_pct, s.take_profit_pct);
            &&& 50_000_000 <= w <= 90_000_000 ==> c.target_win_pct == w
            &&& w < 50_000_000 ==> c.target_win_pct == 50_000_000
            &&& w > 90_000_000 ==> c.target_win_pct == 90_000_000
            &&& 10_000_000 <= t <= 90_000_000 ==> c.take_profit_pct == t
            &&& t < 10_000_000 ==> c.take_profit_pct == 10_000_000
            &&& t > 90_000_000 ==> c.take_profit_pct == 90_000_000
        }),
{
}

/// A step changes the win rate by one percent, or the take-profit by five, and never the
/// other knob, as long as both stay in their ranges.
pub proof fn law_knob_steps(s: UserSettings, selected: int, dir: int)
    requires
        50_000_000 <= s.target_win_pct <= 90_000_000,
        10_000_000 <= s.take_profit_pct <= 90_000_000,
    ensures
        ({
            let r = stepped(s, selected, dir);
            let (w, t) = (s.target_win_pct + dir * 1_000_000, s.take_profit_pct + dir * 5_000_000);
            &&& selected == 0 ==> r.take_profit_pct == s.take_profit_pct
            &&& selected != 0 ==> r.target_win_pct == s.target_win_pct
            &&& selected == 0 && 50_000_000 <= w <= 90_000_000 ==> r.target_win_pct == w
            &&& selected == 0 && w < 50_000_000 ==> r.target_win_pct == 50_000_000
            &&& selected == 0 && w > 90_000_000 ==> r.target_win_pct == 90_000_000
            &&& selected != 0 && 10_000_000 <= t <= 90_000_000 ==> r.take_profit_pct == t
            &&& selected != 0 && t < 10_000_000 ==> r.take_profit_pct == 10_000_000
            &&& selected != 0 && t > 90_000_000 ==> r.take_profit_pct == 90_000_000
        }),
{
}

/// The budget of a slot steps by 250 dollars, between 250 and a million; its profit target
/// by five percent, between 5 and 95.
pub proof fn law_slot_steps(risk: int, target: int, dir: int)
    ensures
        ({
            let (r, t) = (risk + dir * 250_000_000, target + dir * 50_000);
            &&& 250_000_000 <= r <= 1_000_000_000_000 ==> risk_stepped(risk, dir) == r
            &&& r < 250_000_000 ==> risk_stepped(risk, dir) == 250_000_000
            &&& r > 1_000_000_000_000 ==> risk_stepped(risk, dir) == 1_000_000_000_000
            &&& 50_000 <= t <= 950_000 ==> target_stepped(target, dir) == t
            &&& t < 50_000 ==> target_stepped(target, dir) == 50_000
            &&& t > 950_000 ==> target_stepped(target, dir) == 950_000
        }),
{
}

/// A stored edit reaches the strategy of its name: the first such entry gives its three
/// fields and leaves the others; a strategy without an entry stays as it is.
pub proof fn law_stored_edit(p: StructureParams, entries: Seq<SlotSettings>, i: int)
    requires
        0 <= i <= entries.len(),
        forall|j: int| 0 <= j < i ==> (#[trigger] entries[j]).name@ != p.name@,
        i < entries.len() ==> entries[i].name@ == p.name@,
    ensures
        ({
            let r = edited(p, entries);
            &&& i == entries.len() ==> r == p
            &&& i < entries.len() ==> r.automate == entries[i].automate && r.max_risk
                == entries[i].max_risk && r.profit_target_pct == entries[i].profit_target_pct
            &&& r.name == p.name
            &&& r.kind == p.kind
            &&& r.underlying == p.underlying
            &&& r.dte == p.dte
            &&& r.short_delta == p.short_delta
            &&& r.call_delta == p.call_delta
            &&& r.wing_points == p.wing_points
            &&& r.min_credit == p.min_credit
            &&& r.stop_loss_mult == p.stop_loss_mult
            &&& r.time_stop_hhmm == p.time_stop_hhmm
            &&& r.allow_naked == p.allow_naked
        }),
{
    crate::config::lemma_find_entry(entries, p.name@, i);
}

// --- typed text ------------------------------------------------------------

/// Whether a character is a digit or a capital letter.
pub open spec fn is_plain(c: char) -> bool {
    ('0' <= c && c <= '9') || ('A' <= c && c <= 'Z')
}

/// Digits and capitals are typed as they are and small letters as capitals; a point goes
/// into a symbol only; anything else is passed over.
pub proof fn law_typed(s: Seq<char>, c: char)
    ensures
        ({
            let small = 'a' <= c && c <= 'z';
            let (sym, phrase) = (InputView::AddSymbol(s), InputView::ConfirmLive(s));
            &&& is_plain(c) ==> typed(sym, c) == InputView::AddSymbol(s.push(c)) && typed(phrase, c)
                == InputView::ConfirmLive(s.push(c))
            &&& small ==> {
                let up = (c as int - 32) as char;
                &&& is_plain(up)
                &&& typed(sym, c) == InputView::AddSymbol(s.push(up))
                &&& typed(phrase, c) == InputView::ConfirmLive(s.push(up))
            }
            &&& c == '.' ==> typed(sym, c) == InputView::AddSymbol(s.push('.')) && typed(phrase, c)
                == phrase
            &&& !is_plain(c) && !small && c != '.' ==> typed(sym, c) == sym && typed(phrase, c)
                == phrase
        }),
{
}

/// Rubbing out takes back what was typed last.
pub proof fn law_rubbed(s: Seq<char>, c: char)
    ensures
        rubbed(InputView::AddSymbol(s.push(c))) == InputView::AddSymbol(s),
        rubbed(InputView::ConfirmLive(s.push(c))) == InputView::ConfirmLive(s),
        rubbed(InputView::AddSymbol(Seq::empty())) == InputView::AddSymbol(Seq::empty()),
        rubbed(InputView::ConfirmLive(Seq::empty())) == InputView::ConfirmLive(Seq::empty()),
{
    assert(s.push(c).drop_last() =~= s);
}

// --- actions ---------------------------------------------------------------

/// Whether the active tab lists `n` rows.
pub open spec fn lists(a: App, n: int) -> bool {
    &&& a.tab is Watchlist ==> n == a.watchlist@.len()
    &&& a.tab is Suggestions ==> n == a.suggestions@.len()
    &&& a.tab is HedgedWheel ==> n == a.hedged_suggestions@.len()
    &&& a.tab is ZeroDte ==> n == a.zerodte_suggestions@.len()
    &&& a.tab is Journal ==> n == a.journal@.len()
    &&& a.tab is Settings ==> n == 2
    &&& a.tab is Dashboard || a.tab is Help ==> n == 0
}

/// The cursor goes one row down or up, and around at the ends; nothing else changes.
pub proof fn law_cursor(a: App, n: int, down: App, up: App, e: Effect, f: Effect)
    requires
        lists(a, n),
        a.selected < n,
        dispatched(a, Action::Down, down, e),
        dispatched(a, Action::Up, up, f),
    ensures
        a.selected + 1 < n ==> down.selected == a.selected + 1,
        a.selected + 1 == n ==> down.selected == 0,
        a.selected > 0 ==> up.selected == a.selected - 1,
        a.selected == 0 ==> up.selected == n - 1,
        down == (App { selected: down.selected, ..a }),
        up == (App { selected: up.selected, ..a }),
        e is Nothing && f is Nothing,
{
    reveal(dispatched);
    assert(a.rows_shown() == n);
    assert(a.watchlist@.len() == a.watchlist.len());
    assert(a.suggestions@.len() == a.suggestions.len());
    assert(a.hedged_suggestions@.len() == a.hedged_suggestions.len());
    assert(a.zerodte_suggestions@.len() == a.zerodte_suggestions.len());
    assert(a.journal@.len() == a.journal.len());
    let k = a.selected as int;
    assert((k + 1) % n == if k + 1 == n {
        0
    } else {
        k + 1
    }) by (nonlinear_arith)
        requires
            0 <= k < n,
    ;
    assert((k - 1) % n == if k == 0 {
        n - 1
    } else {
        k - 1
    }) by {
        if k == 0 {
            vstd::arithmetic::div_mod::lemma_mod_add_multiples_vanish(-1, n);
            vstd::arithmetic::div_mod::lemma_small_mod((n - 1) as nat, n as nat);
        } else {
            vstd::arithmetic::div_mod::lemma_small_mod((k - 1) as nat, n as nat);
        }
    }
}

/// What is executed or previewed is the suggestion under the cursor in the list of the
/// active tab; on a tab without suggestions nothing is. The state stays as it is.
pub proof fn law_under_the_cursor(a: App, b: App, x: Effect, c: App, p: Effect)
    requires
        dispatched(a, Action::Execute, b, x),
        dispatched(a, Action::Preview, c, p),
    ensures
        b == a && c == a,
        ({
            let k = a.selected as int;
            &&& a.tab is Suggestions && k < a.suggestions@.len() ==> x is Execute && p is Preview
                && (x->Execute_0)@ == a.suggestions@[k]@ && (p->Preview_0)@ == a.suggestions@[k]@
            &&& a.tab is HedgedWheel && k < a.hedged_suggestions@.len() ==> x is Execute
                && p is Preview && (x->Execute_0)@ == a.hedged_suggestions@[k]@ && (
            p->Preview_0)@ == a.hedged_suggestions@[k]@
            &&& a.tab is ZeroDte && k < a.zerodte_suggestions@.len()
                && a.zerodte_suggestions@[k] is Some ==> x is Execute && p is Preview && (
            x->Execute_0)@ == (a.zerodte_suggestions@[k]->0)@ && (p->Preview_0)@ == (
            a.zerodte_suggestions@[k]->0)@
            &&& a.tab is Suggestions && k >= a.suggestions@.len() ==> x is Nothing && p is Nothing
            &&& a.tab is HedgedWheel && k >= a.hedged_suggestions@.len() ==> x is Nothing
                && p is Nothing
            &&& a.tab is ZeroDte && (k >= a.zerodte_suggestions@.len()
                || a.zerodte_suggestions@[k] is None) ==> x is Nothing && p is Nothing
            &&& !(a.tab is Suggestions || a.tab is HedgedWheel || a.tab is ZeroDte)
                ==> x is Nothing && p is Nothing
        }),
{
    reveal(dispatched);
}

/// Live trading is confirmed by the word LIVE, spaces around it aside, and by no other
/// text; a symbol is added as it was typed, spaces around it aside.
pub proof fn law_submitted(a: App, b: App, e: Effect)
    requires
        dispatched(a, Action::SubmitInput, b, e),
    ensures
        a.input@ is ConfirmLive ==> (b.live_confirmed <==> a.live_confirmed || trim_text(
            a.input@->ConfirmLive_0,
        ) == "LIVE"@),
        !(a.input@ is ConfirmLive) ==> b.live_confirmed == a.live_confirmed,
        a.input@ is AddSymbol && trim_text(a.input@->AddSymbol_0).len() > 0 ==> e is AddSymbol
            && e->AddSymbol_0 is Some && (e->AddSymbol_0->0)@ == trim_text(a.input@->AddSymbol_0),
        a.input@ is AddSymbol && trim_text(a.input@->AddSymbol_0).len() == 0 ==> e == (
        Effect::AddSymbol(None)),
        !(a.input@ is AddSymbol) ==> e is Nothing,
        b.armed == a.armed,
{
    reveal(dispatched);
}

/// The arm key turns arming round and changes nothing else but the status line.
pub proof fn law_arm(a: App, b: App, e: Effect)
    requires
        dispatched(a, Action::ToggleArm, b, e),
    ensures
        b.armed != a.armed,
        b == (App { armed: b.armed, status: b.status, ..a }),
        e is Nothing,
{
    reveal(dispatched);
}

/// A slot is set to trade unattended, or no longer, exactly where trading is allowed and
/// the structure is either not a naked one or allowed to be; only that field of that
/// strategy changes, and the roster is stored.
pub proof fn law_automate(a: App, b: App, e: Effect, k: int)
    requires
        dispatched(a, Action::ToggleAutomate, b, e),
        a.selected < a.cfg.zerodte.slots@.len(),
        k == a.cfg.zerodte.slots@[a.selected as int],
        k < a.cfg.zerodte.strategies@.len(),
    ensures
        ({
            let (p, q) = (a.cfg.zerodte.strategies@[k], b.cfg.zerodte.strategies@[k]);
            let may = !a.cfg.guardrails.read_only && (p.kind != StructureKind::ShortStrangle
                || p.allow_naked);
            &&& may ==> q.automate != p.automate && q == (StructureParams {
                automate: q.automate,
                ..p
            }) && e is SaveRoster
            &&& !may ==> b.cfg == a.cfg && e is Nothing
            &&& b.cfg.zerodte.strategies@.len() == a.cfg.zerodte.strategies@.len()
            &&& forall|i: int|
                0 <= i < a.cfg.zerodte.strategies@.len() && i != k
                    ==> #[trigger] b.cfg.zerodte.strategies@[i] == a.cfg.zerodte.strategies@[i]
        }),
{
    reveal(dispatched);
}

/// A step of a slot's budget or profit target changes that field of that strategy, and
/// nothing of the others.
pub proof fn law_slot_knobs(a: App, dir: i32, b: App, e: Effect, c: App, f: Effect, k: int)
    requires
        dispatched(a, Action::SlotRisk(dir), b, e),
        dispatched(a, Action::SlotProfit(dir), c, f),
        a.selected < a.cfg.zerodte.slots@.len(),
        k == a.cfg.zerodte.slots@[a.selected as int],
        k < a.cfg.zerodte.strategies@.len(),
    ensures
        ({
            let p = a.cfg.zerodte.strategies@[k];
            let (q, r) = (b.cfg.zerodte.strategies@[k], c.cfg.zerodte.strategies@[k]);
            &&& q == (StructureParams { max_risk: q.max_risk, ..p })
            &&& q.max_risk == risk_stepped(p.max_risk as int, dir as int)
            &&& r == (StructureParams { profit_target_pct: r.profit_target_pct, ..p })
            &&& r.profit_target_pct == target_stepped(p.profit_target_pct as int, dir as int)
            &&& forall|i: int|
                0 <= i < a.cfg.zerodte.strategies@.len() && i != k
                    ==> #[trigger] b.cfg.zerodte.strategies@[i] == a.cfg.zerodte.strategies@[i]
            &&& forall|i: int|
                0 <= i < a.cfg.zerodte.strategies@.len() && i != k
                    ==> #[trigger] c.cfg.zerodte.strategies@[i] == a.cfg.zerodte.strategies@[i]
            &&& e is SaveRoster && f is SaveRoster
        }),
{
    reveal(dispatched);
}

/// A step of a knob is laid over the engine at once, and is stored.
pub proof fn law_setting(a: App, dir: i32, b: App, e: Effect)
    requires
        dispatched(a, Action::SettingAdjust(dir), b, e),
    ensures
        b.settings == stepped(a.settings, a.selected as int, dir as int),
        b.cfg.engine == overlaid(b.settings, a.cfg.engine),
        b.cfg.guardrails == a.cfg.guardrails,
        b.cfg.connection == a.cfg.connection,
        b.cfg.zerodte == a.cfg.zerodte,
        e is SaveSettings,
{
    reveal(dispatched);
}

// --- keys ------------------------------------------------------------------

/// Whether keys stand for actions: nothing is typed, and no knob is edited or the detail
/// panel is open.
pub open spec fn keys_act(app: App) -> bool {
    &&& app.input@ is Normal
    &&& app.detail_open || !(app.tab is Settings && app.settings_editing)
}

/// Where keys stand for actions, `x` executes, `p` previews and `A` arms, and no other key
/// does; `q` and control-`c` quit wherever nothing is typed.
pub proof fn law_order_keys(app: App, key: Key)
    ensures
        key_action(app, key) == Some(Action::Execute) <==> keys_act(app) && key.code
            == KeyCode::Char('x'),
        key_action(app, key) == Some(Action::Preview) <==> keys_act(app) && key.code
            == KeyCode::Char('p'),
        key_action(app, key) == Some(Action::ToggleArm) <==> keys_act(app) && key.code
            == KeyCode::Char('A'),
        key_action(app, key) == Some(Action::Quit) <==> app.input@ is Normal && (key.code
            == KeyCode::Char('q') || (key.code == KeyCode::Char('c') && key.control)),
{
}

/// The keys of the lists and the tabs, where neither text nor a panel takes them.
pub proof fn law_browse_keys(app: App, key: Key)
    requires
        app.input@ is Normal,
        !app.detail_open,
        !(app.tab is Settings && app.settings_editing),
    ensures
        ({
            let r = key_action(app, key);
            let slots = app.tab is ZeroDte;
            &&& r == Some(Action::Down) <==> key.code == KeyCode::Down || key.code == KeyCode::Char(
                'j',
            )
            &&& r == Some(Action::Up) <==> key.code == KeyCode::Up || key.code == KeyCode::Char('k')
            &&& r == Some(Action::NextTab) <==> key.code == KeyCode::Tab || key.code
                == KeyCode::Right
            &&& r == Some(Action::PrevTab) <==> key.code == KeyCode::BackTab || key.code
                == KeyCode::Left
            &&& r == Some(Action::StartAddSymbol) <==> key.code == KeyCode::Char('a')
            &&& r == Some(Action::StartLiveConfirm) <==> key.code == KeyCode::Char('L')
            &&& r == Some(Action::DeleteSelected) <==> key.code == KeyCode::Char('d')
            &&& r == Some(Action::Refresh) <==> key.code == KeyCode::Char('r')
            &&& r == Some(Action::ToggleAutomate) <==> slots && key.code == KeyCode::Char('t')
            &&& r == Some(Action::SlotRisk(1)) <==> slots && (key.code == KeyCode::Char('+')
                || key.code == KeyCode::Char('='))
            &&& r == Some(Action::SlotRisk((-1) as i32)) <==> slots && (key.code == KeyCode::Char(
                '-',
            ) || key.code == KeyCode::Char('_'))
            &&& r == Some(Action::SlotProfit(1)) <==> slots && key.code == KeyCode::Char(']')
            &&& r == Some(Action::SlotProfit((-1) as i32)) <==> slots && key.code == KeyCode::Char(
                '[',
            )
            &&& r == Some(Action::OpenDetail) <==> key.code == KeyCode::Enter && (
            app.tab is Suggestions || app.tab is HedgedWheel || slots)
        }),
{
}

/// The keys of a knob that is edited: up and down step it, and it is left by Enter or Esc.
pub proof fn law_knob_keys(app: App, key: Key)
    requires
        app.input@ is Normal,
        !app.detail_open,
        app.tab is Settings,
        app.settings_editing,
    ensures
        ({
            let r = key_action(app, key);
            &&& r == Some(Action::SettingAdjust(1)) <==> key.code == KeyCode::Up || key.code
                == KeyCode::Char('k')
            &&& r == Some(Action::SettingAdjust((-1) as i32)) <==> key.code == KeyCode::Down
                || key.code == KeyCode::Char('j')
            &&& r == Some(Action::ToggleSettingEdit) <==> key.code == KeyCode::Enter || key.code
                == KeyCode::Esc
        }),
{
}

} // verus!

//! The tabs, the status line and the panels, in text.

use vstd::prelude::*;
use vstd::string::*;
use crate::config::win_delta;
use crate::engine::structures::assemble::StructureParams;
use crate::engine::structures::payoff::{
    breakevens, breakevens_of, estimate_pop, ints, legs_wf, pop_of,
};
use crate::engine::types::{
    opt_int, ActionKind, KindView, LegSide, StructureKind, StructureLeg, Suggestion, SuggestionView,
};
use crate::fixed::{
    dec_string, dec_text, int_string, int_text, max, min, push_dec, push_int, push_ratio,
    ratio_text, MAX_PRICE,
};
use crate::store::models::{JournalRow, WatchlistRow};
use crate::text::{chars_of, own, rows, split_chars, split_text, string_of, texts};
use crate::tui::app::{App, InputMode, Tab, LIVE_CONFIRM_PHRASE};
use crate::tui::lines::{
    left_aligned, line, lines, no_lines, plain, push_left, push_right, put_line, put_text,
    right_aligned, start_lines, LineStyle, LineView, TextLine,
};
use crate::tui::ui::{money, money_text};

verus! {

// --- tabs and status -------------------------------------------------------

impl App {
    /// The name of the trading mode.
    pub open spec fn spec_mode(self) -> Seq<char> {
        match self.cfg.connection.mode {
            crate::config::TradingMode::Paper => "paper"@,
            crate::config::TradingMode::Live => "live"@,
        }
    }

    /// How many stored positions are open.
    pub open spec fn spec_open_count(self) -> int {
        App::open_among(self.positions@, self.positions@.len() as int)
    }

    /// How many structures trade unattended.
    pub open spec fn spec_automating(self) -> int {
        App::automating(self.cfg.zerodte.strategies@, self.cfg.zerodte.strategies@.len() as int)
    }
}

/// The frames of the spinner.
pub open spec fn spin(i: int) -> Seq<char> {
    if i == 0 {
        "⠋"@
    } else if i == 1 {
        "⠙"@
    } else if i == 2 {
        "⠹"@
    } else if i == 3 {
        "⠸"@
    } else if i == 4 {
        "⠼"@
    } else if i == 5 {
        "⠴"@
    } else if i == 6 {
        "⠦"@
    } else if i == 7 {
        "⠧"@
    } else if i == 8 {
        "⠇"@
    } else {
        "⠏"@
    }
}

fn spinner(i: u64) -> (r: &'static str)
    ensures
        r@ == spin(i as int),
{
    if i == 0 {
        "⠋"
    } else if i == 1 {
        "⠙"
    } else if i == 2 {
        "⠹"
    } else if i == 3 {
        "⠸"
    } else if i == 4 {
        "⠼"
    } else if i == 5 {
        "⠴"
    } else if i == 6 {
        "⠦"
    } else if i == 7 {
        "⠧"
    } else if i == 8 {
        "⠇"
    } else {
        "⠏"
    }
}

/// The title over the tabs; `millis` is how long a reload has been running.
pub open spec fn title_text(app: App, millis: Option<u64>) -> Seq<char> {
    "TheWheel  ["@ + app.spec_mode() + "]  "@ + (if app.connected {
        "● live"@
    } else {
        "○ offline"@
    }) + (match millis {
        Some(ms) => "  "@ + spin((ms / 120) as int % 10) + " syncing "@ + int_text((ms / 1000) as int)
            + "s"@,
        None => ""@,
    }) + "  ·  "@ + int_text(app.spec_open_count()) + " open"@ + (if app.armed {
        "  ⚡ ARMED"@
    } else {
        ""@
    }) + (if app.spec_automating() == 0 {
        ""@
    } else {
        "  ⚡ "@ + int_text(app.spec_automating()) + " AUTO-TRADING"@
    })
}

/// Whether the border warns that an order may be transmitted: while armed, and
/// while a structure trades unattended.
pub open spec fn border_warns(app: App) -> bool {
    app.armed || app.spec_automating() > 0
}

/// The title over the tabs, and whether its border warns.
pub fn tabs_title(app: &App, millis: Option<u64>) -> (r: (String, bool))
    ensures
        r.0@ == title_text(*app, millis),
        r.1 == border_warns(*app),
{
    let sync = match millis {
        Some(ms) => {
            let mut t = String::from_str("  ");
            t.append(spinner(ms / 120 % 10));
            t.append(" syncing ");
            push_int(&mut t, (ms / 1000) as i128);
            t.append("s");
            t
        },
        None => own(""),
    };
    let n: usize = app.zerodte_automating();
    let auto = if n == 0 {
        own("")
    } else {
        let mut t = String::from_str("  ⚡ ");
        push_int(&mut t, n as i128);
        t.append(" AUTO-TRADING");
        t
    };
    let mut t = String::from_str("TheWheel  [");
    t.append(app.mode_label());
    t.append("]  ");
    t.append(
        if app.connected {
            "● live"
        } else {
            "○ offline"
        },
    );
    t.append(sync.as_str());
    t.append("  ·  ");
    push_int(&mut t, app.open_position_count() as i128);
    t.append(" open");
    t.append(
        if app.armed {
            "  ⚡ ARMED"
        } else {
            ""
        },
    );
    t.append(auto.as_str());
    (t, app.armed || n > 0)
}

/// The border warns whenever an order could leave: no armed or automated state
/// is shown without it.
pub proof fn law_danger_is_shown(app: App)
    ensures
        app.armed ==> border_warns(app),
        (exists|i: int|
            0 <= i < app.cfg.zerodte.strategies@.len() && (
            #[trigger] app.cfg.zerodte.strategies@[i]).automate) <==> app.spec_automating() > 0,
{
    lemma_automating(app.cfg.zerodte.strategies@, app.cfg.zerodte.strategies@.len() as int);
}

proof fn lemma_automating(list: Seq<StructureParams>, n: int)
    requires
        0 <= n <= list.len(),
    ensures
        App::automating(list, n) >= 0,
        (exists|i: int| 0 <= i < n && (#[trigger] list[i]).automate) <==> App::automating(list, n)
            > 0,
    decreases n,
{
    if n > 0 {
        lemma_automating(list, n - 1);
    }
}

/// The status line at the bottom.
pub open spec fn status_line(app: App) -> Seq<char> {
    match app.input {
        InputMode::AddSymbol(buf) => " add symbol: "@ + buf@ + "_ "@,
        InputMode::ConfirmLive(buf) => " confirm LIVE: "@ + buf@ + "_   (type "@
            + LIVE_CONFIRM_PHRASE@ + " then Enter, Esc cancels) "@,
        InputMode::Normal => " "@ + app.status@
            + "   ·   q quit · tab switch · j/k move · enter details · a add · d del · r refresh · ? help"@,
    }
}

/// The text of the status line.
pub fn status_text(app: &App) -> (r: String)
    ensures
        r@ == status_line(*app),
{
    match &app.input {
        InputMode::AddSymbol(buf) => {
            let mut t = String::from_str(" add symbol: ");
            t.append(buf.as_str());
            t.append("_ ");
            t
        },
        InputMode::ConfirmLive(buf) => {
            let mut t = String::from_str(" confirm LIVE: ");
            t.append(buf.as_str());
            t.append("_   (type ");
            t.append(LIVE_CONFIRM_PHRASE);
            t.append(" then Enter, Esc cancels) ");
            t
        },
        InputMode::Normal => {
            let mut t = String::from_str(" ");
            t.append(app.status.as_str());
            t.append(
                "   ·   q quit · tab switch · j/k move · enter details · a add · d del · r refresh · ? help",
            );
            t
        },
    }
}

// --- the overview ----------------------------------------------------------

/// The mode and the state of the connection.
pub open spec fn mode_pieces(app: App) -> Seq<LineView> {
    let l = no_lines();
    let l = l.push(line(LineStyle::Head, "Mode:        "@));
    let l = l.push(plain(app.spec_mode() + "   "@));
    let l = l.push(line(LineStyle::Head, "Connection:  "@));
    let l = if app.connected {
        let l = l.push(plain("live"@));
        l
    } else {
        let l = if app.cfg.connection.reconnect_secs > 0 {
            let l = l.push(
                plain(
                    "offline / demo — retrying every "@
                        + int_text(app.cfg.connection.reconnect_secs as int) + "s"@,
                ),
            );
            l
        } else {
            let l = l.push(plain("offline / demo data"@));
            l
        };
        l
    };
    l
}

fn mode_row(app: &App) -> (r: Vec<TextLine>)
    ensures
        lines(r@) == mode_pieces(*app),
{
    let mut pieces = start_lines();
    let out = &mut pieces;
    put_text(out, LineStyle::Head, "Mode:        ");
    let mut t = own(app.mode_label());
    t.append("   ");
    put_line(out, LineStyle::Plain, t);
    put_text(out, LineStyle::Head, "Connection:  ");
    if app.connected {
        put_text(out, LineStyle::Plain, "live");
    } else {
        if app.cfg.connection.reconnect_secs > 0 {
            let mut t = String::from_str("offline / demo — retrying every ");
            push_int(&mut t, app.cfg.connection.reconnect_secs as i128);
            t.append("s");
            put_line(out, LineStyle::Plain, t);
        } else {
            put_text(out, LineStyle::Plain, "offline / demo data");
        }
    }
    pieces
}

/// The balances of the account, or why there are none.
pub open spec fn account_pieces(app: App) -> Seq<LineView> {
    let l = no_lines();
    let l = l.push(line(LineStyle::Head, "Account:     "@));
    let l = match app.account {
        Some(a) => {
            let l = l.push(
                plain(
                    "net liq "@ + money_text(opt_int(a.net_liquidation)) + "   cash "@
                        + money_text(opt_int(a.total_cash)) + "   buying power "@
                        + money_text(opt_int(a.buying_power)),
                ),
            );
            l
        },
        None => {
            let l = if app.connected {
                let l = l.push(plain("—  (fetching…)"@));
                l
            } else {
                let l = match app.offline_reason {
                    Some(why) => {
                        let l = l.push(plain("—  ("@ + why@ + ")"@));
                        l
                    },
                    None => {
                        let l = l.push(
                            plain(
                                "—  (offline; start IB Gateway/TWS and set [connection] in config.toml)"@,
                            ),
                        );
                        l
                    },
                };
                l
            };
            l
        },
    };
    l
}

fn account_row(app: &App) -> (r: Vec<TextLine>)
    ensures
        lines(r@) == account_pieces(*app),
{
    let mut pieces = start_lines();
    let out = &mut pieces;
    put_text(out, LineStyle::Head, "Account:     ");
    if let Some(a) = &app.account {
        let mut t = String::from_str("net liq ");
        t.append(money(a.net_liquidation).as_str());
        t.append("   cash ");
        t.append(money(a.total_cash).as_str());
        t.append("   buying power ");
        t.append(money(a.buying_power).as_str());
        put_line(out, LineStyle::Plain, t);
    } else {
        if app.connected {
            put_text(out, LineStyle::Plain, "—  (fetching…)");
        } else {
            if let Some(why) = &app.offline_reason {
                let mut t = String::from_str("—  (");
                t.append(why.as_str());
                t.append(")");
                put_line(out, LineStyle::Plain, t);
            } else {
                put_text(
                    out,
                    LineStyle::Plain,
                    "—  (offline; start IB Gateway/TWS and set [connection] in config.toml)",
                );
            }
        }
    }
    pieces
}

/// Whether executing transmits.
pub open spec fn armed_pieces(app: App) -> Seq<LineView> {
    let l = no_lines();
    let l = l.push(line(LineStyle::Head, "Armed:       "@));
    let l = if app.armed {
        let l = l.push(line(LineStyle::Alarm, "ARMED — `x` transmits a live order"@));
        l
    } else {
        let l = l.push(line(LineStyle::Dim, "disarmed (`A` to arm)"@));
        l
    };
    l
}

fn armed_row(app: &App) -> (r: Vec<TextLine>)
    ensures
        lines(r@) == armed_pieces(*app),
{
    let mut pieces = start_lines();
    let out = &mut pieces;
    put_text(out, LineStyle::Head, "Armed:       ");
    if app.armed {
        put_text(out, LineStyle::Alarm, "ARMED — `x` transmits a live order");
    } else {
        put_text(out, LineStyle::Dim, "disarmed (`A` to arm)");
    }
    pieces
}

/// How many symbols are watched.
pub open spec fn watch_pieces(app: App) -> Seq<LineView> {
    let l = no_lines();
    let l = l.push(line(LineStyle::Head, "Watchlist:   "@));
    let l = l.push(plain(int_text(app.watchlist@.len() as int) + " symbols"@));
    l
}

fn watch_row(app: &App) -> (r: Vec<TextLine>)
    ensures
        lines(r@) == watch_pieces(*app),
{
    let mut pieces = start_lines();
    let out = &mut pieces;
    put_text(out, LineStyle::Head, "Watchlist:   ");
    let mut t = int_string(app.watchlist.len() as i128);
    t.append(" symbols");
    put_line(out, LineStyle::Plain, t);
    pieces
}

/// How many suggestions there are.
pub open spec fn ready_pieces(app: App) -> Seq<LineView> {
    let l = no_lines();
    let l = l.push(line(LineStyle::Head, "Suggestions: "@));
    let l = l.push(plain(int_text(app.suggestions@.len() as int) + " ready"@));
    l
}

fn ready_row(app: &App) -> (r: Vec<TextLine>)
    ensures
        lines(r@) == ready_pieces(*app),
{
    let mut pieces = start_lines();
    let out = &mut pieces;
    put_text(out, LineStyle::Head, "Suggestions: ");
    let mut t = int_string(app.suggestions.len() as i128);
    t.append(" ready");
    put_line(out, LineStyle::Plain, t);
    pieces
}

/// How many positions are open, and how many are known.
pub open spec fn held_pieces(app: App) -> Seq<LineView> {
    let l = no_lines();
    let l = l.push(line(LineStyle::Head, "Positions:   "@));
    let l = l.push(
        plain(
            int_text(app.spec_open_count()) + " open / "@
                + int_text(app.positions@.len() as int) + " tracked"@,
        ),
    );
    l
}

fn held_row(app: &App) -> (r: Vec<TextLine>)
    ensures
        lines(r@) == held_pieces(*app),
{
    let mut pieces = start_lines();
    let out = &mut pieces;
    put_text(out, LineStyle::Head, "Positions:   ");
    let mut t = int_string(app.open_position_count() as i128);
    t.append(" open / ");
    push_int(&mut t, app.positions.len() as i128);
    t.append(" tracked");
    put_line(out, LineStyle::Plain, t);
    pieces
}

/// The state of a reload, or a hint.
pub open spec fn sync_pieces(elapsed: Option<u64>) -> Seq<LineView> {
    let l = no_lines();
    let l = match elapsed {
        Some(secs) => {
            let l = l.push(
                line(
                    LineStyle::Head,
                    "⟳ Syncing live data from IB Gateway… "@ + int_text(secs as int)
                        + "s   (first sync is slow on delayed data)"@,
                ),
            );
            l
        },
        None => {
            let l = l.push(
                line(
                    LineStyle::Dim,
                    "Add symbols on the Watchlist tab; the Suggestions tab ranks cash-secured puts."@,
                ),
            );
            l
        },
    };
    l
}

fn sync_row(elapsed: Option<u64>) -> (r: Vec<TextLine>)
    ensures
        lines(r@) == sync_pieces(elapsed),
{
    let mut pieces = start_lines();
    let out = &mut pieces;
    if let Some(secs) = elapsed {
        let mut t = String::from_str("⟳ Syncing live data from IB Gateway… ");
        push_int(&mut t, secs as i128);
        t.append("s   (first sync is slow on delayed data)");
        put_line(out, LineStyle::Head, t);
    } else {
        put_text(
            out,
            LineStyle::Dim,
            "Add symbols on the Watchlist tab; the Suggestions tab ranks cash-secured puts.",
        );
    }
    pieces
}

/// The credit and the risk of a structure.
pub open spec fn money_pieces(s: SuggestionView) -> Seq<LineView> {
    let l = no_lines();
    let l = l.push(line(LineStyle::Head, "credit "@));
    let l = l.push(line(LineStyle::Good, "$"@ + dec_text(s.premium_total, 0)));
    let l = l.push(plain("   "@));
    let l = l.push(line(LineStyle::Head, "max loss "@));
    let l = l.push(line(LineStyle::Bad, "$"@ + dec_text(s.capital_required, 0)));
    let l = l.push(line(LineStyle::Dim, "   ×"@ + int_text(s.quantity)));
    l
}

fn money_row(s: &Suggestion) -> (r: Vec<TextLine>)
    requires
        s@.wf(),
    ensures
        lines(r@) == money_pieces(s@),
{
    let mut pieces = start_lines();
    let out = &mut pieces;
    put_text(out, LineStyle::Head, "credit ");
    let mut t = String::from_str("$");
    push_dec(&mut t, s.premium_total, 0);
    put_line(out, LineStyle::Good, t);
    put_text(out, LineStyle::Plain, "   ");
    put_text(out, LineStyle::Head, "max loss ");
    let mut t = String::from_str("$");
    push_dec(&mut t, s.capital_required, 0);
    put_line(out, LineStyle::Bad, t);
    let mut t = String::from_str("   ×");
    push_int(&mut t, s.quantity as i128);
    put_line(out, LineStyle::Dim, t);
    pieces
}

// --- lists of lines, each in pieces ----------------------------------------

/// What a list of lines shows, each made of pieces.
pub open spec fn piece_rows(v: Seq<Vec<TextLine>>) -> Seq<Seq<LineView>> {
    v.map_values(|l: Vec<TextLine>| lines(l@))
}

fn put_row(out: &mut Vec<Vec<TextLine>>, row: Vec<TextLine>)
    ensures
        piece_rows(final(out)@) == piece_rows(old(out)@).push(lines(row@)),
{
    out.push(row);
    assert(piece_rows(out@) =~= piece_rows(old(out)@).push(lines(row@)));
}

/// A line of one piece.
pub open spec fn single(style: LineStyle, text: Seq<char>) -> Seq<LineView> {
    no_lines().push(line(style, text))
}

fn single_row(style: LineStyle, text: String) -> (r: Vec<TextLine>)
    ensures
        lines(r@) == single(style, text@),
{
    let mut v = start_lines();
    put_line(&mut v, style, text);
    v
}

/// The overview.
pub open spec fn overview(app: App, elapsed: Option<u64>) -> Seq<Seq<LineView>> {
    Seq::<Seq<LineView>>::empty().push(mode_pieces(app)).push(account_pieces(app)).push(
        armed_pieces(app),
    ).push(single(LineStyle::Plain, ""@)).push(watch_pieces(app)).push(ready_pieces(app)).push(
        held_pieces(app),
    ).push(single(LineStyle::Plain, ""@)).push(sync_pieces(elapsed))
}

/// The lines of the overview; `elapsed` is for how many seconds a reload has been
/// running.
pub fn dashboard_lines(app: &App, elapsed: Option<u64>) -> (r: Vec<Vec<TextLine>>)
    ensures
        piece_rows(r@) == overview(*app, elapsed),
{
    let mut out: Vec<Vec<TextLine>> = Vec::new();
    assert(piece_rows(out@) =~= Seq::<Seq<LineView>>::empty());
    put_row(&mut out, mode_row(app));
    put_row(&mut out, account_row(app));
    put_row(&mut out, armed_row(app));
    put_row(&mut out, single_row(LineStyle::Plain, own("")));
    put_row(&mut out, watch_row(app));
    put_row(&mut out, ready_row(app));
    put_row(&mut out, held_row(app));
    put_row(&mut out, single_row(LineStyle::Plain, own("")));
    put_row(&mut out, sync_row(elapsed));
    out
}

// --- lists -----------------------------------------------------------------

/// An optional text, or nothing.
pub open spec fn or_blank(t: Option<String>) -> Seq<char> {
    match t {
        Some(x) => x@,
        None => ""@,
    }
}

/// The cells of a watched symbol.
pub open spec fn watch_cells(r: WatchlistRow) -> Seq<Seq<char>> {
    seq![
        r.symbol@,
        r.sec_type@,
        (if r.on() {
            "yes"@
        } else {
            "no"@
        }),
        r.tradable_name(),
        (match r.conid {
            Some(c) => int_text(c as int),
            None => ""@,
        }),
        or_blank(r.notes),
    ]
}

/// The cells of a watched symbol: symbol, type, on, tradable, contract, notes.
pub fn watchlist_cells(row: &WatchlistRow) -> (r: Vec<String>)
    ensures
        texts(r@) == watch_cells(*row),
{
    let mut out: Vec<String> = Vec::new();
    out.push(own(row.symbol.as_str()));
    out.push(own(row.sec_type.as_str()));
    out.push(
        own(
            if row.is_enabled() {
                "yes"
            } else {
                "no"
            },
        ),
    );
    out.push(own(row.tradable_label()));
    out.push(
        match row.conid {
            Some(c) => int_string(c as i128),
            None => own(""),
        },
    );
    out.push(
        match &row.notes {
            Some(t) => own(t.as_str()),
            None => own(""),
        },
    );
    assert(texts(out@) =~= watch_cells(*row));
    out
}

/// The title of the watchlist with `n` symbols.
pub open spec fn watch_title(n: int) -> Seq<char> {
    if n == 0 {
        " Watchlist — empty; press 'a' to add a symbol "@
    } else {
        " Watchlist ("@ + int_text(n) + ") "@
    }
}

/// The title of the watchlist.
pub fn watchlist_title(n: usize) -> (r: String)
    ensures
        r@ == watch_title(n as int),
{
    if n == 0 {
        own(" Watchlist — empty; press 'a' to add a symbol ")
    } else {
        let mut t = String::from_str(" Watchlist (");
        push_int(&mut t, n as i128);
        t.append(") ");
        t
    }
}

/// The title of a list of `n` suggestions.
pub open spec fn list_title(tab: Tab, n: int, noun: Seq<char>, elapsed: Option<u64>) -> Seq<char> {
    if n > 0 {
        " "@ + tab.spec_title() + " ("@ + int_text(n) + ") — "@ + noun + ", best yield first "@
    } else {
        match elapsed {
            Some(secs) => " "@ + tab.spec_title() + " — ⟳ syncing live data… "@ + int_text(
                secs as int,
            ) + "s "@,
            None => " "@ + tab.spec_title()
                + " — none yet (press 'r' to refresh, or add tickers) "@,
        }
    }
}

/// The title of a list of suggestions.
pub fn suggestion_title(tab: Tab, n: usize, noun: &str, elapsed: Option<u64>) -> (r: String)
    ensures
        r@ == list_title(tab, n as int, noun@, elapsed),
{
    let mut t = String::from_str(" ");
    t.append(tab.title());
    if n > 0 {
        t.append(" (");
        push_int(&mut t, n as i128);
        t.append(") — ");
        t.append(noun);
        t.append(", best yield first ");
    } else if let Some(secs) = elapsed {
        t.append(" — ⟳ syncing live data… ");
        push_int(&mut t, secs as i128);
        t.append("s ");
    } else {
        t.append(" — none yet (press 'r' to refresh, or add tickers) ");
    }
    t
}

/// The first eight characters of the part of a time stamp behind its first `T`,
/// or of the whole where it has none.
pub open spec fn time_of(ts: Seq<char>) -> Seq<char> {
    let parts = split_text(ts, 'T');
    let t = if parts.len() > 1 {
        parts[1]
    } else {
        ts
    };
    t.take(min(8, t.len() as int))
}

fn time_text(ts: &str) -> (r: String)
    ensures
        r@ == time_of(ts@),
{
    let v = chars_of(ts);
    let parts = split_chars(&v, 'T');
    let t = if parts.len() > 1 {
        assert(rows(parts@)[1] == parts@[1]@);
        &parts[1]
    } else {
        &v
    };
    let n: usize = if t.len() < 8 {
        t.len()
    } else {
        8
    };
    let s = string_of(t, 0, n);
    assert(s@ =~= time_of(ts@));
    s
}

/// The cells of a journal entry.
pub open spec fn entry_cells(j: JournalRow) -> Seq<Seq<char>> {
    seq![
        time_of(j.ts@),
        j.symbol@,
        j.action@,
        (match j.strike {
            Some(k) => dec_text(k as int, 1),
            None => ""@,
        }),
        int_text(j.quantity as int),
        j.status@,
    ]
}

/// The cells of a journal entry: time, symbol, action, strike, quantity, status.
pub fn journal_cells(j: &JournalRow) -> (r: Vec<String>)
    ensures
        texts(r@) == entry_cells(*j),
{
    let mut out: Vec<String> = Vec::new();
    out.push(time_text(j.ts.as_str()));
    out.push(own(j.symbol.as_str()));
    out.push(own(j.action.as_str()));
    out.push(
        match j.strike {
            Some(k) => dec_string(k as i128, 1),
            None => own(""),
        },
    );
    out.push(int_string(j.quantity as i128));
    out.push(own(j.status.as_str()));
    assert(texts(out@) =~= entry_cells(*j));
    out
}

// --- quadrants -------------------------------------------------------------

/// The band of breakevens.
pub open spec fn band_of(b: Seq<int>) -> Seq<char> {
    if b.len() >= 2 {
        dec_text(b[0], 0) + "–"@ + dec_text(b[b.len() - 1], 0)
    } else if b.len() == 1 {
        dec_text(b[0], 0)
    } else {
        "—"@
    }
}

fn band_text(b: &Vec<i64>) -> (r: String)
    requires
        forall|i: int|
            0 <= i < b@.len() ==> -2 * MAX_PRICE <= #[trigger] b@[i] <= 3 * MAX_PRICE,
    ensures
        r@ == band_of(ints(b@)),
{
    if b.len() >= 2 {
        let mut t = dec_string(b[0] as i128, 0);
        t.append("–");
        push_dec(&mut t, b[b.len() - 1] as i128, 0);
        t
    } else if b.len() == 1 {
        dec_string(b[0] as i128, 0)
    } else {
        own("—")
    }
}

/// The estimated chance to win, where the structure has one.
pub open spec fn pop_part(kind: StructureKind, legs: Seq<StructureLeg>) -> Seq<char> {
    match pop_of(legs) {
        Some(p) if kind.has_pop() => "  ·  est win ~"@ + ratio_text(p, 10_000, 0) + "%"@,
        _ => ""@,
    }
}

fn pop_text(kind: StructureKind, legs: &Vec<StructureLeg>) -> (r: String)
    requires
        legs_wf(legs@),
    ensures
        r@ == pop_part(kind, legs@),
{
    if kind.pop_is_meaningful() {
        if let Some(p) = estimate_pop(legs.as_slice()) {
            let mut t = String::from_str("  ·  est win ~");
            push_ratio(&mut t, p as i128, 10_000, 0);
            t.append("%");
            return t;
        }
    }
    own("")
}

/// The line of a leg in a quadrant.
pub open spec fn quad_leg(l: StructureLeg) -> Seq<LineView> {
    single(
        match l.side {
            LegSide::Sell => LineStyle::Short,
            LegSide::Buy => LineStyle::Dim,
        },
        "  "@ + (match l.side {
            LegSide::Sell => "sell"@,
            LegSide::Buy => "buy "@,
        }) + " "@ + dec_text(l.strike as int, 0) + l.right.spec_code() + " @ "@ + dec_text(
            l.price as int,
            2,
        ),
    )
}

/// The rows `l`, and behind them the first `n` legs.
pub open spec fn quad_legs(l: Seq<Seq<LineView>>, legs: Seq<StructureLeg>, n: int) -> Seq<
    Seq<LineView>,
>
    decreases n,
{
    if n <= 0 {
        l
    } else {
        quad_legs(l, legs, n - 1).push(quad_leg(legs[n - 1]))
    }
}

fn put_quad_legs(out: &mut Vec<Vec<TextLine>>, legs: &Vec<StructureLeg>)
    requires
        legs_wf(legs@),
    ensures
        piece_rows(final(out)@) == quad_legs(piece_rows(old(out)@), legs@, legs@.len() as int),
{
    let mut i: usize = 0;
    while i < legs.len()
        invariant
            legs_wf(legs@),
            i <= legs@.len(),
            piece_rows(out@) == quad_legs(piece_rows(old(out)@), legs@, i as int),
        decreases legs@.len() - i,
    {
        let l = legs[i];
        assert(l.wf());
        let mut t = String::from_str("  ");
        t.append(
            match l.side {
                LegSide::Sell => "sell",
                LegSide::Buy => "buy ",
            },
        );
        t.append(" ");
        push_dec(&mut t, l.strike as i128, 0);
        t.append(l.right.code());
        t.append(" @ ");
        push_dec(&mut t, l.price as i128, 2);
        put_row(
            out,
            single_row(
                match l.side {
                    LegSide::Sell => LineStyle::Short,
                    LegSide::Buy => LineStyle::Dim,
                },
                t,
            ),
        );
        i = i + 1;
    }
}

/// What a quadrant shows of its structure.
pub open spec fn quad_structure(s: SuggestionView) -> Seq<Seq<LineView>> {
    let l = Seq::<Seq<LineView>>::empty().push(money_pieces(s));
    match s.kind {
        KindView::OpenStructure { kind, legs } => quad_legs(
            l.push(
                single(
                    LineStyle::Dim,
                    "breakeven "@ + band_of(breakevens_of(legs)) + "  ·  ror "@ + ratio_text(
                        s.annualized_yield,
                        10_000_000,
                        0,
                    ) + "%"@ + pop_part(kind, legs),
                ),
            ).push(single(LineStyle::Plain, ""@)),
            legs,
            legs.len() as int,
        ),
        _ => l,
    }
}

/// What a quadrant shows: its structure and, where it has the focus, the keys; or
/// that a reload runs, or that nothing fits.
pub open spec fn quadrant(s: Option<SuggestionView>, focused: bool, elapsed: Option<u64>) -> Seq<
    Seq<LineView>,
> {
    match s {
        Some(v) => if focused {
            quad_structure(v).push(single(LineStyle::Plain, ""@)).push(
                single(
                    LineStyle::Dim,
                    "[enter] details · [p] preview · [A] arm · [x] execute"@,
                ),
            ).push(
                single(LineStyle::Dim, "[t] automate · [+/−] risk · [ [ / ] ] profit target"@),
            )
        } else {
            quad_structure(v)
        },
        None => {
            let l = Seq::<Seq<LineView>>::empty();
            match elapsed {
                Some(secs) => l.push(
                    single(LineStyle::Warn, "⟳ syncing… "@ + int_text(secs as int) + "s"@),
                ),
                None => l.push(single(LineStyle::Dim, "no structure fits right now"@)).push(
                    single(
                        LineStyle::Dim,
                        "(tune delta / credit / max_risk, or 'r' to refresh)"@,
                    ),
                ),
            }
        },
    }
}

/// The lines of a quadrant.
pub fn quadrant_lines(s: Option<&Suggestion>, focused: bool, elapsed: Option<u64>) -> (r: Vec<
    Vec<TextLine>,
>)
    requires
        s is Some ==> s->0@.wf(),
    ensures
        piece_rows(r@) == quadrant(
            (match s {
                Some(v) => Some(v@),
                None => None,
            }),
            focused,
            elapsed,
        ),
{
    let mut out: Vec<Vec<TextLine>> = Vec::new();
    assert(piece_rows(out@) =~= Seq::<Seq<LineView>>::empty());
    match s {
        Some(v) => {
            put_row(&mut out, money_row(v));
            if let ActionKind::OpenStructure { kind, legs } = &v.kind {
                let mut t = String::from_str("breakeven ");
                t.append(band_text(&breakevens(legs.as_slice())).as_str());
                t.append("  ·  ror ");
                push_ratio(&mut t, v.annualized_yield, 10_000_000, 0);
                t.append("%");
                t.append(pop_text(*kind, legs).as_str());
                put_row(&mut out, single_row(LineStyle::Dim, t));
                put_row(&mut out, single_row(LineStyle::Plain, own("")));
                put_quad_legs(&mut out, legs);
            }
            if focused {
                put_row(&mut out, single_row(LineStyle::Plain, own("")));
                put_row(
                    &mut out,
                    single_row(
                        LineStyle::Dim,
                        own("[enter] details · [p] preview · [A] arm · [x] execute"),
                    ),
                );
                put_row(
                    &mut out,
                    single_row(
                        LineStyle::Dim,
                        own("[t] automate · [+/−] risk · [ [ / ] ] profit target"),
                    ),
                );
            }
        },
        None => {
            if let Some(secs) = elapsed {
                let mut t = String::from_str("⟳ syncing… ");
                push_int(&mut t, secs as i128);
                t.append("s");
                put_row(&mut out, single_row(LineStyle::Warn, t));
            } else {
                put_row(&mut out, single_row(LineStyle::Dim, own("no structure fits right now")));
                put_row(
                    &mut out,
                    single_row(
                        LineStyle::Dim,
                        own("(tune delta / credit / max_risk, or 'r' to refresh)"),
                    ),
                );
            }
        },
    }
    out
}

/// The title of quadrant `i`, and the badge that says whether it trades
/// unattended.
pub open spec fn quad_title(p: Option<StructureParams>, i: int, focused: bool) -> Seq<LineView> {
    match p {
        Some(p) => no_lines().push(
            line(
                if focused {
                    LineStyle::Head
                } else {
                    LineStyle::Plain
                },
                " "@ + p.name@ + " · "@ + p.underlying@ + " "@ + int_text(p.dte as int) + "DTE "@,
            ),
        ).push(
            if p.automate {
                line(LineStyle::Alarm, " ⚡AUTO "@)
            } else {
                line(LineStyle::Dim, " manual "@)
            },
        ),
        None => no_lines().push(plain(" slot "@ + int_text(i + 1) + " — empty "@)),
    }
}

/// The title of quadrant `i`.
pub fn quadrant_title(app: &App, i: usize) -> (r: Vec<TextLine>)
    requires
        i < 4,
    ensures
        lines(r@) == quad_title(
            (match app.cfg.zerodte.slot_index(i as int) {
                Some(k) => Some(app.cfg.zerodte.strategies@[k]),
                None => None,
            }),
            i as int,
            app.tab == Tab::ZeroDte && app.selected == i,
        ),
{
    let focused = app.tab == Tab::ZeroDte && app.selected == i;
    let mut out = start_lines();
    match app.cfg.zerodte.slot(i) {
        Some(p) => {
            let mut t = String::from_str(" ");
            t.append(p.name.as_str());
            t.append(" · ");
            t.append(p.underlying.as_str());
            t.append(" ");
            push_int(&mut t, p.dte as i128);
            t.append("DTE ");
            put_line(
                &mut out,
                if focused {
                    LineStyle::Head
                } else {
                    LineStyle::Plain
                },
                t,
            );
            if p.automate {
                put_text(&mut out, LineStyle::Alarm, " ⚡AUTO ");
            } else {
                put_text(&mut out, LineStyle::Dim, " manual ");
            }
        },
        None => {
            let mut t = String::from_str(" slot ");
            push_int(&mut t, i as i128 + 1);
            t.append(" — empty ");
            put_line(&mut out, LineStyle::Plain, t);
        },
    }
    out
}

// --- settings --------------------------------------------------------------

/// The line of a knob: marked where it is active, its value with a cue while it
/// is being edited.
pub open spec fn knob_pieces(
    active: bool,
    editing: bool,
    label: Seq<char>,
    value: Seq<char>,
    detail: Seq<char>,
) -> Seq<LineView> {
    let style = if active {
        LineStyle::Thesis
    } else {
        LineStyle::Plain
    };
    no_lines().push(
        line(
            style,
            (if active {
                "▶ "@
            } else {
                "  "@
            }) + left_aligned(label, 17),
        ),
    ).push(
        if active && editing {
            line(LineStyle::Picked, " "@ + value + " ↕ "@)
        } else {
            line(style, right_aligned(value, 5))
        },
    ).push(line(LineStyle::Dim, "    "@ + detail))
}

fn knob_row(active: bool, editing: bool, label: &str, value: &str, detail: &str) -> (r: Vec<
    TextLine,
>)
    ensures
        lines(r@) == knob_pieces(active, editing, label@, value@, detail@),
{
    let style = if active {
        LineStyle::Thesis
    } else {
        LineStyle::Plain
    };
    let mut out = start_lines();
    let mut t = own(
        if active {
            "▶ "
        } else {
            "  "
        },
    );
    push_left(&mut t, label, 17);
    put_line(&mut out, style, t);
    if active && editing {
        let mut t = String::from_str(" ");
        t.append(value);
        t.append(" ↕ ");
        put_line(&mut out, LineStyle::Picked, t);
    } else {
        let mut t = String::new();
        push_right(&mut t, value, 5);
        assert(t@ =~= right_aligned(value@, 5));
        put_line(&mut out, style, t);
    }
    let mut t = String::from_str("    ");
    t.append(detail);
    put_line(&mut out, LineStyle::Dim, t);
    out
}

/// What the win-rate knob stands for: the target delta and its band.
pub open spec fn band_detail(target: int) -> Seq<char> {
    "sell ≈ "@ + dec_text(target, 2) + "Δ puts  (band "@ + dec_text(max(target - 100_000, 50_000), 2)
        + "–"@ + dec_text(min(target + 100_000, 950_000), 2) + "Δ)"@
}

/// The settings tab.
pub open spec fn settings_of(app: App) -> Seq<Seq<LineView>> {
    let on = app.tab == Tab::Settings;
    Seq::<Seq<LineView>>::empty().push(
        single(
            LineStyle::Dim,
            if app.settings_editing {
                "Editing — ↑/↓ (or k/j) change the value · Enter or Esc when done."@
            } else {
                "j/k pick a row · Enter to edit · ←/→ or Tab switch tabs · auto-saved."@
            },
        ),
    ).push(single(LineStyle::Plain, ""@)).push(
        knob_pieces(
            on && app.selected == 0,
            app.settings_editing,
            "Target win rate"@,
            dec_text(app.settings.target_win_pct as int, 0) + "%"@,
            band_detail(win_delta(app.settings.target_win_pct as int)),
        ),
    ).push(
        knob_pieces(
            on && app.selected == 1,
            app.settings_editing,
            "Take-profit"@,
            dec_text(app.settings.take_profit_pct as int, 0) + "%"@,
            "buy back once this much of the credit is captured"@,
        ),
    ).push(single(LineStyle::Plain, ""@)).push(
        single(
            LineStyle::Dim,
            "Higher win rate → further OTM → smaller credit, but wins more often."@,
        ),
    ).push(
        single(
            LineStyle::Dim,
            "Take-profit closes early to bank the gain and free capital before expiry."@,
        ),
    ).push(single(LineStyle::Plain, ""@)).push(
        single(
            LineStyle::Dim,
            "These override [engine] in config.toml and persist across restarts."@,
        ),
    )
}

/// The lines of the settings tab: the two knobs, the selected one marked.
pub fn settings_lines(app: &App) -> (r: Vec<Vec<TextLine>>)
    ensures
        piece_rows(r@) == settings_of(*app),
{
    let on = app.tab == Tab::Settings;
    let mut out: Vec<Vec<TextLine>> = Vec::new();
    assert(piece_rows(out@) =~= Seq::<Seq<LineView>>::empty());
    put_row(
        &mut out,
        single_row(
            LineStyle::Dim,
            own(
                if app.settings_editing {
                    "Editing — ↑/↓ (or k/j) change the value · Enter or Esc when done."
                } else {
                    "j/k pick a row · Enter to edit · ←/→ or Tab switch tabs · auto-saved."
                },
            ),
        ),
    );
    put_row(&mut out, single_row(LineStyle::Plain, own("")));
    let mut win = dec_string(app.settings.target_win_pct as i128, 0);
    win.append("%");
    let target: i64 = app.settings.target_delta();
    let lo: i64 = if target - 100_000 >= 50_000 {
        target - 100_000
    } else {
        50_000
    };
    let hi: i64 = if target + 100_000 <= 950_000 {
        target + 100_000
    } else {
        950_000
    };
    let mut detail = String::from_str("sell ≈ ");
    push_dec(&mut detail, target as i128, 2);
    detail.append("Δ puts  (band ");
    push_dec(&mut detail, lo as i128, 2);
    detail.append("–");
    push_dec(&mut detail, hi as i128, 2);
    detail.append("Δ)");
    put_row(
        &mut out,
        knob_row(
            on && app.selected == 0,
            app.settings_editing,
            "Target win rate",
            win.as_str(),
            detail.as_str(),
        ),
    );
    let mut take = dec_string(app.settings.take_profit_pct as i128, 0);
    take.append("%");
    put_row(
        &mut out,
        knob_row(
            on && app.selected == 1,
            app.settings_editing,
            "Take-profit",
            take.as_str(),
            "buy back once this much of the credit is captured",
        ),
    );
    put_row(&mut out, single_row(LineStyle::Plain, own("")));
    put_row(
        &mut out,
        single_row(
            LineStyle::Dim,
            own("Higher win rate → further OTM → smaller credit, but wins more often."),
        ),
    );
    put_row(
        &mut out,
        single_row(
            LineStyle::Dim,
            own("Take-profit closes early to bank the gain and free capital before expiry."),
        ),
    );
    put_row(&mut out, single_row(LineStyle::Plain, own("")));
    put_row(
        &mut out,
        single_row(
            LineStyle::Dim,
            own("These override [engine] in config.toml and persist across restarts."),
        ),
    );
    out
}

} // verus!

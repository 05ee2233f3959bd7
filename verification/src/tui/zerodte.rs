//! Unattended trading of short-dated structures: entries on schedule, stops, the
//! standing profit-close, and reconciliation after a restart.

use vstd::prelude::*;
use vstd::string::*;
use crate::dates::{
    clock_of_text, code_text, expiry_code, is_day, parse_instant, ClockTime, MIN_DAY,
};
use crate::engine::structures::assemble::StructureParams;
use crate::engine::types::{ActionKind, StructureKind, Suggestion, SuggestionView};
use crate::fixed::{
    dec_text, floor_div, floor_of, int_text, max, push_dec, push_int, push_ratio, ratio_text,
    MAX_PRICE, SCALE,
};
use crate::ibkr::{OpenOrderInfo, OrderOutcome, PositionRow};
use crate::store::journal_status;
use crate::store::models::{blank_entry, EntryView, NewJournalEntry, ZeroDtePositionRow};
use crate::store::zerodte_status;
use crate::text::{opt_text, own, same_text};
use crate::tui::app::{App, LIVE_CONFIRM_PHRASE};
use crate::tui::legs::{
    closing_legs, combo_legs_from, combo_of, decode_legs, encode_legs, is_held, legs_of_text, legs_text, reverse_legs,
    structure_held, ComboLeg, ComboOrder,
};
use crate::tui::orders::{entry_of, journal_entry_for, outcome_view, OutcomeView};
use crate::tui::rolls::{is_open_order, low_i32, order_is_open};
use crate::tui::schedule::{
    eastern, eastern_wall, entry_due, past_time_stop, should_enter, stop_hit, stop_reached,
    stop_triggered,
};

verus! {

// --- one scheduler pass ----------------------------------------------------

/// Whether a scheduler pass does anything.
#[derive(Debug, Clone, Copy, PartialEq, Eq, Structural)]
pub enum TickGate {
    /// Read-only, offline, or nothing automated.
    Skip,
    /// Live trading is not confirmed this session.
    Paused,
    Go,
}

/// Whether any roster entry is automated.
pub open spec fn any_automated(app: App) -> bool {
    exists|i: int|
        0 <= i < app.cfg.zerodte.strategies@.len() && (
        #[trigger] app.cfg.zerodte.strategies@[i]).automate
}

/// Whether a scheduler pass does anything: the standing guardrails of unattended
/// trading.
pub open spec fn tick_gate(app: App) -> TickGate {
    if app.cfg.guardrails.read_only || !app.connected || !any_automated(app) {
        TickGate::Skip
    } else if !app.live_open() {
        TickGate::Paused
    } else {
        TickGate::Go
    }
}

/// The Eastern clock time at which a stored position was entered, where its
/// creation time can be read.
pub open spec fn entry_clock(p: ZeroDtePositionRow) -> Option<ClockTime> {
    match clock_of_text(p.created_at@) {
        Some(t) => if t.day > MIN_DAY {
            Some(eastern(t))
        } else {
            None
        },
        None => None,
    }
}

/// The entry clock times of the stored positions.
pub open spec fn entry_clocks(positions: Seq<ZeroDtePositionRow>) -> Seq<Option<ClockTime>> {
    positions.map_values(|p: ZeroDtePositionRow| entry_clock(p))
}

/// Whether the `i`-th position is an entry of the slot on the day.
pub open spec fn entered(
    positions: Seq<ZeroDtePositionRow>,
    clocks: Seq<Option<ClockTime>>,
    slot: int,
    today: Seq<char>,
    i: int,
) -> bool {
    positions[i].slot == slot && positions[i].entry_date@ == today && clocks[i] is Some
}

/// The latest entry of a slot on a day, among the first `n` positions.
pub open spec fn last_entry(
    positions: Seq<ZeroDtePositionRow>,
    clocks: Seq<Option<ClockTime>>,
    slot: int,
    today: Seq<char>,
    n: int,
) -> Option<ClockTime>
    decreases n,
{
    if n <= 0 {
        None
    } else {
        let before = last_entry(positions, clocks, slot, today, n - 1);
        if entered(positions, clocks, slot, today, n - 1) && (before is None || (
        clocks[n - 1]->0).instant() >= (before->0).instant()) {
            clocks[n - 1]
        } else {
            before
        }
    }
}

/// Whether a slot enters a position now: automated, due on schedule, with a
/// structure at hand that is within the contract limit.
pub open spec fn slot_due(
    app: App,
    positions: Seq<ZeroDtePositionRow>,
    clocks: Seq<Option<ClockTime>>,
    now: ClockTime,
    today: Seq<char>,
    i: int,
) -> bool {
    let p = app.cfg.zerodte.strategies@[app.cfg.zerodte.slot_index(i)->0];
    &&& app.cfg.zerodte.slot_index(i) is Some
    &&& p.automate
    &&& entry_due(
        now,
        p.entry_minutes_after_open as int,
        p.meic_interval_min as int,
        last_entry(positions, clocks, i, today, positions.len() as int),
    )
    &&& 0 <= i < app.zerodte_suggestions@.len()
    &&& app.zerodte_suggestions@[i] is Some
    &&& (app.zerodte_suggestions@[i]->0)@.quantity <= app.cfg.guardrails.max_contracts_per_order
    &&& (app.zerodte_suggestions@[i]->0)@.kind is OpenStructure
}

/// The due slots among the first `n`.
pub open spec fn due_upto(
    app: App,
    positions: Seq<ZeroDtePositionRow>,
    clocks: Seq<Option<ClockTime>>,
    now: ClockTime,
    today: Seq<char>,
    n: int,
) -> Seq<int>
    decreases n,
{
    if n <= 0 {
        Seq::empty()
    } else {
        let rest = due_upto(app, positions, clocks, now, today, n - 1);
        if slot_due(app, positions, clocks, now, today, n - 1) {
            rest.push(n - 1)
        } else {
            rest
        }
    }
}

/// A list of indices as numbers.
pub open spec fn indices(s: Seq<usize>) -> Seq<int> {
    s.map_values(|x: usize| x as int)
}

/// Reads the entry clock times of the stored positions.
pub fn read_entry_clocks(positions: &Vec<ZeroDtePositionRow>) -> (r: Vec<Option<ClockTime>>)
    ensures
        r@ == entry_clocks(positions@),
{
    let mut out: Vec<Option<ClockTime>> = Vec::new();
    let mut i: usize = 0;
    while i < positions.len()
        invariant
            i <= positions@.len(),
            out@.len() == i,
            forall|k: int| 0 <= k < i ==> #[trigger] out@[k] == entry_clock(positions@[k]),
        decreases positions@.len() - i,
    {
        let c = match parse_instant(positions[i].created_at.as_str()) {
            Some(t) => if t.day > MIN_DAY {
                Some(eastern_wall(t))
            } else {
                None
            },
            None => None,
        };
        out.push(c);
        i = i + 1;
    }
    assert(out@ =~= entry_clocks(positions@));
    out
}

fn find_last_entry(
    positions: &Vec<ZeroDtePositionRow>,
    clocks: &Vec<Option<ClockTime>>,
    slot: usize,
    today: &str,
) -> (r: Option<ClockTime>)
    requires
        clocks@.len() == positions@.len(),
        slot <= 4,
    ensures
        r == last_entry(positions@, clocks@, slot as int, today@, positions@.len() as int),
{
    let mut last: Option<ClockTime> = None;
    let mut i: usize = 0;
    while i < positions.len()
        invariant
            i <= positions@.len() == clocks@.len(),
            slot <= 4,
            last == last_entry(positions@, clocks@, slot as int, today@, i as int),
        decreases positions@.len() - i,
    {
        let p = &positions[i];
        if p.slot == slot as i64 && same_text(p.entry_date.as_str(), today) {
            if let Some(c) = clocks[i] {
                let later = match last {
                    None => true,
                    Some(b) => c.since(b) >= 0,
                };
                if later {
                    last = Some(c);
                }
            }
        }
        i = i + 1;
    }
    last
}

impl App {
    /// Whether a scheduler pass does anything. Where only the live confirmation is
    /// missing, the status line says so.
    pub fn begin_tick(&mut self) -> (r: TickGate)
        ensures
            r == tick_gate(*old(self)),
            *final(self) == (App { status: final(self).status, ..*old(self) }),
            r != TickGate::Paused ==> final(self).status == old(self).status,
            r == TickGate::Paused ==> final(self).status@
                == "⚡ LIVE auto-trading paused — press `L` and type "@ + LIVE_CONFIRM_PHRASE@
                + " to confirm this session"@,
    {
        if self.cfg.guardrails.read_only || !self.connected {
            return TickGate::Skip;
        }
        let n: usize = self.cfg.zerodte.strategies.len();
        let mut any = false;
        let mut i: usize = 0;
        while i < n
            invariant
                i <= n == self.cfg.zerodte.strategies@.len(),
                any <==> exists|k: int|
                    0 <= k < i && (#[trigger] self.cfg.zerodte.strategies@[k]).automate,
            decreases n - i,
        {
            if self.cfg.zerodte.strategies[i].automate {
                assert(self.cfg.zerodte.strategies@[i as int].automate);
                any = true;
            }
            i = i + 1;
        }
        if !any {
            return TickGate::Skip;
        }
        if !self.live_gate_ok() {
            let mut s = String::from_str("⚡ LIVE auto-trading paused — press `L` and type ");
            s.append(LIVE_CONFIRM_PHRASE);
            s.append(" to confirm this session");
            self.status = s;
            return TickGate::Paused;
        }
        TickGate::Go
    }

    fn is_slot_due(
        &self,
        positions: &Vec<ZeroDtePositionRow>,
        clocks: &Vec<Option<ClockTime>>,
        now_et: ClockTime,
        today: &str,
        i: usize,
    ) -> (r: bool)
        requires
            is_day(now_et.day as int),
            now_et.wf(),
            clocks@.len() == positions@.len(),
            i < 4,
        ensures
            r == slot_due(*self, positions@, clocks@, now_et, today@, i as int),
    {
        let (automate, entry, interval) = match self.cfg.zerodte.slot(i) {
            Some(p) => (p.automate, p.entry_minutes_after_open, p.meic_interval_min),
            None => {
                return false;
            },
        };
        if !automate {
            return false;
        }
        let last = find_last_entry(positions, clocks, i, today);
        if !should_enter(now_et, entry, interval, last) {
            return false;
        }
        if i >= self.zerodte_suggestions.len() {
            return false;
        }
        match &self.zerodte_suggestions[i] {
            Some(s) => s.quantity <= self.cfg.guardrails.max_contracts_per_order && matches!(
                s.kind,
                ActionKind::OpenStructure { .. }
            ),
            None => false,
        }
    }

    /// The slots that enter a position now, given the Eastern time, the day in
    /// the notation `YYYY-MM-DD`, and the clock times of earlier entries.
    pub fn due_slots(
        &self,
        positions: &Vec<ZeroDtePositionRow>,
        clocks: &Vec<Option<ClockTime>>,
        now_et: ClockTime,
        today: &str,
    ) -> (r: Vec<usize>)
        requires
            is_day(now_et.day as int),
            now_et.wf(),
            clocks@.len() == positions@.len(),
        ensures
            indices(r@) == due_upto(
                *self,
                positions@,
                clocks@,
                now_et,
                today@,
                self.cfg.zerodte.shown(),
            ),
    {
        let n: usize = self.cfg.zerodte.slot_count();
        let mut out: Vec<usize> = Vec::new();
        let mut i: usize = 0;
        assert(indices(out@) =~= Seq::empty());
        while i < n
            invariant
                i <= n <= 4,
                is_day(now_et.day as int),
                now_et.wf(),
                clocks@.len() == positions@.len(),
                indices(out@) == due_upto(*self, positions@, clocks@, now_et, today@, i as int),
            decreases n - i,
        {
            if self.is_slot_due(positions, clocks, now_et, today, i) {
                let ghost before = indices(out@);
                out.push(i);
                assert(indices(out@) =~= before.push(i as int));
            }
            i = i + 1;
        }
        out
    }
}

/// A scheduler pass never trades in read-only mode, offline, or live without
/// confirmation; and a slot that enters is automated, due, and within the
/// contract limit.
pub proof fn law_unattended_entries_guarded(
    app: App,
    positions: Seq<ZeroDtePositionRow>,
    clocks: Seq<Option<ClockTime>>,
    now: ClockTime,
    today: Seq<char>,
    n: int,
    k: int,
)
    requires
        tick_gate(app) == TickGate::Go,
        0 <= k < due_upto(app, positions, clocks, now, today, n).len(),
    ensures
        !app.cfg.guardrails.read_only,
        app.connected,
        app.live_open(),
        ({
            let i = due_upto(app, positions, clocks, now, today, n)[k];
            &&& 0 <= i < n
            &&& slot_due(app, positions, clocks, now, today, i)
        }),
    decreases n,
{
    if n > 0 {
        let rest = due_upto(app, positions, clocks, now, today, n - 1);
        if k < rest.len() {
            law_unattended_entries_guarded(app, positions, clocks, now, today, n - 1, k);
        }
    }
}

// --- entries ---------------------------------------------------------------

/// Whether slot `i` has a structure that may be entered: not too many contracts,
/// and an expiry that is a date.
pub open spec fn entry_allowed(app: App, i: int) -> bool {
    &&& 0 <= i < app.zerodte_suggestions@.len()
    &&& app.zerodte_suggestions@[i] is Some
    &&& {
        let s = (app.zerodte_suggestions@[i]->0)@;
        &&& s.kind is OpenStructure
        &&& s.quantity <= app.cfg.guardrails.max_contracts_per_order
        &&& is_day(s.expiry)
    }
}

/// Whether `o` is the order that enters the structure of a suggestion.
pub open spec fn is_entry_order(o: ComboOrder, s: SuggestionView) -> bool {
    &&& o.symbol@ == s.symbol
    &&& o.expiry_yyyymmdd@ == code_text(s.expiry)
    &&& o.legs@ == combo_of(s.kind->OpenStructure_legs)
    &&& o.quantity == s.quantity
    &&& o.net_credit == s.limit_price
}

impl App {
    /// The order that enters the structure of a slot unattended, where it has one
    /// that may be entered.
    pub fn entry_order(&self, slot: usize) -> (r: Option<ComboOrder>)
        requires
            self.wf(),
        ensures
            r is Some <==> entry_allowed(*self, slot as int),
            r is Some ==> is_entry_order(r->0, (self.zerodte_suggestions@[slot as int]->0)@),
    {
        if slot >= self.zerodte_suggestions.len() {
            return None;
        }
        let s = match &self.zerodte_suggestions[slot] {
            Some(s) => s,
            None => {
                return None;
            },
        };
        assert(s@.wf());
        if s.quantity > self.cfg.guardrails.max_contracts_per_order {
            return None;
        }
        match &s.kind {
            ActionKind::OpenStructure { legs, .. } => match expiry_code(s.expiry) {
                Some(expiry) => Some(
                    ComboOrder {
                        symbol: own(s.symbol.as_str()),
                        expiry_yyyymmdd: expiry,
                        legs: combo_legs_from(legs),
                        quantity: s.quantity,
                        net_credit: s.limit_price,
                    },
                ),
                None => None,
            },
            _ => None,
        }
    }
}

/// The journal note of an unattended entry.
pub open spec fn auto_note(s: SuggestionView, kind: StructureKind) -> Seq<char> {
    "AUTO entry: "@ + kind.spec_label() + " "@ + int_text(s.dte) + "DTE"@
}

/// What is stored of an unattended entry that was submitted.
pub open spec fn is_entry_row(
    row: ZeroDtePositionRow,
    slot: int,
    s: SuggestionView,
    kind: StructureKind,
    order: ComboOrder,
    target: int,
    today: Seq<char>,
    id: Seq<char>,
) -> bool {
    &&& row.entry_oid@ == id
    &&& row.slot == slot
    &&& row.strategy@ == kind.spec_label()
    &&& row.underlying@ == s.symbol
    &&& row.expiry@ == order.expiry_yyyymmdd@
    &&& row.legs@ == legs_text(order.legs@)
    &&& row.entry_credit == s.limit_price
    &&& row.quantity == s.quantity
    &&& row.max_loss == s.capital_required
    &&& row.profit_target_pct == target
    &&& row.status@ == zerodte_status::PENDING@
    &&& row.close_oid is None
    &&& row.entry_date@ == today
    &&& row.created_at@ == ""@
}

/// The text of the failure where no order id came back.
pub open spec fn no_id_text(o: OutcomeView) -> Seq<char> {
    match o {
        OutcomeView::Failed(e) => e,
        _ => "execute unexpectedly returned a preview"@,
    }
}

impl App {
    /// Takes over the outcome of an unattended entry: the rows to store where it
    /// was submitted.
    pub fn finish_entry(
        &mut self,
        slot: usize,
        sug: &Suggestion,
        kind: StructureKind,
        order: &ComboOrder,
        profit_target_pct: i64,
        today: &str,
        outcome: &Result<OrderOutcome, String>,
    ) -> (r: Option<(ZeroDtePositionRow, NewJournalEntry)>)
        requires
            slot < 4,
        ensures
            *final(self) == (App { status: final(self).status, ..*old(self) }),
            r is Some <==> outcome_view(*outcome) is Submitted,
            r is Some ==> ({
                let id = outcome_view(*outcome)->Submitted_0;
                &&& is_entry_row(
                    (r->0).0,
                    slot as int,
                    sug@,
                    kind,
                    *order,
                    profit_target_pct as int,
                    today@,
                    id,
                )
                &&& (r->0).1@ == (EntryView {
                    status: journal_status::SUBMITTED@,
                    ibkr_order_id: Some(id),
                    premium: Some(sug.premium_total as int),
                    note: Some(auto_note(sug@, kind)),
                    ..entry_of(sug@, order.expiry_yyyymmdd@, sug.right.spec_code())
                })
                &&& final(self).status@ == "⚡ AUTO entered "@ + sug.symbol@ + " "@
                    + kind.spec_label() + " ×"@ + int_text(sug.quantity as int) + " → id "@ + id
            }),
            r is None ==> final(self).status@ == "⚡ AUTO entry "@ + kind.spec_label()
                + " failed: "@ + no_id_text(outcome_view(*outcome)),
    {
        match outcome {
            Ok(OrderOutcome::Submitted(id)) => {
                let row = ZeroDtePositionRow {
                    entry_oid: own(id.as_str()),
                    slot: slot as i64,
                    strategy: own(kind.label()),
                    underlying: own(sug.symbol.as_str()),
                    expiry: own(order.expiry_yyyymmdd.as_str()),
                    legs: encode_legs(&order.legs),
                    entry_credit: sug.limit_price,
                    quantity: sug.quantity as i64,
                    max_loss: sug.capital_required,
                    profit_target_pct,
                    status: own(zerodte_status::PENDING),
                    close_oid: None,
                    entry_date: own(today),
                    created_at: own(""),
                };
                let mut note = String::from_str("AUTO entry: ");
                note.append(kind.label());
                note.append(" ");
                push_int(&mut note, sug.dte as i128);
                note.append("DTE");
                let mut e = journal_entry_for(
                    sug,
                    order.expiry_yyyymmdd.as_str(),
                    sug.right.code(),
                );
                e.status = own(journal_status::SUBMITTED);
                e.ibkr_order_id = Some(own(id.as_str()));
                e.premium = Some(sug.premium_total);
                e.note = Some(note);
                let mut s = String::from_str("⚡ AUTO entered ");
                s.append(sug.symbol.as_str());
                s.append(" ");
                s.append(kind.label());
                s.append(" ×");
                push_int(&mut s, sug.quantity as i128);
                s.append(" → id ");
                s.append(id.as_str());
                self.status = s;
                Some((row, e))
            },
            Ok(OrderOutcome::Preview(_)) => {
                let mut s = String::from_str("⚡ AUTO entry ");
                s.append(kind.label());
                s.append(" failed: ");
                s.append("execute unexpectedly returned a preview");
                self.status = s;
                None
            },
            Err(x) => {
                let mut s = String::from_str("⚡ AUTO entry ");
                s.append(kind.label());
                s.append(" failed: ");
                s.append(x.as_str());
                self.status = s;
                None
            },
        }
    }
}

// --- stops -----------------------------------------------------------------

/// Why an open position is closed before its profit target.
#[derive(Debug, Clone, Copy, PartialEq, Eq, Structural)]
pub enum StopReason {
    StopLoss,
    TimeStop,
}

impl StopReason {
    pub open spec fn word(self) -> Seq<char> {
        match self {
            StopReason::StopLoss => "stop-loss"@,
            StopReason::TimeStop => "time-stop"@,
        }
    }

    /// `stop-loss` or `time-stop`.
    pub fn text(self) -> (r: &'static str)
        ensures
            r@ == self.word(),
    {
        match self {
            StopReason::StopLoss => "stop-loss",
            StopReason::TimeStop => "time-stop",
        }
    }
}

/// The slot of a stored position as an index, where it is one.
pub open spec fn stored_slot(p: ZeroDtePositionRow) -> int {
    p.slot as int
}

/// Whether the time-stop of a slot is reached.
pub open spec fn timed_out(p: StructureParams, now: ClockTime) -> bool {
    match p.time_stop_hhmm {
        Some(t) => stop_reached(now, crate::dates::second_of_clock(t@)),
        None => false,
    }
}

/// Whether an open position has to be priced for its stops: it is open, its slot
/// exists, and a stop-loss is configured or the time-stop is reached.
pub open spec fn watched(app: App, p: ZeroDtePositionRow, now: ClockTime) -> bool {
    let params = app.cfg.zerodte.strategies@[app.cfg.zerodte.slot_index(stored_slot(p))->0];
    &&& p.status@ == zerodte_status::OPEN@
    &&& app.cfg.zerodte.slot_index(stored_slot(p)) is Some
    &&& params.stop_loss_mult > 0 || timed_out(params, now)
}

/// The stops of a watched position.
#[derive(Debug, Clone)]
pub struct StopWatch {
    /// The legs to price.
    pub legs: Vec<ComboLeg>,
    pub stop_mult: i64,
    pub timed_out: bool,
}

/// Why a watched position is closed at the given cost, if it is: the stop-loss
/// first, then the time-stop.
pub open spec fn stop_due(
    cost: int,
    credit: int,
    mult: int,
    late: bool,
) -> Option<StopReason> {
    if stop_hit(cost, credit, mult) {
        Some(StopReason::StopLoss)
    } else if late {
        Some(StopReason::TimeStop)
    } else {
        None
    }
}

impl App {
    /// What to price of a stored position for its stops, if it is watched.
    pub fn stop_watch(&self, p: &ZeroDtePositionRow, now_et: ClockTime) -> (r: Option<StopWatch>)
        ensures
            r is Some <==> watched(*self, *p, now_et),
            r is Some ==> ({
                let params = self.cfg.zerodte.strategies@[self.cfg.zerodte.slot_index(
                    stored_slot(*p),
                )->0];
                &&& (r->0).legs@ == legs_of_text(p.legs@)
                &&& (r->0).stop_mult == params.stop_loss_mult
                &&& (r->0).timed_out == timed_out(params, now_et)
            }),
    {
        if !same_text(p.status.as_str(), zerodte_status::OPEN) {
            return None;
        }
        if p.slot < 0 || p.slot as u64 >= self.cfg.zerodte.slots.len() as u64 {
            return None;
        }
        match self.cfg.zerodte.slot(p.slot as usize) {
            Some(params) => {
                let late = match &params.time_stop_hhmm {
                    Some(t) => past_time_stop(now_et, t.as_str()),
                    None => false,
                };
                if params.stop_loss_mult <= 0 && !late {
                    None
                } else {
                    Some(
                        StopWatch {
                            legs: decode_legs(p.legs.as_str()),
                            stop_mult: params.stop_loss_mult,
                            timed_out: late,
                        },
                    )
                }
            },
            None => None,
        }
    }
}

/// Why a watched position is closed at the given cost, if it is.
pub fn stop_reason(cost: i64, p: &ZeroDtePositionRow, w: &StopWatch) -> (r: Option<StopReason>)
    ensures
        r == stop_due(cost as int, p.entry_credit as int, w.stop_mult as int, w.timed_out),
{
    if stop_triggered(cost, p.entry_credit, w.stop_mult) {
        Some(StopReason::StopLoss)
    } else if w.timed_out {
        Some(StopReason::TimeStop)
    } else {
        None
    }
}

// --- closing orders --------------------------------------------------------

/// A closing order of a stored position, and what to store once it is submitted.
#[derive(Debug, Clone)]
pub struct ZerodteClose {
    /// The standing close that is cancelled before this one is sent, so that the
    /// position is not closed twice.
    pub cancels: Option<String>,
    pub order: ComboOrder,
    /// The debit it is submitted at.
    pub debit: i64,
    /// The status the position moves to.
    pub status: &'static str,
    /// Journal action and note.
    pub action: String,
    pub note: String,
}

/// Whether a close may be transmitted: not read-only, and within the contract
/// limit.
pub open spec fn close_allowed(app: App, p: ZeroDtePositionRow) -> bool {
    !app.cfg.guardrails.read_only && low_i32(p.quantity)
        <= app.cfg.guardrails.max_contracts_per_order
}

/// Whether `c` closes the position: every leg reversed, at the given debit.
pub open spec fn is_close_of(c: ZerodteClose, p: ZeroDtePositionRow, debit: int) -> bool {
    &&& c.order.symbol@ == p.underlying@
    &&& c.order.expiry_yyyymmdd@ == p.expiry@
    &&& c.order.legs@ == closing_legs(legs_of_text(p.legs@))
    &&& c.order.quantity == low_i32(p.quantity)
    &&& c.order.net_credit == -debit
    &&& c.debit == debit
}

/// The debit of an active close: the cost plus 20 cents so that it fills, never
/// negative.
pub open spec fn stop_debit(cost: int) -> int {
    max(cost + 200_000, 0)
}

/// The debit of the standing profit-close: what is left of the credit after the
/// profit target (rounded down to a millionth), never negative.
pub open spec fn profit_debit(p: ZeroDtePositionRow) -> int {
    max(floor_div(p.entry_credit * (SCALE - p.profit_target_pct), SCALE as int), 0)
}

/// Whether the amounts of a stored position are in the range that computations on
/// them allow for.
pub open spec fn row_wf(p: ZeroDtePositionRow) -> bool {
    &&& -5 * MAX_PRICE <= p.entry_credit <= 5 * MAX_PRICE
    &&& -1_000 * SCALE <= p.profit_target_pct <= 1_000 * SCALE
}

fn close_order(p: &ZeroDtePositionRow, debit: i64) -> (r: ComboOrder)
    requires
        debit > i64::MIN,
    ensures
        r.symbol@ == p.underlying@,
        r.expiry_yyyymmdd@ == p.expiry@,
        r.legs@ == closing_legs(legs_of_text(p.legs@)),
        r.quantity == low_i32(p.quantity),
        r.net_credit == -debit,
{
    ComboOrder {
        symbol: own(p.underlying.as_str()),
        expiry_yyyymmdd: own(p.expiry.as_str()),
        legs: reverse_legs(&decode_legs(p.legs.as_str())),
        quantity: #[verifier::truncate]
        (p.quantity as i32),
        net_credit: -debit,
    }
}

impl App {
    /// The order that closes a position now, for a stop; `None` where a guardrail
    /// forbids it (the standing close is then left alone too).
    pub fn close_structure_now(&self, p: &ZeroDtePositionRow, cost: i64, reason: StopReason) -> (r:
        Option<ZerodteClose>)
        requires
            -4_000_000_000_000_000_000 <= cost <= 4_000_000_000_000_000_000,
        ensures
            r is Some <==> close_allowed(*self, *p),
            r is Some ==> {
                &&& is_close_of(r->0, *p, stop_debit(cost as int))
                &&& opt_text((r->0).cancels) == opt_text(p.close_oid)
                &&& (r->0).status@ == zerodte_status::CLOSING@
                &&& (r->0).action@ == p.strategy@ + " "@ + reason.word()
                &&& (r->0).note@ == "AUTO "@ + reason.word() + " close @ ~"@ + dec_text(
                    stop_debit(cost as int),
                    2,
                ) + " debit"@
            },
    {
        let qty: i32 = #[verifier::truncate]
        (p.quantity as i32);
        if self.cfg.guardrails.read_only || qty > self.cfg.guardrails.max_contracts_per_order {
            return None;
        }
        let debit: i64 = if cost + 200_000 > 0 {
            cost + 200_000
        } else {
            0
        };
        let mut action = own(p.strategy.as_str());
        action.append(" ");
        action.append(reason.text());
        let mut note = String::from_str("AUTO ");
        note.append(reason.text());
        note.append(" close @ ~");
        push_dec(&mut note, debit as i128, 2);
        note.append(" debit");
        let cancels = match &p.close_oid {
            Some(id) => Some(own(id.as_str())),
            None => None,
        };
        Some(
            ZerodteClose {
                cancels,
                order: close_order(p, debit),
                debit,
                status: zerodte_status::CLOSING,
                action,
                note,
            },
        )
    }

    /// The standing profit-close of a position, or why it is not placed. Without
    /// one the position stays open and its wings still cap the loss.
    pub fn place_profit_close(&self, p: &ZeroDtePositionRow) -> (r: Result<ZerodteClose, String>)
        requires
            row_wf(*p),
        ensures
            r is Ok <==> close_allowed(*self, *p),
            r is Ok ==> {
                &&& is_close_of(r->Ok_0, *p, profit_debit(*p))
                &&& (r->Ok_0).cancels is None
                &&& (r->Ok_0).status@ == zerodte_status::OPEN@
                &&& (r->Ok_0).action@ == p.strategy@ + " close"@
                &&& (r->Ok_0).note@ == "AUTO profit-close @ "@ + ratio_text(
                    p.profit_target_pct as int,
                    10_000,
                    0,
                ) + "% (debit "@ + dec_text(profit_debit(*p), 2) + ")"@
            },
            r is Err ==> (r->Err_0)@ == (if self.cfg.guardrails.read_only {
                "read_only — profit-close not placed (wings cap the loss)"@
            } else {
                "qty "@ + int_text(low_i32(p.quantity) as int)
                    + " over max_contracts_per_order — profit-close not placed"@
            }),
    {
        let qty: i32 = #[verifier::truncate]
        (p.quantity as i32);
        if self.cfg.guardrails.read_only {
            return Err(own("read_only — profit-close not placed (wings cap the loss)"));
        }
        if qty > self.cfg.guardrails.max_contracts_per_order {
            let mut s = String::from_str("qty ");
            push_int(&mut s, qty as i128);
            s.append(" over max_contracts_per_order — profit-close not placed");
            return Err(s);
        }
        let credit: i128 = p.entry_credit as i128;
        let left: i128 = 1_000_000 - p.profit_target_pct as i128;
        proof {
            assert(-6_000_000_000_000_000_000_000_000 <= credit * left
                <= 6_000_000_000_000_000_000_000_000) by (nonlinear_arith)
                requires
                    -5_000_000_000_000_000 <= credit <= 5_000_000_000_000_000,
                    -1_001_000_000 <= left <= 1_001_000_000,
            ;
        }
        let kept: i128 = floor_of(credit * left, 1_000_000);
        let debit: i64 = if kept > 0 {
            kept as i64
        } else {
            0
        };
        let mut action = own(p.strategy.as_str());
        action.append(" close");
        let mut note = String::from_str("AUTO profit-close @ ");
        push_ratio(&mut note, p.profit_target_pct as i128, 10_000, 0);
        note.append("% (debit ");
        push_dec(&mut note, debit as i128, 2);
        note.append(")");
        Ok(
            ZerodteClose {
                cancels: None,
                order: close_order(p, debit),
                debit,
                status: zerodte_status::OPEN,
                action,
                note,
            },
        )
    }

    /// Notes the outcome of an active close.
    pub fn note_stop_close(&mut self, strategy: &str, reason: StopReason, sent: &Result<
        String,
        String,
    >)
        ensures
            *final(self) == (App { status: final(self).status, ..*old(self) }),
            final(self).status@ == (match *sent {
                Ok(id) => "⚡ "@ + strategy@ + " "@ + reason.word() + " → closing (id "@ + id@
                    + ")"@,
                Err(e) => "⚡ "@ + strategy@ + " "@ + reason.word() + " close failed: "@ + e@,
            }),
    {
        let mut s = String::from_str("⚡ ");
        s.append(strategy);
        s.append(" ");
        s.append(reason.text());
        match sent {
            Ok(id) => {
                s.append(" → closing (id ");
                s.append(id.as_str());
                s.append(")");
            },
            Err(e) => {
                s.append(" close failed: ");
                s.append(e.as_str());
            },
        }
        self.status = s;
    }
}

/// The order id of a submitted close, or why there is none.
pub fn close_sent(outcome: Result<OrderOutcome, String>) -> (r: Result<String, String>)
    ensures
        match outcome_view(outcome) {
            OutcomeView::Submitted(id) => r is Ok && (r->Ok_0)@ == id,
            OutcomeView::Preview { .. } => r is Err && (r->Err_0)@ == "unexpected preview"@,
            OutcomeView::Failed(e) => r is Err && (r->Err_0)@ == e,
        },
{
    match outcome {
        Ok(OrderOutcome::Submitted(id)) => Ok(id),
        Ok(OrderOutcome::Preview(_)) => Err(own("unexpected preview")),
        Err(e) => Err(e),
    }
}

/// The status that a position is given where its profit-close came to nothing: it
/// stays open, without a close. One that was sent has its status from the close.
pub fn unplaced_status(sent: &Result<String, String>) -> (r: Option<&'static str>)
    ensures
        r is Some <==> *sent is Err,
        r is Some ==> (r->0)@ == zerodte_status::OPEN@,
{
    match sent {
        Ok(_) => None,
        Err(_) => Some(zerodte_status::OPEN),
    }
}

/// The journal entry of a submitted close.
pub fn close_entry(p: &ZeroDtePositionRow, c: &ZerodteClose, id: &str) -> (r: NewJournalEntry)
    ensures
        r@ == (EntryView {
            symbol: p.underlying@,
            action: c.action@,
            quantity: p.quantity as int,
            limit_price: Some(c.debit as int),
            status: journal_status::SUBMITTED@,
            ibkr_order_id: Some(id@),
            note: Some(c.note@),
            ..blank_entry()
        }),
{
    let mut e = NewJournalEntry::default();
    e.symbol = own(p.underlying.as_str());
    e.action = own(c.action.as_str());
    e.quantity = p.quantity;
    e.limit_price = Some(c.debit);
    e.status = own(journal_status::SUBMITTED);
    e.ibkr_order_id = Some(own(id));
    e.note = Some(own(c.note.as_str()));
    e
}

/// A close trades the entry's legs the other way round, and reversing it again
/// gives the entry's legs: it leaves no leg open and opens none.
pub proof fn law_close_mirrors_entry(c: ZerodteClose, p: ZeroDtePositionRow, debit: int)
    requires
        is_close_of(c, p, debit),
    ensures
        closing_legs(c.order.legs@) == legs_of_text(p.legs@),
        c.order.legs@.len() == legs_of_text(p.legs@).len(),
{
    crate::tui::legs::law_reverse_twice(legs_of_text(p.legs@));
}

/// The standing profit-close never costs more than the credit that was received.
pub proof fn law_profit_close_within_credit(p: ZeroDtePositionRow)
    requires
        p.entry_credit >= 0,
        0 <= p.profit_target_pct <= SCALE,
    ensures
        0 <= profit_debit(p) <= p.entry_credit,
{
    let (c, t) = (p.entry_credit as int, p.profit_target_pct as int);
    assert((c * (1_000_000 - t)) / 1_000_000 <= c) by (nonlinear_arith)
        requires
            c >= 0,
            0 <= t <= 1_000_000,
    ;
}

// --- after a restart -------------------------------------------------------

/// What becomes of a stored position after a restart.
#[derive(Debug, Clone, Copy, PartialEq, Eq, Structural)]
pub enum ZerodteReconcile {
    /// Consistent with the broker.
    Leave,
    /// The shorts are gone: closed or expired meanwhile.
    Closed,
    /// No shorts and no working entry: it never filled.
    Cancelled,
    /// Held without a working close: place it.
    PlaceClose,
}

/// What becomes of a stored position, by whether its shorts are held and its
/// orders are working.
pub open spec fn reconciled_to(
    status: Seq<char>,
    held: bool,
    entry_open: bool,
    close_open: bool,
) -> ZerodteReconcile {
    if status == zerodte_status::PENDING@ {
        if held && !close_open {
            ZerodteReconcile::PlaceClose
        } else if !held && !entry_open {
            ZerodteReconcile::Cancelled
        } else {
            ZerodteReconcile::Leave
        }
    } else if status == zerodte_status::OPEN@ || status == zerodte_status::CLOSING@ {
        if !held {
            ZerodteReconcile::Closed
        } else if !close_open {
            ZerodteReconcile::PlaceClose
        } else {
            ZerodteReconcile::Leave
        }
    } else {
        ZerodteReconcile::Leave
    }
}

/// The restart decision for one stored position.
pub fn reconcile_action(status: &str, held: bool, entry_open: bool, close_open: bool) -> (r:
    ZerodteReconcile)
    ensures
        r == reconciled_to(status@, held, entry_open, close_open),
{
    if same_text(status, zerodte_status::PENDING) {
        if held && !close_open {
            ZerodteReconcile::PlaceClose
        } else if !held && !entry_open {
            ZerodteReconcile::Cancelled
        } else {
            ZerodteReconcile::Leave
        }
    } else if same_text(status, zerodte_status::OPEN) || same_text(
        status,
        zerodte_status::CLOSING,
    ) {
        if !held {
            ZerodteReconcile::Closed
        } else if !close_open {
            ZerodteReconcile::PlaceClose
        } else {
            ZerodteReconcile::Leave
        }
    } else {
        ZerodteReconcile::Leave
    }
}

/// Whether the standing close of a position is working.
pub open spec fn close_working(p: ZeroDtePositionRow, open: Seq<OpenOrderInfo>) -> bool {
    match p.close_oid {
        Some(id) => is_open_order(open, id@),
        None => false,
    }
}

/// The restart decision for a stored position against the broker's open orders
/// and holdings.
pub fn reconcile_position(
    p: &ZeroDtePositionRow,
    open: &Vec<OpenOrderInfo>,
    holdings: &[PositionRow],
) -> (r: ZerodteReconcile)
    ensures
        r == reconciled_to(
            p.status@,
            is_held(holdings@, *p),
            is_open_order(open@, p.entry_oid@),
            close_working(*p, open@),
        ),
{
    let held = structure_held(holdings, p);
    let entry_open = order_is_open(open, p.entry_oid.as_str());
    let close_open = match &p.close_oid {
        Some(id) => order_is_open(open, id.as_str()),
        None => false,
    };
    reconcile_action(p.status.as_str(), held, entry_open, close_open)
}

/// A position whose shorts are held is never given up: it is left or its close is
/// placed. A close is only placed for shorts that are held and have none working.
pub proof fn law_held_never_given_up(
    status: Seq<char>,
    held: bool,
    entry_open: bool,
    close_open: bool,
)
    ensures
        held ==> reconciled_to(status, held, entry_open, close_open) != ZerodteReconcile::Closed
            && reconciled_to(status, held, entry_open, close_open) != ZerodteReconcile::Cancelled,
        reconciled_to(status, held, entry_open, close_open) == ZerodteReconcile::PlaceClose ==> held
            && !close_open,
{
}

} // verus!

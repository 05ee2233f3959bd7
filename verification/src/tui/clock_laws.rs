//! When unattended trading acts and at what price, in hours, minutes and amounts.

use vstd::prelude::*;
use crate::dates::{
    civil_day, clock_of_text, in_year, lemma_year_unique, second_of_clock, ClockTime, DAY, MIN_DAY,
};
use crate::engine::types::{Right, StructureKind, SuggestionView};
use crate::ibkr::{OpenOrderInfo, PositionRow, Side};
use crate::store::models::ZeroDtePositionRow;
use crate::tui::app::App;
use crate::tui::legs::{combo_of, is_held, legs_of_text, ComboOrder};
use crate::tui::order_laws::is_locked;
use crate::tui::schedule::{eastern, entry_due, us_dst};
use crate::tui::zerodte::{
    close_allowed, close_working, due_upto, entry_allowed, entry_clock, is_close_of, is_entry_order,
    is_entry_row, last_entry, profit_debit, reconciled_to, stop_debit, stop_due, tick_gate, watched,
    StopReason, TickGate, ZerodteClose, ZerodteReconcile,
};

verus! {

// --- the clock in New York -------------------------------------------------

/// An hour in nanoseconds.
pub open spec fn hours(h: int) -> int {
    h * 3_600_000_000_000
}

/// A minute in nanoseconds.
pub open spec fn minutes(m: int) -> int {
    m * 60_000_000_000
}

proof fn lemma_months(y: int)
    ensures
        civil_day(y, 1, 1) + 59 <= civil_day(y, 3, 1) <= civil_day(y, 1, 1) + 60,
        civil_day(y, 4, 1) == civil_day(y, 3, 1) + 31,
        civil_day(y, 11, 1) == civil_day(y, 3, 1) + 245,
        civil_day(y + 1, 1, 1) == civil_day(y, 3, 1) + 306,
{
    reveal(civil_day);
}

proof fn lemma_one_sunday(a: int, b: int, first: int)
    requires
        a % 7 == 0,
        b % 7 == 0,
        first <= a < first + 7,
        first <= b < first + 7,
    ensures
        a == b,
{
}

/// Daylight time begins on the Sunday of the second week of March at 07:00 UTC and ends
/// on the Sunday of the first week of November at 06:00 UTC. The two Sundays are
/// `start` and `end`.
pub proof fn law_daylight(t: ClockTime, y: int, start: int, end: int)
    requires
        in_year(y, t.day as int),
        start % 7 == 0,
        civil_day(y, 3, 1) + 7 <= start < civil_day(y, 3, 1) + 14,
        end % 7 == 0,
        civil_day(y, 11, 1) <= end < civil_day(y, 11, 1) + 7,
    ensures
        us_dst(t) <==> start * DAY + hours(7) <= t.instant() < end * DAY + hours(6),
{
    lemma_year_unique(y, t.day as int);
    if start * DAY + hours(7) <= t.instant() < end * DAY + hours(6) {
        assert(crate::dates::is_nth_weekday(y, 3, 0, 2, start));
        assert(crate::dates::is_nth_weekday(y, 11, 0, 1, end));
    }
    if us_dst(t) {
        let (s, e) = choose|s: int, e: int|
            {
                &&& crate::dates::is_nth_weekday(y, 3, 0, 2, s)
                &&& crate::dates::is_nth_weekday(y, 11, 0, 1, e)
                &&& s * DAY + crate::tui::schedule::hour_nanos(7) <= t.instant() < e * DAY
                    + crate::tui::schedule::hour_nanos(6)
            };
        lemma_one_sunday(s, start, civil_day(y, 3, 1) + 7);
        lemma_one_sunday(e, end, civil_day(y, 11, 1));
    }
}

/// Daylight time holds from April to October, and not from December to the first week of
/// March.
pub proof fn law_seasons(t: ClockTime, y: int)
    requires
        t.wf(),
        in_year(y, t.day as int),
    ensures
        civil_day(y, 4, 1) <= t.day < civil_day(y, 11, 1) ==> us_dst(t),
        t.day < civil_day(y, 3, 1) + 7 || t.day >= civil_day(y, 11, 1) + 7 ==> !us_dst(t),
{
    lemma_months(y);
    let a = civil_day(y, 3, 1) + 7;
    let b = civil_day(y, 11, 1);
    let start = a + (7 - a % 7) % 7;
    let end = b + (7 - b % 7) % 7;
    assert(start % 7 == 0 && a <= start < a + 7);
    assert(end % 7 == 0 && b <= end < b + 7);
    law_daylight(t, y, start, end);
}

/// The clock in New York is four hours behind in daylight time and five hours behind
/// otherwise, and shows a time of day.
pub proof fn law_eastern(t: ClockTime)
    requires
        t.wf(),
        t.day > i32::MIN,
    ensures
        us_dst(t) ==> eastern(t).instant() == t.instant() - hours(4),
        !us_dst(t) ==> eastern(t).instant() == t.instant() - hours(5),
        eastern(t).wf(),
{
}

// --- entries ---------------------------------------------------------------

/// Whether it is Monday to Friday, from 09:30 through the minute of 16:00.
pub open spec fn in_session(now: ClockTime) -> bool {
    &&& 1 <= now.day as int % 7 <= 5
    &&& hours(9) + minutes(30) <= now.nanos < hours(16) + minutes(1)
}

/// An entry is due exactly in the session, so many minutes past 09:30 or later, and
/// where there was one today, only where entries repeat and the interval has gone by.
pub proof fn law_entry_due(now: ClockTime, offset: int, interval: int, last: Option<ClockTime>)
    ensures
        entry_due(now, offset, interval, last) <==> {
            &&& in_session(now)
            &&& now.nanos >= hours(9) + minutes(30 + offset)
            &&& last is Some ==> interval > 0 && now.instant() - (last->0).instant() >= minutes(
                interval,
            )
        },
{
    let m = now.nanos as int / 60_000_000_000;
    assert(m * 60_000_000_000 <= now.nanos < (m + 1) * 60_000_000_000);
    assert(crate::tui::schedule::minute_of_day(now) == m);
}

/// Whether the `i`-th position was entered in the slot today, at a time that is known.
pub open spec fn entered_today(
    positions: Seq<ZeroDtePositionRow>,
    clocks: Seq<Option<ClockTime>>,
    slot: int,
    today: Seq<char>,
    i: int,
) -> bool {
    &&& 0 <= i < positions.len()
    &&& positions[i].slot == slot
    &&& positions[i].entry_date@ == today
    &&& clocks[i] is Some
}

/// An entry is timed by the clock in New York at its creation, where that can be read.
pub proof fn law_entry_clock(p: ZeroDtePositionRow)
    ensures
        entry_clock(p) is Some ==> clock_of_text(p.created_at@) is Some && entry_clock(p) == Some(
            eastern(clock_of_text(p.created_at@)->0),
        ),
        entry_clock(p) is None <==> clock_of_text(p.created_at@) is None || clock_of_text(
            p.created_at@,
        )->0.day <= MIN_DAY,
{
}

/// The last entry of a slot is one of its entries today and none is later; there is none
/// exactly where the slot has not entered today.
pub proof fn law_last_entry(
    positions: Seq<ZeroDtePositionRow>,
    clocks: Seq<Option<ClockTime>>,
    slot: int,
    today: Seq<char>,
) -> (at: int)
    ensures
        ({
            let last = last_entry(positions, clocks, slot, today, positions.len() as int);
            &&& last is Some ==> entered_today(positions, clocks, slot, today, at) && clocks[at]
                == last
            &&& forall|i: int| #[trigger]
                entered_today(positions, clocks, slot, today, i) ==> last is Some && (
                clocks[i]->0).instant() <= (last->0).instant()
        }),
{
    lemma_last_entry(positions, clocks, slot, today, positions.len() as int)
}

proof fn lemma_last_entry(
    positions: Seq<ZeroDtePositionRow>,
    clocks: Seq<Option<ClockTime>>,
    slot: int,
    today: Seq<char>,
    n: int,
) -> (at: int)
    requires
        0 <= n <= positions.len(),
    ensures
        ({
            let last = last_entry(positions, clocks, slot, today, n);
            &&& last is Some ==> at < n && entered_today(positions, clocks, slot, today, at)
                && clocks[at] == last
            &&& forall|i: int|
                i < n && #[trigger] entered_today(positions, clocks, slot, today, i)
                    ==> last is Some && (clocks[i]->0).instant() <= (last->0).instant()
        }),
    decreases n,
{
    if n <= 0 {
        0
    } else {
        let at = lemma_last_entry(positions, clocks, slot, today, n - 1);
        let before = last_entry(positions, clocks, slot, today, n - 1);
        if crate::tui::zerodte::entered(positions, clocks, slot, today, n - 1) && (before is None
            || (clocks[n - 1]->0).instant() >= (before->0).instant()) {
            n - 1
        } else {
            at
        }
    }
}

/// Whether the structure of slot `i` is entered now.
pub open spec fn enters(
    app: App,
    now: ClockTime,
    last: Option<ClockTime>,
    i: int,
) -> bool {
    let z = app.cfg.zerodte;
    &&& 0 <= i < z.slots@.len()
    &&& z.slots@[i] < z.strategies@.len()
    &&& {
        let p = z.strategies@[z.slots@[i] as int];
        &&& p.automate
        &&& in_session(now)
        &&& now.nanos >= hours(9) + minutes(30 + p.entry_minutes_after_open)
        &&& last is Some ==> p.meic_interval_min > 0 && now.instant() - (last->0).instant()
            >= minutes(p.meic_interval_min as int)
    }
    &&& i < app.zerodte_suggestions@.len()
    &&& app.zerodte_suggestions@[i] is Some
    &&& (app.zerodte_suggestions@[i]->0)@.kind is OpenStructure
    &&& (app.zerodte_suggestions@[i]->0)@.quantity <= app.cfg.guardrails.max_contracts_per_order
}

/// Exactly the slots whose time has come are entered, each once and in their order.
pub proof fn law_due_slots(
    app: App,
    positions: Seq<ZeroDtePositionRow>,
    clocks: Seq<Option<ClockTime>>,
    now: ClockTime,
    today: Seq<char>,
    n: int,
    i: int,
)
    ensures
        ({
            let due = due_upto(app, positions, clocks, now, today, n);
            let last = last_entry(positions, clocks, i, today, positions.len() as int);
            &&& due.contains(i) <==> 0 <= i < n && enters(app, now, last, i)
            &&& forall|a: int, b: int| 0 <= a < b < due.len() ==> due[a] < due[b]
            &&& forall|a: int| 0 <= a < due.len() ==> #[trigger] due[a] < n
        }),
    decreases n,
{
    if n > 0 {
        law_due_slots(app, positions, clocks, now, today, n - 1, i);
        let rest = due_upto(app, positions, clocks, now, today, n - 1);
        let due = due_upto(app, positions, clocks, now, today, n);
        let last = last_entry(positions, clocks, n - 1, today, positions.len() as int);
        if app.cfg.zerodte.slot_index(n - 1) is Some {
            let p = app.cfg.zerodte.strategies@[app.cfg.zerodte.slot_index(n - 1)->0];
            law_entry_due(
                now,
                p.entry_minutes_after_open as int,
                p.meic_interval_min as int,
                last,
            );
        }
        assert(crate::tui::zerodte::slot_due(app, positions, clocks, now, today, n - 1) == enters(
            app,
            now,
            last,
            n - 1,
        ));
        if rest.contains(i) {
            let k = choose|k: int| 0 <= k < rest.len() && rest[k] == i;
            assert(due[k] == i);
        }
        if due.contains(i) && i != n - 1 {
            let k = choose|k: int| 0 <= k < due.len() && due[k] == i;
            assert(rest[k] == i);
        }
        if i == n - 1 {
            assert(!rest.contains(i));
            if crate::tui::zerodte::slot_due(app, positions, clocks, now, today, n - 1) {
                assert(due[rest.len() as int] == i);
            }
        }
    }
}

/// Unattended trading goes on exactly where trading is allowed, the broker is reached,
/// some strategy is automated and live trading is not locked.
pub proof fn law_tick(app: App)
    ensures
        ({
            let some = exists|i: int|
                0 <= i < app.cfg.zerodte.strategies@.len() && (
                #[trigger] app.cfg.zerodte.strategies@[i]).automate;
            let on = !app.cfg.guardrails.read_only && app.connected && some;
            &&& tick_gate(app) == TickGate::Go <==> on && !is_locked(app)
            &&& tick_gate(app) == TickGate::Paused <==> on && is_locked(app)
            &&& tick_gate(app) == TickGate::Skip <==> !on
        }),
{
}

/// An entry is sent for a structure that is at hand, within the size of an order and of
/// an expiry that has a date: its legs, number and credit.
pub proof fn law_entry_order(app: App, i: int, o: ComboOrder)
    requires
        entry_allowed(app, i),
        is_entry_order(o, (app.zerodte_suggestions@[i]->0)@),
    ensures
        ({
            let s = (app.zerodte_suggestions@[i]->0)@;
            &&& 0 <= i < app.zerodte_suggestions@.len()
            &&& s.kind is OpenStructure
            &&& o.symbol@ == s.symbol
            &&& o.expiry_yyyymmdd@ == crate::dates::code_text(s.expiry)
            &&& o.legs@ == combo_of(s.kind->OpenStructure_legs)
            &&& o.quantity == s.quantity
            &&& o.quantity <= app.cfg.guardrails.max_contracts_per_order
            &&& o.net_credit == s.limit_price
        }),
{
}

/// What is stored of an entry waits for its fill under the broker's id, with the credit,
/// number and worst loss of the suggestion.
pub proof fn law_entry_row(
    row: ZeroDtePositionRow,
    slot: int,
    s: SuggestionView,
    kind: StructureKind,
    order: ComboOrder,
    target: int,
    today: Seq<char>,
    id: Seq<char>,
)
    requires
        is_entry_row(row, slot, s, kind, order, target, today, id),
    ensures
        row.entry_oid@ == id,
        row.slot == slot,
        row.underlying@ == s.symbol,
        row.expiry@ == order.expiry_yyyymmdd@,
        row.entry_credit == s.limit_price,
        row.quantity == s.quantity,
        row.max_loss == s.capital_required,
        row.profit_target_pct == target,
        row.status@ == "pending"@,
        row.close_oid is None,
        row.entry_date@ == today,
{
}

// --- stops -----------------------------------------------------------------

/// A position is closed for its loss exactly where a stop is set and the loss has reached
/// that multiple of the credit, and otherwise for the time exactly where it is late.
pub proof fn law_stop(cost: int, credit: int, mult: int, late: bool)
    ensures
        ({
            let hit = mult > 0 && (cost - credit) * 1_000_000 >= mult * credit;
            let s = stop_due(cost, credit, mult, late);
            &&& s == Some(StopReason::StopLoss) <==> hit
            &&& s == Some(StopReason::TimeStop) <==> !hit && late
            &&& s is None <==> !hit && !late
        }),
{
}

/// A dearer close is never less of a reason to stop, and neither is a tighter multiple.
pub proof fn law_stop_grows(cost: int, dearer: int, credit: int, mult: int, tighter: int)
    requires
        cost <= dearer,
        0 < tighter <= mult,
        credit >= 0,
        stop_due(cost, credit, mult, false) is Some,
    ensures
        stop_due(dearer, credit, mult, false) is Some,
        stop_due(cost, credit, tighter, false) is Some,
{
    assert(tighter * credit <= mult * credit) by (nonlinear_arith)
        requires
            tighter <= mult,
            credit >= 0,
    ;
}

/// An open position is priced for its stops exactly where its slot exists and has a
/// stop-loss, or its time-stop is reached.
pub proof fn law_watched(app: App, p: ZeroDtePositionRow, now: ClockTime)
    ensures
        watched(app, p, now) <==> {
            let z = app.cfg.zerodte;
            &&& p.status@ == "open"@
            &&& 0 <= p.slot < z.slots@.len()
            &&& z.slots@[p.slot as int] < z.strategies@.len()
            &&& {
                let q = z.strategies@[z.slots@[p.slot as int] as int];
                ||| q.stop_loss_mult > 0
                ||| q.time_stop_hhmm is Some && {
                    let at = second_of_clock((q.time_stop_hhmm->0)@);
                    at is Some && now.nanos >= at->0 * 1_000_000_000
                }
            }
        },
{
}

/// The price of a close at a stop: 20 cents above the cost, so that it fills, and nothing
/// below zero. That of the standing close leaves the target of the credit as profit, to
/// the millionth.
pub proof fn law_close_price(cost: int, p: ZeroDtePositionRow)
    ensures
        cost >= -200_000 ==> stop_debit(cost) == cost + 200_000,
        cost < -200_000 ==> stop_debit(cost) == 0,
        ({
            let kept = p.entry_credit * (1_000_000 - p.profit_target_pct);
            let d = profit_debit(p);
            &&& kept >= 0 ==> d * 1_000_000 <= kept < (d + 1) * 1_000_000
            &&& kept < 0 ==> d == 0
        }),
{
}

/// A close trades the legs of the entry the other way round, in their number and at their
/// strikes, and pays the debit.
pub proof fn law_close_order(c: ZerodteClose, p: ZeroDtePositionRow, debit: int)
    requires
        is_close_of(c, p, debit),
    ensures
        c.order.symbol@ == p.underlying@,
        c.order.expiry_yyyymmdd@ == p.expiry@,
        i32::MIN <= p.quantity <= i32::MAX ==> c.order.quantity == p.quantity,
        c.order.net_credit == -debit,
        c.order.legs@.len() == legs_of_text(p.legs@).len(),
        forall|k: int|
            0 <= k < c.order.legs@.len() ==> {
                let (a, b) = (#[trigger] c.order.legs@[k], legs_of_text(p.legs@)[k]);
                &&& a.strike == b.strike
                &&& a.right == b.right
                &&& a.ratio == b.ratio
                &&& a.action != b.action
            },
{
}

/// A close is transmitted exactly where trading is allowed and its number is within the
/// size of an order.
pub proof fn law_close_allowed(app: App, p: ZeroDtePositionRow)
    requires
        i32::MIN <= p.quantity <= i32::MAX,
    ensures
        close_allowed(app, p) <==> !app.cfg.guardrails.read_only && p.quantity
            <= app.cfg.guardrails.max_contracts_per_order,
{
}

// --- after a restart -------------------------------------------------------

/// A stored position whose shorts are gone is over: an entry that never filled once it no
/// longer works, an open one at once. One that is held and has no close working gets it.
pub proof fn law_reconciled(status: Seq<char>, held: bool, entry_open: bool, close_open: bool)
    ensures
        ({
            let r = reconciled_to(status, held, entry_open, close_open);
            let waits = status == "pending"@;
            let runs = status == "open"@ || status == "closing"@;
            &&& r == ZerodteReconcile::PlaceClose <==> (waits || runs) && held && !close_open
            &&& r == ZerodteReconcile::Cancelled <==> waits && !held && !entry_open
            &&& r == ZerodteReconcile::Closed <==> runs && !held
            &&& r == ZerodteReconcile::Leave <==> !(waits || runs) || (held && close_open) || (waits
                && !held && entry_open)
        }),
{
    reveal_strlit("pending");
    reveal_strlit("open");
    reveal_strlit("closing");
    assert("pending"@.len() == 7);
    assert("open"@.len() == 4);
    assert("pending"@[0] == 'p');
    assert("closing"@[0] == 'c');
}

/// A position is held exactly where the broker shows a short of one of its sold legs; and
/// its close works exactly where one of the broker's open orders has its id.
pub proof fn law_held(
    positions: Seq<PositionRow>,
    p: ZeroDtePositionRow,
    open: Seq<OpenOrderInfo>,
)
    ensures
        is_held(positions, p) <==> exists|k: int, i: int|
            0 <= k < legs_of_text(p.legs@).len() && 0 <= i < positions.len() && {
                let l = #[trigger] legs_of_text(p.legs@)[k];
                &&& l.action == Side::Sell
                &&& crate::tui::order_laws::is_short_of(
                    #[trigger] positions[i],
                    p.underlying@,
                    l.right == Right::Call,
                    l.strike as int,
                    p.expiry@,
                )
            },
        close_working(p, open) <==> p.close_oid is Some && exists|i: int|
            0 <= i < open.len() && (#[trigger] open[i]).order_id@ == (p.close_oid->0)@,
{
    let legs = legs_of_text(p.legs@);
    assert forall|k: int, i: int|
        0 <= k < legs.len() && 0 <= i < positions.len() implies crate::tui::order_laws::is_short_of(
        #[trigger] positions[i],
        p.underlying@,
        (#[trigger] legs[k]).right == Right::Call,
        legs[k].strike as int,
        p.expiry@,
    ) == crate::data::holds_short(
        positions[i],
        p.underlying@,
        legs[k].right.spec_code(),
        legs[k].strike as int,
        p.expiry@,
    ) by {
        crate::tui::order_laws::lemma_short_of(
            positions[i],
            p.underlying@,
            legs[k].right,
            legs[k].strike as int,
            p.expiry@,
        );
    }
    if is_held(positions, p) {
        let k = choose|k: int|
            0 <= k < legs.len() && crate::tui::legs::leg_held(positions, p, #[trigger] legs[k]);
        let l = legs[k];
        let i = choose|i: int|
            0 <= i < positions.len() && crate::data::holds_short(
                #[trigger] positions[i],
                p.underlying@,
                l.right.spec_code(),
                l.strike as int,
                p.expiry@,
            );
        assert(positions[i] == positions[i] && legs[k] == l);
    }
}

} // verus!

//! What the status line and the notes tell: the amounts, numbers and ids that they are
//! about.

use vstd::prelude::*;
use crate::engine::types::SuggestionView;
use crate::fixed::{dec_text, int_text, ratio_text};
use crate::ibkr::OrderOutcome;
use crate::positions::collateral_of;
use crate::store::models::ZeroDtePositionRow;
use crate::text::{contains_text, stands_at};
use crate::tui::app::{App, Tab};
use crate::tui::detail::take_line;
use crate::tui::events::{
    dropped_text, event_text, fill_note, traded, zerodte_words, OrderEnd, ZerodteStep,
};
use crate::tui::orders::{
    outcome_status, outcome_view, verdict_of, verdict_text, OutcomeView, Verdict,
};
use crate::tui::panels::{list_title, title_text};
use crate::tui::rolls::{
    roll_preview_note, roll_preview_status, stop_status, RollStage, RollTarget,
};

verus! {

/// A text holds what stands in it.
proof fn lemma_tells(text: Seq<char>, front: Seq<char>, part: Seq<char>, back: Seq<char>)
    requires
        text == front + part + back,
    ensures
        contains_text(text, part),
{
    let k = front.len() as int;
    assert(text.subrange(k, k + part.len()) =~= part);
    assert(stands_at(text, part, k));
}

// --- orders ----------------------------------------------------------------

/// What came back from the broker is taken as it is: an id as a submitted order, margin and
/// commission as a preview, an error as a failure.
pub proof fn law_outcome(o: Result<OrderOutcome, String>)
    ensures
        o is Err ==> outcome_view(o) == OutcomeView::Failed(o->Err_0@),
        o is Ok && o->Ok_0 is Submitted ==> outcome_view(o) == OutcomeView::Submitted(
            o->Ok_0->Submitted_0@,
        ),
        o is Ok && o->Ok_0 is Preview ==> {
            let p = o->Ok_0->Preview_0;
            let v = outcome_view(o);
            &&& v is Preview
            &&& v->status == p.status@
            &&& p.initial_margin_after is Some ==> v->margin == Some(
                p.initial_margin_after->0 as int,
            )
            &&& p.initial_margin_after is None ==> v->margin is None
            &&& p.commission is Some ==> v->commission == Some(p.commission->0 as int)
            &&& p.commission is None ==> v->commission is None
        },
{
}

/// A submitted order is told with its id, and a failed one with the reason.
pub proof fn law_outcome_told(s: SuggestionView, preview: bool, o: OutcomeView)
    ensures
        o is Submitted ==> contains_text(outcome_status(s, preview, o), o->Submitted_0),
        o is Failed ==> contains_text(outcome_status(s, preview, o), o->Failed_0),
        o is Preview ==> contains_text(outcome_status(s, preview, o), o->status),
{
    let t = outcome_status(s, preview, o);
    let part = match o {
        OutcomeView::Submitted(id) => id,
        OutcomeView::Failed(e) => e,
        OutcomeView::Preview { status, .. } => status,
    };
    let front = t.take(t.len() - part.len());
    assert(t.len() >= part.len());
    assert(t =~= front + part + Seq::<char>::empty());
    lemma_tells(t, front, part, Seq::empty());
}

/// An order that is too large is told with its size and the limit; one over the cap with
/// the cash that would be tied up and the cap.
pub proof fn law_stop_told(app: App, s: SuggestionView, tied: int)
    requires
        tied == collateral_of(app.broker_positions@, app.broker_positions@.len() as int) + s.strike
            * 100 * s.quantity,
    ensures
        ({
            let t = verdict_text(app, s);
            let g = app.cfg.guardrails;
            &&& verdict_of(app, s) == Verdict::TooManyContracts ==> contains_text(
                t,
                int_text(s.quantity),
            ) && contains_text(t, int_text(g.max_contracts_per_order as int))
            &&& verdict_of(app, s) == Verdict::OverCap ==> contains_text(t, dec_text(tied, 0))
                && contains_text(t, dec_text(g.max_total_deployed as int, 0))
        }),
{
    let t = verdict_text(app, s);
    let g = app.cfg.guardrails;
    if verdict_of(app, s) == Verdict::TooManyContracts {
        let (a, b) = (int_text(s.quantity), int_text(g.max_contracts_per_order as int));
        let (f, m) = ("blocked: quantity "@, " exceeds max_contracts_per_order "@);
        assert(t =~= f + a + (m + b));
        lemma_tells(t, f, a, m + b);
        assert(t =~= (f + a + m) + b + Seq::<char>::empty());
        lemma_tells(t, f + a + m, b, Seq::empty());
    }
    if verdict_of(app, s) == Verdict::OverCap {
        let d = tied - s.strike * 100 * s.quantity;
        let (a, b) = (dec_text(tied, 0), dec_text(g.max_total_deployed as int, 0));
        let f = "blocked: total CSP collateral $"@;
        let m = " would exceed max_total_deployed $"@;
        let z = " ($"@ + dec_text(d, 0) + " already deployed)"@;
        assert(t =~= f + a + (m + b + z));
        lemma_tells(t, f, a, m + b + z);
        assert(t =~= (f + a + m) + b + z);
        lemma_tells(t, f + a + m, b, z);
    }
}

/// A fill is noted with the number and the price.
pub proof fn law_fill_noted(filled: int, price: int)
    ensures
        contains_text(fill_note(filled, price), dec_text(filled, 0)),
        contains_text(fill_note(filled, price), dec_text(price, 2)),
{
    let t = fill_note(filled, price);
    let (a, b) = (dec_text(filled, 0), dec_text(price, 2));
    assert(t =~= "filled "@ + a + (" @ "@ + b));
    lemma_tells(t, "filled "@, a, " @ "@ + b);
    assert(t =~= ("filled "@ + a + " @ "@) + b + Seq::<char>::empty());
    lemma_tells(t, "filled "@ + a + " @ "@, b, Seq::empty());
}

/// The target of a short is told with the price at which it is bought back, which leaves
/// the fraction of the credit as profit, and with that profit.
pub proof fn law_target_told(s: SuggestionView, tp: int)
    ensures
        contains_text(
            take_line(s, tp).text,
            ratio_text(s.limit_price * (1_000_000 - tp), 1_000_000_000_000, 2),
        ),
        contains_text(
            take_line(s, tp).text,
            ratio_text(s.premium_total * tp, 1_000_000_000_000, 0),
        ),
{
    let t = take_line(s, tp).text;
    let f = "  Take-profit   "@ + ratio_text(tp, 10_000, 0) + "% → buy back ~$"@;
    let a = ratio_text(s.limit_price * (1_000_000 - tp), 1_000_000_000_000, 2);
    let m = "/sh, bank ~$"@;
    let b = ratio_text(s.premium_total * tp, 1_000_000_000_000, 0);
    assert(t =~= f + a + (m + b));
    lemma_tells(t, f, a, m + b);
    assert(t =~= (f + a + m) + b + Seq::<char>::empty());
    lemma_tells(t, f + a + m, b, Seq::empty());
}

// --- events ----------------------------------------------------------------

/// Contracts traded exactly where the order filled, or some of it did.
pub proof fn law_traded(end: Option<OrderEnd>, filled: int)
    ensures
        traded(end, filled) <==> (end is Some && end->0 is Filled) || filled > 0,
{
}

/// Of an event the word on a roll is told first, then that on an automated position, and
/// else the order's own, with its id.
pub proof fn law_event_told(
    oid: Seq<char>,
    end: Option<OrderEnd>,
    filled: int,
    roll: Option<Seq<char>>,
    position: Option<Seq<char>>,
)
    ensures
        ({
            let t = event_text(oid, end, filled, roll, position);
            &&& roll is Some ==> t == roll->0
            &&& roll is None && position is Some ==> t == position->0
            &&& roll is None && position is None ==> contains_text(t, oid)
            &&& roll is None && position is None && end is None ==> contains_text(
                t,
                dec_text(filled, 0),
            )
        }),
{
    let t = event_text(oid, end, filled, roll, position);
    if roll is None && position is None {
        match end {
            Some(e) => {
                assert(t =~= "order "@ + oid + (": "@ + e.word()));
                lemma_tells(t, "order "@, oid, ": "@ + e.word());
            },
            None => {
                let (m, b) = (": partial fill "@, dec_text(filled, 0));
                assert(t =~= "order "@ + oid + (m + b));
                lemma_tells(t, "order "@, oid, m + b);
                assert(t =~= ("order "@ + oid + m) + b + Seq::<char>::empty());
                lemma_tells(t, "order "@ + oid + m, b, Seq::empty());
            },
        }
    }
}

/// A roll whose close ended without a fill is told with its symbol, and with what was
/// closed where some of it was.
pub proof fn law_dropped_told(symbol: Seq<char>, end: OrderEnd, filled: int)
    ensures
        contains_text(dropped_text(symbol, end, filled), symbol),
        filled > 0 ==> contains_text(dropped_text(symbol, end, filled), dec_text(filled, 0)),
{
    let t = dropped_text(symbol, end, filled);
    let (f, m) = ("roll "@, ": close "@ + end.word());
    if filled > 0 {
        let (p, b) = (" after partial fill ("@, dec_text(filled, 0));
        let z = " closed); residual short re-managed"@;
        assert(t =~= f + symbol + (m + (p + b + z)));
        lemma_tells(t, f, symbol, m + (p + b + z));
        assert(t =~= (f + symbol + m + p) + b + z);
        lemma_tells(t, f + symbol + m + p, b, z);
    } else {
        let z = "; new leg not opened (original short unchanged)"@;
        assert(t =~= f + symbol + (m + z));
        lemma_tells(t, f, symbol, m + z);
    }
}

/// A roll that would cost more than it brings is told with the difference.
pub proof fn law_debit_told(symbol: Seq<char>, target: RollTarget, cost: int, debit: int)
    requires
        debit == cost - target.credit,
    ensures
        contains_text(
            stop_status(RollStage::Debit, symbol, Some(target), cost, None),
            dec_text(debit, 2),
        ),
{
    let t = stop_status(RollStage::Debit, symbol, Some(target), cost, None);
    let (p, b) = (": market offers only a net debit ($"@, dec_text(debit, 2));
    let z = "/sh) — not transmitted; close manually to defend"@;
    assert(t =~= ("roll "@ + symbol + p) + b + z);
    lemma_tells(t, "roll "@ + symbol + p, b, z);
}

/// What is told of an automated position names its strategy; an entry that ended is told
/// with the word for it, and a close that could not be placed with the reason. Nothing is
/// told where nothing happened.
pub proof fn law_position_told(
    positions: Seq<ZeroDtePositionRow>,
    step: ZerodteStep,
    placed: Result<String, String>,
)
    ensures
        ({
            let w = zerodte_words(positions, step, placed);
            &&& w is None <==> step is Nothing
            &&& step is PlaceClose ==> contains_text(
                w->0,
                positions[step->PlaceClose_0 as int].strategy@,
            )
            &&& step is PlaceClose && placed is Err ==> contains_text(w->0, placed->Err_0@)
            &&& step is EntryEnded ==> contains_text(
                w->0,
                positions[step->EntryEnded_0 as int].strategy@,
            ) && contains_text(w->0, step->EntryEnded_1.word())
            &&& step is Closed ==> contains_text(w->0, positions[step->Closed_0 as int].strategy@)
        }),
{
    let f = "⚡ "@;
    let none = Seq::<char>::empty();
    match step {
        ZerodteStep::Nothing => {},
        ZerodteStep::PlaceClose(i) => {
            let t = zerodte_words(positions, step, placed)->0;
            let a = positions[i as int].strategy@;
            match placed {
                Ok(_) => {
                    let z = " filled → profit-close placed"@;
                    assert(t =~= f + a + z);
                    lemma_tells(t, f, a, z);
                },
                Err(e) => {
                    let m = " filled, profit-close failed: "@;
                    assert(t =~= f + a + (m + e@));
                    lemma_tells(t, f, a, m + e@);
                    assert(t =~= (f + a + m) + e@ + none);
                    lemma_tells(t, f + a + m, e@, none);
                },
            }
        },
        ZerodteStep::EntryEnded(i, e) => {
            let t = zerodte_words(positions, step, placed)->0;
            let (a, m, b) = (positions[i as int].strategy@, " entry "@, e.word());
            assert(t =~= f + a + (m + b));
            lemma_tells(t, f, a, m + b);
            assert(t =~= (f + a + m) + b + none);
            lemma_tells(t, f + a + m, b, none);
        },
        ZerodteStep::Closed(i) => {
            let t = zerodte_words(positions, step, placed)->0;
            let (a, z) = (positions[i as int].strategy@, " profit-closed"@);
            assert(t =~= f + a + z);
            lemma_tells(t, f, a, z);
        },
    }
}

/// A roll is previewed with the difference of its two prices, told as a credit where the
/// new leg brings at least what the close costs, and as a debit otherwise.
pub proof fn law_preview_told(
    s: SuggestionView,
    near_expiry: Seq<char>,
    target: RollTarget,
    cost: int,
    near: OutcomeView,
    far: OutcomeView,
    gap: int,
)
    requires
        target.credit >= cost ==> gap == target.credit - cost,
        target.credit < cost ==> gap == cost - target.credit,
    ensures
        ({
            let t = roll_preview_status(s, target, cost, near, far);
            let n = roll_preview_note(s, near_expiry, target, cost);
            &&& target.credit >= cost ==> contains_text(t, "credit $"@ + dec_text(gap, 2))
            &&& target.credit < cost ==> contains_text(t, "debit $"@ + dec_text(gap, 2))
            &&& target.credit >= cost ==> contains_text(n, "; net +"@ + dec_text(gap, 2))
            &&& target.credit < cost ==> contains_text(n, "; net -"@ + dec_text(gap, 2))
        }),
{
    reveal_strlit("credit");
    reveal_strlit("debit");
    reveal_strlit("credit $");
    reveal_strlit("debit $");
    reveal_strlit(" $");
    reveal_strlit("; net ");
    reveal_strlit("; net +");
    reveal_strlit("; net -");
    reveal_strlit("+");
    reveal_strlit("-");
    reveal_strlit("/sh");
    let t = roll_preview_status(s, target, cost, near, far);
    let n = roll_preview_note(s, near_expiry, target, cost);
    let g = dec_text(gap, 2);
    let (word, sign) = if target.credit >= cost {
        ("credit $"@, "; net +"@)
    } else {
        ("debit $"@, "; net -"@)
    };
    assert("credit"@ + " $"@ =~= "credit $"@);
    assert("debit"@ + " $"@ =~= "debit $"@);
    assert("; net "@ + "+"@ =~= "; net +"@);
    assert("; net "@ + "-"@ =~= "; net -"@);
    let part = word + g;
    let front = t.take(t.len() - part.len() - 3);
    assert(t =~= front + part + "/sh"@);
    lemma_tells(t, front, part, "/sh"@);
    let tail = sign + g;
    let head = n.take(n.len() - tail.len());
    assert(n =~= head + tail + Seq::<char>::empty());
    lemma_tells(n, head, tail, Seq::empty());
}

// --- titles ----------------------------------------------------------------

/// The title tells that the app is armed, and how many structures trade unattended where
/// any does.
pub proof fn law_title_told(app: App, millis: Option<u64>, auto: int)
    requires
        auto == App::automating(
            app.cfg.zerodte.strategies@,
            app.cfg.zerodte.strategies@.len() as int,
        ),
    ensures
        app.armed ==> contains_text(title_text(app, millis), "  ⚡ ARMED"@),
        auto != 0 ==> contains_text(
            title_text(app, millis),
            "  ⚡ "@ + int_text(auto) + " AUTO-TRADING"@,
        ),
{
    let t = title_text(app, millis);
    let none = Seq::<char>::empty();
    let badge = if auto == 0 {
        ""@
    } else {
        "  ⚡ "@ + int_text(auto) + " AUTO-TRADING"@
    };
    if app.armed {
        let part = "  ⚡ ARMED"@;
        let front = t.take(t.len() - badge.len() - part.len());
        assert(t =~= front + part + badge);
        lemma_tells(t, front, part, badge);
    }
    if auto != 0 {
        let front = t.take(t.len() - badge.len());
        assert(t =~= front + badge + none);
        lemma_tells(t, front, badge, none);
    }
}

/// The title of a list tells how many suggestions there are.
pub proof fn law_list_title(tab: Tab, n: int, noun: Seq<char>, elapsed: Option<u64>)
    requires
        n > 0,
    ensures
        contains_text(list_title(tab, n, noun, elapsed), " ("@ + int_text(n) + ")"@),
{
    reveal_strlit(") — ");
    reveal_strlit(")");
    reveal_strlit(" — ");
    let t = list_title(tab, n, noun, elapsed);
    let f = " "@ + tab.spec_title();
    let part = " ("@ + int_text(n) + ")"@;
    let z = " — "@ + noun + ", best yield first "@;
    assert(")"@ + " — "@ =~= ") — "@);
    assert(t =~= f + part + z);
    lemma_tells(t, f, part, z);
}

} // verus!

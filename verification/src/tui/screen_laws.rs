//! The amounts on the screens, in those of the suggestion that they describe.

use vstd::prelude::*;
use crate::dates::dashed_text;
use crate::engine::structures::assemble::StructureParams;
use crate::engine::structures::payoff::{breakevens_of, payoff, pop_of};
use crate::engine::types::{KindView, LegSide, Right, StructureKind, StructureLeg, SuggestionView};
use crate::fixed::{dec_text, int_text, ratio_text};
use crate::store::models::{JournalRow, WatchlistRow, WheelPositionRow};
use crate::text::lacks;
use crate::tui::app::{held, App};
use crate::tui::detail::{
    detail_of, leg_line, leg_lines, long_call, long_put, outer, short_call, short_put,
    structure_text_of, thesis_of,
};
use crate::tui::lines::{left_aligned, right_aligned, size_of, spaces, LineStyle, LineView};
use crate::tui::panels::{
    account_pieces, armed_pieces, band_detail, band_of, entry_cells, held_pieces, money_pieces,
    pop_part, quad_leg, quad_legs, quad_structure, quad_title, ready_pieces, settings_of, single,
    watch_cells, watch_pieces,
};
use crate::tui::ui::{cells_of, drop_lines, drop_row, move_lines, move_row, title_of};

verus! {

/// Whether one of the lines reads so.
pub open spec fn shows(l: Seq<LineView>, text: Seq<char>) -> bool {
    exists|i: int| 0 <= i < l.len() && (#[trigger] l[i]).text == text
}

/// Whether one of the lines reads so in the given style.
pub open spec fn shows_as(l: Seq<LineView>, style: LineStyle, text: Seq<char>) -> bool {
    exists|i: int|
        0 <= i < l.len() && (#[trigger] l[i]).text == text && l[i].style == style
}

// --- puts, calls and spreads -----------------------------------------------

/// The panel of a put shows the premium, the cash set aside, and the breakeven: the strike
/// less the premium per share. Where the delta is known it shows what it leaves of the
/// whole as the chance to win.
pub proof fn law_put_panel(s: SuggestionView, tp: int, armed: bool, status: Seq<char>, even: int)
    requires
        s.kind is SellPut,
        even + s.limit_price == s.strike,
    ensures
        ({
            let d = detail_of(s, tp, armed, status);
            &&& shows(
                d,
                "SELL "@ + int_text(s.quantity) + " "@ + s.symbol + " $"@ + dec_text(s.strike, 1)
                    + " put, expiring "@ + dashed_text(s.expiry) + " ("@ + int_text(s.dte) + "d)."@,
            )
            &&& shows(
                d,
                "  Collect now   $"@ + dec_text(s.premium_total, 0)
                    + "   (premium — yours to keep)"@,
            )
            &&& shows(
                d,
                "  Set aside     $"@ + dec_text(s.capital_required, 0) + "   (cash collateral)"@,
            )
            &&& shows(
                d,
                "  Breakeven     $"@ + dec_text(even, 2) + "   (strike − premium)"@,
            )
            &&& s.delta is Some ==> shows(
                d,
                "  Win chance    ~"@ + ratio_text(1_000_000 - s.delta->0, 10_000, 0) + "%   ("@
                    + dec_text(s.delta->0, 2) + "Δ → ~"@ + ratio_text(s.delta->0, 10_000, 0)
                    + "% chance of assignment)"@,
            )
        }),
{
    let d = detail_of(s, tp, armed, status);
    assert(d[0].text == "SELL "@ + int_text(s.quantity) + " "@ + s.symbol + " $"@ + dec_text(
        s.strike,
        1,
    ) + " put, expiring "@ + dashed_text(s.expiry) + " ("@ + int_text(s.dte) + "d)."@);
    assert(d[3].text == "  Collect now   $"@ + dec_text(s.premium_total, 0)
        + "   (premium — yours to keep)"@);
    assert(d[4].text == "  Set aside     $"@ + dec_text(s.capital_required, 0)
        + "   (cash collateral)"@);
    assert(d[5].text == "  Breakeven     $"@ + dec_text(even, 2) + "   (strike − premium)"@);
    if s.delta is Some {
        assert(d[6].text == "  Win chance    ~"@ + ratio_text(1_000_000 - s.delta->0, 10_000, 0)
            + "%   ("@ + dec_text(s.delta->0, 2) + "Δ → ~"@ + ratio_text(s.delta->0, 10_000, 0)
            + "% chance of assignment)"@);
    }
}

/// The panel of a spread shows its worst loss: the cash tied up less the credit; the
/// width of its strikes on all shares; and its breakeven.
pub proof fn law_spread_panel(
    s: SuggestionView,
    tp: int,
    armed: bool,
    status: Seq<char>,
    even: int,
    loss: int,
    width: int,
)
    requires
        s.kind is SellPutSpread,
        even + s.limit_price == s.strike,
        loss + s.premium_total == s.capital_required,
        width == (s.strike - s.kind->long_strike) * 100 * s.quantity,
    ensures
        ({
            let d = detail_of(s, tp, armed, status);
            &&& shows(
                d,
                "SELL "@ + int_text(s.quantity) + " "@ + s.symbol + " $"@ + dec_text(s.strike, 1)
                    + "/$"@ + dec_text(s.kind->long_strike, 1) + " put spread, expiring "@
                    + dashed_text(s.expiry) + " ("@ + int_text(s.dte) + "d)."@,
            )
            &&& shows(
                d,
                "  Net credit    $"@ + dec_text(s.premium_total, 0)
                    + "   (premium in − protection cost)"@,
            )
            &&& shows(
                d,
                "  Max loss      $"@ + dec_text(loss, 0) + "   (CAPPED — $"@ + dec_text(width, 0)
                    + " width minus credit)"@,
            )
            &&& shows(
                d,
                "  Breakeven     $"@ + dec_text(even, 2) + "   (short strike − net credit)"@,
            )
        }),
{
    let d = detail_of(s, tp, armed, status);
    assert(d[0].text == "SELL "@ + int_text(s.quantity) + " "@ + s.symbol + " $"@ + dec_text(
        s.strike,
        1,
    ) + "/$"@ + dec_text(s.kind->long_strike, 1) + " put spread, expiring "@ + dashed_text(s.expiry)
        + " ("@ + int_text(s.dte) + "d)."@);
    assert(d[3].text == "  Net credit    $"@ + dec_text(s.premium_total, 0)
        + "   (premium in − protection cost)"@);
    assert(d[4].text == "  Max loss      $"@ + dec_text(loss, 0) + "   (CAPPED — $"@ + dec_text(
        width,
        0,
    ) + " width minus credit)"@);
    assert(d[5].text == "  Breakeven     $"@ + dec_text(even, 2)
        + "   (short strike − net credit)"@);
}

/// The panels of a call, a close and a roll name the contract, its price or its target.
pub proof fn law_other_panels(s: SuggestionView, tp: int, armed: bool, status: Seq<char>)
    ensures
        ({
            let d = detail_of(s, tp, armed, status);
            let word = if s.right == Right::Put {
                "put"@
            } else {
                "call"@
            };
            &&& s.kind is SellCall ==> shows(
                d,
                "SELL "@ + int_text(s.quantity) + " "@ + s.symbol + " $"@ + dec_text(s.strike, 1)
                    + " call, expiring "@ + dashed_text(s.expiry) + " ("@ + int_text(s.dte)
                    + "d), against your shares."@,
            ) && shows(
                d,
                "  Collect now   $"@ + dec_text(s.premium_total, 0)
                    + "   (premium — yours to keep)"@,
            )
            &&& s.kind is CloseForProfit ==> shows(
                d,
                "BUY TO CLOSE "@ + int_text(s.quantity) + " "@ + s.symbol + " $"@ + dec_text(
                    s.strike,
                    1,
                ) + " "@ + word + ", ~$"@ + dec_text(s.limit_price, 2) + "/sh ($"@ + dec_text(
                    s.premium_total,
                    0,
                ) + " total)."@,
            )
            &&& s.kind is Roll ==> shows(
                d,
                "ROLL "@ + int_text(s.quantity) + " "@ + s.symbol + " $"@ + dec_text(s.strike, 1)
                    + " "@ + word + " → $"@ + dec_text(s.kind->to_strike, 1) + " @ "@ + dashed_text(
                    s.kind->to_expiry,
                ) + "."@,
            )
        }),
{
    let d = detail_of(s, tp, armed, status);
    let first = d[0];
    if s.kind is SellCall {
        assert(d[0].text == first.text);
        assert(d[3].text == "  Collect now   $"@ + dec_text(s.premium_total, 0)
            + "   (premium — yours to keep)"@);
    }
}

/// The panel offers to execute exactly while the app is armed, and ends in the status.
pub proof fn law_panel_end(s: SuggestionView, tp: int, armed: bool, status: Seq<char>)
    ensures
        ({
            let d = detail_of(s, tp, armed, status);
            let n = d.len() as int;
            &&& n >= 3
            &&& d[n - 1].text == "  "@ + status
            &&& armed ==> d[n - 2].style is Alarm && d[n - 2].text
                == "⚡ ARMED — [x] EXECUTE LIVE   ·   [A] disarm   ·   [p] preview   ·   [Esc] back"@
            &&& !armed ==> d[n - 2].style is Keys && d[n - 2].text
                == "[p] preview what-if    [A] arm    [x] execute (arm first)    [Esc] back"@
        }),
{
}

// --- structures ------------------------------------------------------------

/// Whether `k` is the highest strike of the legs on that side and right, or the lowest.
pub open spec fn is_outer(
    legs: Seq<StructureLeg>,
    n: int,
    side: LegSide,
    right: Right,
    highest: bool,
    k: int,
) -> bool {
    &&& exists|i: int|
        0 <= i < n && (#[trigger] legs[i]).side == side && legs[i].right == right && legs[i].strike
            == k
    &&& forall|i: int|
        0 <= i < n && (#[trigger] legs[i]).side == side && legs[i].right == right ==> (highest
            ==> legs[i].strike <= k) && (!highest ==> legs[i].strike >= k)
}

proof fn lemma_outer(legs: Seq<StructureLeg>, n: int, side: LegSide, right: Right, highest: bool)
    requires
        0 <= n <= legs.len(),
    ensures
        ({
            let r = outer(legs, n, side, right, highest);
            &&& r is Some ==> is_outer(legs, n, side, right, highest, r->0)
            &&& r is None ==> forall|i: int|
                0 <= i < n ==> (#[trigger] legs[i]).side != side || legs[i].right != right
        }),
    decreases n,
{
    if n > 0 {
        lemma_outer(legs, n - 1, side, right, highest);
        let before = outer(legs, n - 1, side, right, highest);
        let r = outer(legs, n, side, right, highest);
        if r is Some {
            if r == before {
                let i = choose|i: int|
                    0 <= i < n - 1 && (#[trigger] legs[i]).side == side && legs[i].right == right
                        && legs[i].strike == before->0;
                assert(legs[i].strike == r->0);
            } else {
                assert(legs[n - 1].strike == r->0);
            }
        }
    }
}

/// The strikes that a bet is told by: the highest put and the lowest call that are sold,
/// the lowest put and the highest call that are bought.
pub proof fn law_told_strikes(legs: Seq<StructureLeg>, k: int)
    ensures
        ({
            let n = legs.len() as int;
            &&& short_put(legs) == Some(k) <==> is_outer(
                legs,
                n,
                LegSide::Sell,
                Right::Put,
                true,
                k,
            )
            &&& short_call(legs) == Some(k) <==> is_outer(
                legs,
                n,
                LegSide::Sell,
                Right::Call,
                false,
                k,
            )
            &&& long_put(legs) == Some(k) <==> is_outer(legs, n, LegSide::Buy, Right::Put, false, k)
            &&& long_call(legs) == Some(k) <==> is_outer(
                legs,
                n,
                LegSide::Buy,
                Right::Call,
                true,
                k,
            )
        }),
{
    lemma_outer_unique(legs, LegSide::Sell, Right::Put, true, k);
    lemma_outer_unique(legs, LegSide::Sell, Right::Call, false, k);
    lemma_outer_unique(legs, LegSide::Buy, Right::Put, false, k);
    lemma_outer_unique(legs, LegSide::Buy, Right::Call, true, k);
}

proof fn lemma_outer_unique(
    legs: Seq<StructureLeg>,
    side: LegSide,
    right: Right,
    highest: bool,
    k: int,
)
    ensures
        outer(legs, legs.len() as int, side, right, highest) == Some(k) <==> is_outer(
            legs,
            legs.len() as int,
            side,
            right,
            highest,
            k,
        ),
{
    let n = legs.len() as int;
    lemma_outer(legs, n, side, right, highest);
    if is_outer(legs, n, side, right, highest, k) {
        let i = choose|i: int|
            0 <= i < n && (#[trigger] legs[i]).side == side && legs[i].right == right
                && legs[i].strike == k;
        let r = outer(legs, n, side, right, highest);
        assert(r is Some);
        let j = choose|j: int|
            0 <= j < n && (#[trigger] legs[j]).side == side && legs[j].right == right
                && legs[j].strike == r->0;
        assert(legs[i].strike == legs[j].strike);
    }
}

/// A leg is listed with its side, strike, right and price.
pub proof fn law_leg_line(l: StructureLeg)
    ensures
        l.side == LegSide::Sell && l.right == Right::Put ==> leg_line(l).text == "  "@ + "SELL"@
            + "  $"@ + dec_text(l.strike as int, 0) + "P"@ + "  @ $"@ + dec_text(l.price as int, 2)
            + " (short — the bet)"@,
        l.side == LegSide::Sell && l.right == Right::Call ==> leg_line(l).text == "  "@ + "SELL"@
            + "  $"@ + dec_text(l.strike as int, 0) + "C"@ + "  @ $"@ + dec_text(l.price as int, 2)
            + " (short — the bet)"@,
        l.side == LegSide::Buy && l.right == Right::Put ==> leg_line(l).text == "  "@ + "BUY "@
            + "  $"@ + dec_text(l.strike as int, 0) + "P"@ + "  @ $"@ + dec_text(l.price as int, 2)
            + " (wing — your protection)"@,
        l.side == LegSide::Buy && l.right == Right::Call ==> leg_line(l).text == "  "@ + "BUY "@
            + "  $"@ + dec_text(l.strike as int, 0) + "C"@ + "  @ $"@ + dec_text(l.price as int, 2)
            + " (wing — your protection)"@,
{
}

proof fn lemma_leg_lines(legs: Seq<StructureLeg>, n: int)
    requires
        0 <= n <= legs.len(),
    ensures
        leg_lines(legs, n).len() == n,
        forall|i: int| 0 <= i < n ==> #[trigger] leg_lines(legs, n)[i] == leg_line(legs[i]),
    decreases n,
{
    if n > 0 {
        lemma_leg_lines(legs, n - 1);
    }
}

/// The panel of a structure lists each of its legs, and shows the credit and what is at
/// risk: for a strangle without a cap, for every other structure as the most that can be
/// lost.
pub proof fn law_structure_panel(s: SuggestionView, tp: int, armed: bool, status: Seq<char>)
    requires
        s.kind is OpenStructure,
    ensures
        ({
            let d = detail_of(s, tp, armed, status);
            let legs = s.kind->OpenStructure_legs;
            let naked = s.kind->OpenStructure_kind == StructureKind::ShortStrangle;
            &&& forall|i: int|
                0 <= i < legs.len() ==> shows(d, leg_line(#[trigger] legs[i]).text)
            &&& shows(
                d,
                "  Collect now   $"@ + dec_text(s.premium_total, 0)
                    + "   (the credit — yours to keep if you win)"@,
            )
            &&& naked ==> shows(
                d,
                "  Risk          $"@ + dec_text(s.capital_required, 0)
                    + "   (NAKED — effectively uncapped on a gap)"@,
            ) && shows(d, "⚠ NAKED — needs a naked-options permission tier; size small."@)
            &&& !naked ==> shows(
                d,
                "  Risk up to    $"@ + dec_text(s.capital_required, 0)
                    + "   (the MOST you can lose — capped by the wings)"@,
            )
        }),
{
    let d = detail_of(s, tp, armed, status);
    let legs = s.kind->OpenStructure_legs;
    let kind = s.kind->OpenStructure_kind;
    let naked = kind == StructureKind::ShortStrangle;
    assert(kind.naked() == naked);
    let head = Seq::<LineView>::empty().push(
        crate::tui::lines::plain(
            "OPEN "@ + int_text(s.quantity) + " "@ + s.symbol + " "@ + kind.spec_label() + " — "@
                + crate::tui::detail::when_of(s) + " ("@ + dashed_text(s.expiry) + ")."@,
        ),
    ).push(crate::tui::lines::plain(""@));
    let told = thesis_of(head, s, kind, legs);
    let at = told.len() + (if naked {
        1int
    } else {
        0
    }) + 2;
    let n = legs.len() as int;
    lemma_leg_lines(legs, n);
    let body = structure_text_of(Seq::empty(), s, kind, legs);
    lemma_structure_body(s, kind, legs, head, told, at);
    assert forall|i: int| 0 <= i < n implies shows(d, leg_line(#[trigger] legs[i]).text) by {
        assert(d[at + i] == body[at + i]);
    }
    assert(d[at + n + 1] == body[at + n + 1]);
    assert(d[at + n + 2] == body[at + n + 2]);
    if naked {
        assert(d[at - 3] == body[at - 3]);
    }
}

#[verifier::rlimit(40)]
proof fn lemma_structure_body(
    s: SuggestionView,
    kind: StructureKind,
    legs: Seq<StructureLeg>,
    head: Seq<LineView>,
    told: Seq<LineView>,
    at: int,
)
    requires
        head == Seq::<LineView>::empty().push(
            crate::tui::lines::plain(
                "OPEN "@ + int_text(s.quantity) + " "@ + s.symbol + " "@ + kind.spec_label()
                    + " — "@ + crate::tui::detail::when_of(s) + " ("@ + dashed_text(s.expiry)
                    + ")."@,
            ),
        ).push(crate::tui::lines::plain(""@)),
        told == thesis_of(head, s, kind, legs),
        at == told.len() + (if kind.naked() {
            1int
        } else {
            0
        }) + 2,
        leg_lines(legs, legs.len() as int).len() == legs.len(),
        forall|i: int|
            0 <= i < legs.len() ==> #[trigger] leg_lines(legs, legs.len() as int)[i] == leg_line(
                legs[i],
            ),
    ensures
        ({
            let body = structure_text_of(Seq::empty(), s, kind, legs);
            let n = legs.len() as int;
            &&& body.len() > at + n + 2
            &&& forall|i: int| 0 <= i < n ==> body[at + i] == leg_line(#[trigger] legs[i])
            &&& body[at + n + 1].text == "  Collect now   $"@ + dec_text(s.premium_total, 0)
                + "   (the credit — yours to keep if you win)"@
            &&& kind.naked() ==> body[at + n + 2].text == "  Risk          $"@ + dec_text(
                s.capital_required,
                0,
            ) + "   (NAKED — effectively uncapped on a gap)"@
            &&& !kind.naked() ==> body[at + n + 2].text == "  Risk up to    $"@ + dec_text(
                s.capital_required,
                0,
            ) + "   (the MOST you can lose — capped by the wings)"@
            &&& kind.naked() ==> at >= 3 && body[at - 3].text
                == "⚠ NAKED — needs a naked-options permission tier; size small."@
        }),
{
}

// --- bets ------------------------------------------------------------------

/// When a structure is settled: today where no day is left, and else at its expiry.
pub open spec fn settles(s: SuggestionView, text: Seq<char>) -> bool {
    &&& s.dte == 0 ==> text == "today's close"@
    &&& s.dte != 0 ==> text == "the "@ + dashed_text(s.expiry) + " close"@
}

/// The bet of a condor: the price settles between its shorts, earns between its
/// breakevens, and loses no more than the worst loss beyond its wings.
pub proof fn law_condor_bet(
    l: Seq<LineView>,
    s: SuggestionView,
    legs: Seq<StructureLeg>,
    at: (int, int, int, int),
    close: Seq<char>,
)
    requires
        long_put(legs) == Some(at.0),
        short_put(legs) == Some(at.1),
        short_call(legs) == Some(at.2),
        long_call(legs) == Some(at.3),
        settles(s, close),
    ensures
        ({
            let t = thesis_of(l, s, StructureKind::IronCondor, legs);
            let zeros = breakevens_of(legs);
            &&& shows(
                t,
                "YOU'RE BETTING "@ + s.symbol + " (now $"@ + dec_text(s.underlying_price, 0)
                    + ") goes nowhere — settles between $"@ + dec_text(at.1, 0) + " and $"@
                    + dec_text(at.2, 0) + " by "@ + close + "."@,
            )
            &&& zeros.len() > 0 ==> shows_as(
                t,
                LineStyle::Good,
                "  WIN  → keep up to $"@ + dec_text(s.premium_total, 0)
                    + ": full credit anywhere $"@ + dec_text(at.1, 0) + "–$"@ + dec_text(at.2, 0)
                    + ", still green $"@ + dec_text(zeros.first(), 0) + "–$"@ + dec_text(
                    zeros.last(),
                    0,
                ) + "."@,
            )
            &&& shows_as(
                t,
                LineStyle::Warn,
                "  LOSE → if it breaks out; loss CAPPED at $"@ + dec_text(s.capital_required, 0)
                    + " once below $"@ + dec_text(at.0, 0) + " or above $"@ + dec_text(at.3, 0)
                    + "."@,
            )
        }),
{
    let t = thesis_of(l, s, StructureKind::IronCondor, legs);
    let n = l.len() as int;
    assert(shows(t, t[n].text));
    assert(shows_as(t, t[n + 1].style, t[n + 1].text));
    if breakevens_of(legs).len() > 0 {
        assert(shows_as(t, t[n + 2].style, t[n + 2].text));
    }
}

/// The bet of a put spread: the price stays above its short put, and loses no more than
/// the worst loss below its long put.
pub proof fn law_put_credit_bet(
    l: Seq<LineView>,
    s: SuggestionView,
    legs: Seq<StructureLeg>,
    short: int,
    long: int,
    close: Seq<char>,
)
    requires
        short_put(legs) == Some(short),
        long_put(legs) == Some(long),
        breakevens_of(legs).len() > 0,
        settles(s, close),
    ensures
        ({
            let t = thesis_of(l, s, StructureKind::PutCreditSpread, legs);
            let even = breakevens_of(legs).first();
            &&& shows(
                t,
                "YOU'RE BETTING "@ + s.symbol + " (now $"@ + dec_text(s.underlying_price, 0)
                    + ") STAYS ABOVE $"@ + dec_text(short, 0) + " (doesn't fall much) by "@ + close
                    + "."@,
            )
            &&& shows_as(
                t,
                LineStyle::Good,
                "  WIN  → keep the full $"@ + dec_text(s.premium_total, 0) + " above $"@ + dec_text(
                    short,
                    0,
                ) + "; profitable above $"@ + dec_text(even, 0) + "."@,
            )
            &&& shows_as(
                t,
                LineStyle::Warn,
                "  LOSE → if it falls below $"@ + dec_text(even, 0) + "; CAPPED at $"@ + dec_text(
                    s.capital_required,
                    0,
                ) + " once below $"@ + dec_text(long, 0) + "."@,
            )
        }),
{
    let t = thesis_of(l, s, StructureKind::PutCreditSpread, legs);
    let n = l.len() as int;
    assert(shows(t, t[n].text));
    assert(shows_as(t, t[n + 1].style, t[n + 1].text));
    assert(shows_as(t, t[n + 2].style, t[n + 2].text));
}

/// The bet of a call spread: the price stays below its short call, and loses no more than
/// the worst loss above its long call.
pub proof fn law_call_credit_bet(
    l: Seq<LineView>,
    s: SuggestionView,
    legs: Seq<StructureLeg>,
    short: int,
    long: int,
    close: Seq<char>,
)
    requires
        short_call(legs) == Some(short),
        long_call(legs) == Some(long),
        breakevens_of(legs).len() > 0,
        settles(s, close),
    ensures
        ({
            let t = thesis_of(l, s, StructureKind::CallCreditSpread, legs);
            let even = breakevens_of(legs).last();
            &&& shows(
                t,
                "YOU'RE BETTING "@ + s.symbol + " (now $"@ + dec_text(s.underlying_price, 0)
                    + ") STAYS BELOW $"@ + dec_text(short, 0) + " (doesn't rally much) by "@ + close
                    + "."@,
            )
            &&& shows_as(
                t,
                LineStyle::Good,
                "  WIN  → keep the full $"@ + dec_text(s.premium_total, 0) + " below $"@ + dec_text(
                    short,
                    0,
                ) + "; profitable below $"@ + dec_text(even, 0) + "."@,
            )
            &&& shows_as(
                t,
                LineStyle::Warn,
                "  LOSE → if it rises above $"@ + dec_text(even, 0) + "; CAPPED at $"@ + dec_text(
                    s.capital_required,
                    0,
                ) + " once above $"@ + dec_text(long, 0) + "."@,
            )
        }),
{
    let t = thesis_of(l, s, StructureKind::CallCreditSpread, legs);
    let n = l.len() as int;
    assert(shows(t, t[n].text));
    assert(shows_as(t, t[n + 1].style, t[n + 1].text));
    assert(shows_as(t, t[n + 2].style, t[n + 2].text));
}

/// The bet of a strangle: the price stays between its shorts, and its loss beyond them is
/// told in the style of an alarm.
pub proof fn law_strangle_bet(
    l: Seq<LineView>,
    s: SuggestionView,
    legs: Seq<StructureLeg>,
    put: int,
    call: int,
    close: Seq<char>,
)
    requires
        short_put(legs) == Some(put),
        short_call(legs) == Some(call),
        breakevens_of(legs).len() > 0,
        settles(s, close),
    ensures
        ({
            let t = thesis_of(l, s, StructureKind::ShortStrangle, legs);
            let zeros = breakevens_of(legs);
            &&& shows(
                t,
                "YOU'RE BETTING "@ + s.symbol + " (now $"@ + dec_text(s.underlying_price, 0)
                    + ") stays between $"@ + dec_text(put, 0) + " and $"@ + dec_text(call, 0)
                    + " by "@ + close + "."@,
            )
            &&& shows_as(
                t,
                LineStyle::Good,
                "  WIN  → keep $"@ + dec_text(s.premium_total, 0)
                    + " if it settles between the breakevens $"@ + dec_text(zeros.first(), 0)
                    + "–$"@ + dec_text(zeros.last(), 0) + "."@,
            )
            &&& shows_as(
                t,
                LineStyle::Alarm,
                "  LOSE → UNCAPPED past the shorts (no wings) — a big gap can be ruinous."@,
            )
        }),
{
    let t = thesis_of(l, s, StructureKind::ShortStrangle, legs);
    let n = l.len() as int;
    assert(shows(t, t[n].text));
    assert(shows_as(t, t[n + 1].style, t[n + 1].text));
    assert(shows_as(t, t[n + 2].style, t[n + 2].text));
}

/// The bets of the two flies: an iron fly pins at its short strike and loses no more than
/// the worst loss beyond its wings; a broken-wing fly loses only below its breakeven.
pub proof fn law_fly_bets(
    l: Seq<LineView>,
    s: SuggestionView,
    legs: Seq<StructureLeg>,
    at: (int, int, int),
    close: Seq<char>,
)
    requires
        short_put(legs) == Some(at.1),
        long_put(legs) == Some(at.0),
        long_call(legs) == Some(at.2),
        breakevens_of(legs).len() > 0,
        settles(s, close),
    ensures
        ({
            let t = thesis_of(l, s, StructureKind::IronFly, legs);
            let b = thesis_of(l, s, StructureKind::BrokenWingButterfly, legs);
            let zeros = breakevens_of(legs);
            &&& shows(
                t,
                "YOU'RE BETTING "@ + s.symbol + " (now $"@ + dec_text(s.underlying_price, 0)
                    + ") PINS near $"@ + dec_text(at.1, 0) + " — a tight range — by "@ + close
                    + "."@,
            )
            &&& shows_as(
                t,
                LineStyle::Good,
                "  WIN  → profitable $"@ + dec_text(zeros.first(), 0) + "–$"@ + dec_text(
                    zeros.last(),
                    0,
                ) + "; most of the $"@ + dec_text(s.premium_total, 0) + " if it lands right at $"@
                    + dec_text(at.1, 0) + "."@,
            )
            &&& shows_as(
                t,
                LineStyle::Warn,
                "  LOSE → outside the breakevens; CAPPED at $"@ + dec_text(s.capital_required, 0)
                    + " past $"@ + dec_text(at.0, 0) + " / $"@ + dec_text(at.2, 0) + "."@,
            )
            &&& shows_as(
                b,
                LineStyle::Good,
                "  WIN  → keep $"@ + dec_text(s.premium_total, 0)
                    + " as long as it closes above $"@ + dec_text(zeros.first(), 0)
                    + "; best near $"@ + dec_text(at.1, 0) + "."@,
            )
            &&& shows_as(
                b,
                LineStyle::Warn,
                "  LOSE → only on a drop below breakeven; CAPPED at $"@ + dec_text(
                    s.capital_required,
                    0,
                ) + "."@,
            )
        }),
{
    let t = thesis_of(l, s, StructureKind::IronFly, legs);
    let b = thesis_of(l, s, StructureKind::BrokenWingButterfly, legs);
    let n = l.len() as int;
    assert(shows(t, t[n].text));
    assert(shows_as(t, t[n + 1].style, t[n + 1].text));
    assert(shows_as(t, t[n + 2].style, t[n + 2].text));
    assert(shows_as(b, b[n + 1].style, b[n + 1].text));
    assert(shows_as(b, b[n + 2].style, b[n + 2].text));
}

// --- tables ----------------------------------------------------------------

/// A row of the table of falls: the price after the fall, to the millionth below, and what
/// the put earns there, in green exactly where it is no loss. `at` is that price, `pnl`
/// what is earned.
pub proof fn law_fall_row(
    spot: int,
    short: int,
    credit: int,
    shares: int,
    pct: int,
    at: int,
    pnl: int,
)
    requires
        100 * at <= spot * (100 - pct) < 100 * (at + 1),
        at >= short ==> pnl == credit * shares,
        at < short ==> pnl == (credit - (short - at)) * shares,
    ensures
        ({
            let r = drop_row(spot, short, credit, None, shares, pct);
            &&& r.style is Good <==> pnl >= 0
            &&& r.style is Bad <==> pnl < 0
            &&& r.text == "    −"@ + right_aligned(int_text(pct), 2) + "%  →  $"@ + right_aligned(
                dec_text(at, 2),
                8,
            ) + "   "@ + (if pnl >= 0 {
                "+"@
            } else {
                "−"@
            }) + "$"@ + right_aligned(size_of(pnl, 0), 9) + (if at >= short {
                "   · above strike"@
            } else {
                ""@
            })
        }),
{
    assert(spot * (100 - pct) / 100 == at) by (nonlinear_arith)
        requires
            100 * at <= spot * (100 - pct) < 100 * (at + 1),
    ;
    crate::curve_laws::law_put_outcome(at, short, credit, short, shares);
}

/// The table of falls has a heading and the falls of 5, 10, 20, 30 and 40 percent; there is
/// none without a price.
pub proof fn law_fall_table(spot: int, short: int, credit: int, long: Option<int>, shares: int)
    ensures
        ({
            let t = drop_lines(spot, short, credit, long, shares);
            &&& spot <= 0 ==> t.len() == 0
            &&& spot > 0 ==> t.len() == 6 && t[1] == drop_row(spot, short, credit, long, shares, 5)
                && t[2] == drop_row(spot, short, credit, long, shares, 10) && t[3] == drop_row(
                spot,
                short,
                credit,
                long,
                shares,
                20,
            ) && t[4] == drop_row(spot, short, credit, long, shares, 30) && t[5] == drop_row(
                spot,
                short,
                credit,
                long,
                shares,
                40,
            )
        }),
{
}

/// A row of the table of moves: the close after the move, to the millionth below, and what
/// all shares earn there.
pub proof fn law_move_row(
    legs: Seq<StructureLeg>,
    spot: int,
    shares: int,
    permille: int,
    label: Seq<char>,
    at: int,
)
    requires
        1000 * at <= spot * (1000 + permille) < 1000 * (at + 1),
    ensures
        ({
            let r = move_row(legs, spot, shares, permille, label);
            let pnl = payoff(legs, at) * shares;
            &&& r.style is Good <==> pnl >= 0
            &&& r.style is Bad <==> pnl < 0
            &&& r.text == "    "@ + label + "%  →  $"@ + right_aligned(dec_text(at, 0), 8) + "   "@
                + (if pnl >= 0 {
                "+"@
            } else {
                "−"@
            }) + "$"@ + right_aligned(size_of(pnl, 0), 7) + (if permille == 0 {
                "  (flat)"@
            } else {
                ""@
            })
        }),
{
    assert(spot * (1000 + permille) / 1000 == at) by (nonlinear_arith)
        requires
            1000 * at <= spot * (1000 + permille) < 1000 * (at + 1),
    ;
}

/// The table of moves has a heading and the moves of 2, 1 and half a percent to either
/// side, and none; there is no table without a price.
pub proof fn law_move_table(legs: Seq<StructureLeg>, spot: int, symbol: Seq<char>, shares: int)
    ensures
        ({
            let t = move_lines(legs, spot, symbol, shares);
            &&& spot <= 0 ==> t.len() == 0
            &&& spot > 0 ==> t.len() == 8 && t[1] == move_row(legs, spot, shares, -20, " -2.0"@)
                && t[2] == move_row(legs, spot, shares, -10, " -1.0"@) && t[3] == move_row(
                legs,
                spot,
                shares,
                -5,
                " -0.5"@,
            ) && t[4] == move_row(legs, spot, shares, 0, " +0.0"@) && t[5] == move_row(
                legs,
                spot,
                shares,
                5,
                " +0.5"@,
            ) && t[6] == move_row(legs, spot, shares, 10, " +1.0"@) && t[7] == move_row(
                legs,
                spot,
                shares,
                20,
                " +2.0"@,
            )
        }),
{
}

/// A suggestion is listed by its symbol, strike, expiry, days, delta, price, yield and
/// capital, in this order.
pub proof fn law_cells(s: SuggestionView)
    ensures
        ({
            let c = cells_of(s);
            &&& c.len() == 9
            &&& c[0] == s.symbol
            &&& c[2] == dec_text(s.strike, 1)
            &&& c[3] == dashed_text(s.expiry)
            &&& c[4] == int_text(s.dte)
            &&& s.delta is Some ==> c[5] == dec_text(s.delta->0, 2)
            &&& s.delta is None ==> c[5] == "-"@
            &&& c[6] == dec_text(s.limit_price, 2)
            &&& c[7] == ratio_text(s.annualized_yield, 10_000_000, 0) + "%"@
            &&& s.capital_required > 0 ==> c[8] == dec_text(s.capital_required, 0)
            &&& s.capital_required <= 0 ==> c[8] == "—"@
        }),
{
}

/// Aligned text is the text and spaces up to the width, in front of it or behind it.
pub proof fn law_aligned(s: Seq<char>, w: nat)
    ensures
        ({
            let (r, l) = (right_aligned(s, w), left_aligned(s, w));
            &&& s.len() >= w ==> r == s && l == s
            &&& s.len() < w ==> {
                &&& r.len() == w && l.len() == w
                &&& r.skip(w - s.len()) == s && l.take(s.len() as int) == s
                &&& forall|i: int| 0 <= i < w - s.len() ==> #[trigger] r[i] == ' '
                &&& forall|i: int| s.len() <= i < w ==> #[trigger] l[i] == ' '
            }
        }),
{
    if s.len() < w {
        let gap = spaces((w - s.len()) as nat);
        assert((gap + s).skip(w - s.len()) =~= s);
        assert((s + gap).take(s.len() as int) =~= s);
    }
}

// --- counts and badges -----------------------------------------------------

/// What a further strategy adds to the number that trade unattended, and a further position
/// to the number that are open.
pub proof fn law_counts(
    list: Seq<StructureParams>,
    rows: Seq<WheelPositionRow>,
    n: int,
)
    requires
        0 <= n,
    ensures
        App::automating(list, 0) == 0,
        n < list.len() && list[n].automate ==> App::automating(list, n + 1) == App::automating(
            list,
            n,
        ) + 1,
        n < list.len() && !list[n].automate ==> App::automating(list, n + 1) == App::automating(
            list,
            n,
        ),
        App::open_among(rows, 0) == 0,
        ({
            let t = rows[n].state@;
            let open = t == "ShortPut"@ || t == "HedgedShortPut"@ || t == "LongShares"@ || t
                == "ShortCall"@;
            &&& n < rows.len() && open ==> App::open_among(rows, n + 1) == App::open_among(rows, n)
                + 1
            &&& n < rows.len() && !open ==> App::open_among(rows, n + 1) == App::open_among(rows, n)
        }),
{
}

/// A slot that trades unattended is marked as such in the style of an alarm, and no other
/// is.
pub proof fn law_slot_badge(p: StructureParams, i: int, focused: bool)
    ensures
        ({
            let t = quad_title(Some(p), i, focused);
            &&& t.len() == 2
            &&& p.automate <==> t[1].style is Alarm
            &&& p.automate ==> t[1].text == " ⚡AUTO "@
            &&& !p.automate ==> t[1].text == " manual "@
        }),
{
}

/// A quadrant shows the credit, the worst loss and the number of contracts.
pub proof fn law_quadrant_money(s: SuggestionView)
    ensures
        shows_as(money_pieces(s), LineStyle::Good, "$"@ + dec_text(s.premium_total, 0)),
        shows_as(money_pieces(s), LineStyle::Bad, "$"@ + dec_text(s.capital_required, 0)),
        shows(money_pieces(s), "   ×"@ + int_text(s.quantity)),
{
    let m = money_pieces(s);
    assert(m[1].text == "$"@ + dec_text(s.premium_total, 0));
    assert(m[4].text == "$"@ + dec_text(s.capital_required, 0));
    assert(m[5].text == "   ×"@ + int_text(s.quantity));
}

/// The band of breakevens names the first and the last of them.
pub proof fn law_band(b: Seq<int>)
    ensures
        b.len() == 0 ==> band_of(b) == "—"@,
        b.len() == 1 ==> band_of(b) == dec_text(b[0], 0),
        b.len() > 1 ==> band_of(b) == dec_text(b.first(), 0) + "–"@ + dec_text(b.last(), 0),
{
}

/// The band of deltas that is shown reaches ten hundredths to either side of the target,
/// between 5 and 95 hundredths.
pub proof fn law_band_shown(target: int, lo: int, hi: int)
    requires
        target >= 150_000 ==> lo == target - 100_000,
        target < 150_000 ==> lo == 50_000,
        target <= 850_000 ==> hi == target + 100_000,
        target > 850_000 ==> hi == 950_000,
    ensures
        band_detail(target) == "sell ≈ "@ + dec_text(target, 2) + "Δ puts  (band "@ + dec_text(lo, 2)
            + "–"@ + dec_text(hi, 2) + "Δ)"@,
{
}

/// A cursor stays within the rows that are left, and where it is if that row is left.
pub proof fn law_cursor_held(selected: int, len: int)
    requires
        selected >= 0,
        len >= 0,
    ensures
        selected < len ==> held(selected, len) == selected,
        selected >= len && len > 0 ==> held(selected, len) == len - 1,
        len == 0 ==> held(selected, len) == 0,
{
}

// --- overview --------------------------------------------------------------

/// The overview says that orders are transmitted exactly while the app is armed, in the
/// style of an alarm.
pub proof fn law_arming_shown(app: App)
    ensures
        shows_as(armed_pieces(app), LineStyle::Alarm, "ARMED — `x` transmits a live order"@)
            <==> app.armed,
        shows_as(armed_pieces(app), LineStyle::Dim, "disarmed (`A` to arm)"@) <==> !app.armed,
{
    let l = armed_pieces(app);
    assert(l.len() == 2);
    assert(l[0].style is Head);
    assert(l[1].style is Alarm <==> app.armed);
    assert(l[1].style is Dim <==> !app.armed);
    assert(shows_as(l, l[1].style, l[1].text));
}

/// The overview counts the watched symbols, the suggestions, and the positions that are
/// open and known; and it shows the three balances of the account.
pub proof fn law_overview_counts(app: App, open: int)
    requires
        open == App::open_among(app.positions@, app.positions@.len() as int),
    ensures
        shows(watch_pieces(app), int_text(app.watchlist@.len() as int) + " symbols"@),
        shows(ready_pieces(app), int_text(app.suggestions@.len() as int) + " ready"@),
        shows(
            held_pieces(app),
            int_text(open) + " open / "@ + int_text(app.positions@.len() as int) + " tracked"@,
        ),
        app.account is Some && app.account->0.net_liquidation is Some
            && app.account->0.total_cash is Some && app.account->0.buying_power is Some ==> shows(
            account_pieces(app),
            "net liq "@ + ("$"@ + dec_text(app.account->0.net_liquidation->0 as int, 0))
                + "   cash "@ + ("$"@ + dec_text(app.account->0.total_cash->0 as int, 0))
                + "   buying power "@ + ("$"@ + dec_text(
                app.account->0.buying_power->0 as int,
                0,
            )),
        ),
{
    let (w, r, h, a) = (
        watch_pieces(app),
        ready_pieces(app),
        held_pieces(app),
        account_pieces(app),
    );
    assert(shows(w, w[1].text));
    assert(shows(r, r[1].text));
    assert(shows(h, h[1].text));
    assert(shows(a, a[1].text));
}

/// A watched symbol is listed with its kind, whether it is advised on, and whether it may
/// be traded.
pub proof fn law_watch_cells(r: WatchlistRow)
    ensures
        ({
            let c = watch_cells(r);
            &&& c.len() == 6
            &&& c[0] == r.symbol@
            &&& c[1] == r.sec_type@
            &&& r.enabled != 0 ==> c[2] == "yes"@
            &&& r.enabled == 0 ==> c[2] == "no"@
            &&& r.tradable == Some(1i64) ==> c[3] == "tradable"@
            &&& r.tradable == Some(0i64) ==> c[3] == "blocked"@
            &&& r.tradable is None ==> c[3] == "unknown"@
            &&& r.conid is Some ==> c[4] == int_text(r.conid->0 as int)
            &&& r.notes is Some ==> c[5] == r.notes->0@
        }),
{
}

/// A journal entry is listed with its time, symbol, action, strike, number and status; its
/// time is the first eight characters behind the `T` of its stamp.
pub proof fn law_entry_cells(j: JournalRow, day: Seq<char>, time: Seq<char>)
    requires
        j.ts@ == day.push('T') + time,
        lacks(day, 'T'),
        lacks(time, 'T'),
        time.len() >= 8,
    ensures
        ({
            let c = entry_cells(j);
            &&& c.len() == 6
            &&& c[0] == time.take(8)
            &&& c[1] == j.symbol@
            &&& c[2] == j.action@
            &&& j.strike is Some ==> c[3] == dec_text(j.strike->0 as int, 1)
            &&& j.strike is None ==> c[3] == ""@
            &&& c[4] == int_text(j.quantity as int)
            &&& c[5] == j.status@
        }),
{
    let parts = seq![day, time];
    reveal_with_fuel(crate::text::join_text, 3);
    assert(parts.drop_last() =~= seq![day]);
    assert(crate::text::join_text(parts, 'T') =~= j.ts@);
    crate::text::law_split_undoes_join(parts, 'T');
    assert(crate::text::split_text(j.ts@, 'T')[1] == time);
}

/// A quadrant lists each leg of its structure below the credit and the breakevens, a leg
/// that is sold in the style of a short.
pub proof fn law_quadrant_legs(s: SuggestionView, i: int)
    requires
        s.kind is OpenStructure,
        0 <= i < s.kind->OpenStructure_legs.len(),
    ensures
        ({
            let q = quad_structure(s);
            let l = s.kind->OpenStructure_legs[i];
            let word = if l.side == LegSide::Sell {
                "sell"@
            } else {
                "buy "@
            };
            let code = if l.right == Right::Put {
                "P"@
            } else {
                "C"@
            };
            &&& q.len() == s.kind->OpenStructure_legs.len() + 3
            &&& q[i + 3].len() == 1
            &&& q[i + 3][0].text == "  "@ + word + " "@ + dec_text(l.strike as int, 0) + code
                + " @ "@ + dec_text(l.price as int, 2)
            &&& l.side == LegSide::Sell <==> q[i + 3][0].style is Short
        }),
{
    let legs = s.kind->OpenStructure_legs;
    let kind = s.kind->OpenStructure_kind;
    let head = Seq::<Seq<LineView>>::empty().push(money_pieces(s)).push(
        single(
            LineStyle::Dim,
            "breakeven "@ + band_of(breakevens_of(legs)) + "  ·  ror "@ + ratio_text(
                s.annualized_yield,
                10_000_000,
                0,
            ) + "%"@ + pop_part(kind, legs),
        ),
    ).push(single(LineStyle::Plain, ""@));
    lemma_quad_legs(head, legs, legs.len() as int);
    assert(quad_structure(s)[i + 3] == quad_leg(legs[i]));
}

proof fn lemma_quad_legs(l: Seq<Seq<LineView>>, legs: Seq<StructureLeg>, n: int)
    requires
        0 <= n <= legs.len(),
    ensures
        quad_legs(l, legs, n).len() == l.len() + n,
        forall|i: int|
            0 <= i < n ==> quad_legs(l, legs, n)[l.len() + i] == quad_leg(#[trigger] legs[i]),
    decreases n,
{
    if n > 0 {
        lemma_quad_legs(l, legs, n - 1);
    }
}

/// Every kind of structure has its own name, and every action its own words in the lists
/// and over its panel.
pub proof fn law_names(k: KindView)
    ensures
        StructureKind::IronCondor.spec_label() == "Iron Condor"@,
        StructureKind::IronFly.spec_label() == "Iron Fly"@,
        StructureKind::PutCreditSpread.spec_label() == "Put Credit Spread"@,
        StructureKind::CallCreditSpread.spec_label() == "Call Credit Spread"@,
        StructureKind::BrokenWingButterfly.spec_label() == "Broken-Wing Butterfly"@,
        StructureKind::ShortStrangle.spec_label() == "Short Strangle"@,
        k is SellPut ==> k.label() == "Sell Put"@ && title_of(k) == "Cash-Secured Put"@,
        k is SellCall ==> k.label() == "Sell Call"@ && title_of(k) == "Covered Call"@,
        k is CloseForProfit ==> k.label() == "Close"@ && title_of(k) == "Close for Profit"@,
        k is Roll ==> k.label() == "Roll"@ && title_of(k) == "Roll (defend)"@,
        k is SellPutSpread ==> k.label() == "Put Spread"@ && title_of(k) == "Put Credit Spread"@,
        k is OpenStructure ==> k.label() == k->OpenStructure_kind.spec_label() && title_of(k)
            == k->OpenStructure_kind.spec_label(),
{
}

/// A quadrant tells the breakevens and the return; and, for every structure but a
/// broken-wing or an iron fly, the chance to win where it is known.
pub proof fn law_quadrant_told(s: SuggestionView)
    requires
        s.kind is OpenStructure,
    ensures
        ({
            let (kind, legs) = (s.kind->OpenStructure_kind, s.kind->OpenStructure_legs);
            let told = "breakeven "@ + band_of(breakevens_of(legs)) + "  ·  ror "@ + ratio_text(
                s.annualized_yield,
                10_000_000,
                0,
            ) + "%"@;
            let fly = kind is BrokenWingButterfly || kind is IronFly;
            let q = quad_structure(s);
            &&& q.len() >= 3
            &&& q[1].len() == 1
            &&& fly || pop_of(legs) is None ==> q[1][0].text == told + ""@
            &&& !fly && pop_of(legs) is Some ==> q[1][0].text == told + ("  ·  est win ~"@
                + ratio_text(pop_of(legs)->0, 10_000, 0) + "%"@)
        }),
{
    let legs = s.kind->OpenStructure_legs;
    let kind = s.kind->OpenStructure_kind;
    let head = Seq::<Seq<LineView>>::empty().push(money_pieces(s)).push(
        single(
            LineStyle::Dim,
            "breakeven "@ + band_of(breakevens_of(legs)) + "  ·  ror "@ + ratio_text(
                s.annualized_yield,
                10_000_000,
                0,
            ) + "%"@ + pop_part(kind, legs),
        ),
    ).push(single(LineStyle::Plain, ""@));
    lemma_quad_front(head, legs, legs.len() as int);
    assert(quad_structure(s)[1] == head[1]);
}

proof fn lemma_quad_front(l: Seq<Seq<LineView>>, legs: Seq<StructureLeg>, n: int)
    ensures
        quad_legs(l, legs, n).len() >= l.len(),
        forall|i: int| 0 <= i < l.len() ==> #[trigger] quad_legs(l, legs, n)[i] == l[i],
    decreases n,
{
    if n > 0 {
        lemma_quad_front(l, legs, n - 1);
    }
}

/// The settings show both knobs in percent, marked where the cursor is on them.
pub proof fn law_settings_shown(app: App)
    requires
        !app.settings_editing,
    ensures
        ({
            let rows = settings_of(app);
            let here = app.tab is Settings;
            &&& rows.len() >= 4
            &&& rows[2][1].text == right_aligned(
                dec_text(app.settings.target_win_pct as int, 0) + "%"@,
                5,
            )
            &&& rows[3][1].text == right_aligned(
                dec_text(app.settings.take_profit_pct as int, 0) + "%"@,
                5,
            )
            &&& rows[2][0].style is Thesis <==> here && app.selected == 0
            &&& rows[3][0].style is Thesis <==> here && app.selected == 1
        }),
{
}

} // verus!

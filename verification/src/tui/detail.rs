//! Suggestions explained in plain words: what is sold, collected and risked.

use vstd::prelude::*;
use vstd::string::*;
use crate::dates::{dashed_date, dashed_text};
use crate::engine::structures::payoff::{
    breakevens, breakevens_of, estimate_pop, ints, legs_wf, pop_of,
};
use crate::engine::types::{
    ActionKind, KindView, LegSide, Right, StructureKind, StructureLeg, Suggestion, SuggestionView,
};
use crate::fixed::{dec_text, int_text, is_price, push_dec, push_int, push_ratio, ratio_text, SCALE};
use crate::text::own;
use crate::tui::app::App;
use crate::tui::lines::{
    line, lines, plain, put_all, put_line, put_text, LineStyle, LineView, TextLine,
};
use crate::tui::ui::{
    downside_scenarios, drop_lines, move_lines, right_text, right_word, structure_scenarios,
};

verus! {

/// The line on the take-profit target: the price at which the short is bought
/// back and the profit then kept, where the fraction `tp` of the credit counts.
pub open spec fn take_line(s: SuggestionView, tp: int) -> LineView {
    plain(
        "  Take-profit   "@ + ratio_text(tp, 10_000, 0) + "% → buy back ~$"@ + ratio_text(
            s.limit_price * (SCALE - tp),
            1_000_000_000_000,
            2,
        ) + "/sh, bank ~$"@ + ratio_text(s.premium_total * tp, 1_000_000_000_000, 0),
    )
}

/// The line on the take-profit target.
pub fn take_profit_line(out: &mut Vec<TextLine>, s: &Suggestion, tp: i64)
    requires
        s@.wf(),
        -10 * SCALE <= tp <= 10 * SCALE,
    ensures
        lines(final(out)@) == lines(old(out)@).push(take_line(s@, tp as int)),
{
    let rest: i128 = 1_000_000 - tp as i128;
    proof {
        assert(-1_000_000_000_000_000_000_000_000 <= s.limit_price * rest
            <= 1_000_000_000_000_000_000_000_000) by (nonlinear_arith)
            requires
                -4_000_000_000_010_000 <= s.limit_price <= 4_000_000_000_010_000,
                -11_000_000 <= rest <= 11_000_000,
        ;
        assert(-100_000_000_000_000_000_000_000_000_000_000_000 <= s.premium_total * tp
            <= 100_000_000_000_000_000_000_000_000_000_000_000) by (nonlinear_arith)
            requires
                -10_000_000_000_000_000_000_000_000_000 <= s.premium_total
                    <= 10_000_000_000_000_000_000_000_000_000,
                -10_000_000 <= tp <= 10_000_000,
        ;
    }
    let back: i128 = s.limit_price as i128 * rest;
    let bank: i128 = s.premium_total * tp as i128;
    let mut t = String::from_str("  Take-profit   ");
    push_ratio(&mut t, tp as i128, 10_000, 0);
    t.append("% → buy back ~$");
    push_ratio(&mut t, back, 1_000_000_000_000, 2);
    t.append("/sh, bank ~$");
    push_ratio(&mut t, bank, 1_000_000_000_000, 0);
    put_line(out, LineStyle::Plain, t);
}

/// The lines `l`, and behind them what a cash-secured put means.
pub open spec fn put_text_of(l: Seq<LineView>, s: SuggestionView, tp: int) -> Seq<LineView> {
    let l = l.push(
        plain(
            "SELL "@ + int_text(s.quantity) + " "@ + s.symbol + " $"@
                + dec_text(s.strike, 1) + " put, expiring "@ + dashed_text(s.expiry) + " ("@
                + int_text(s.dte) + "d)."@,
        ),
    );
    let l = l.push(
        line(
            LineStyle::Dim,
            "You're selling insurance against the stock falling below the strike."@,
        ),
    );
    let l = l.push(plain(""@));
    let l = l.push(
        plain(
            "  Collect now   $"@ + dec_text(s.premium_total, 0)
                + "   (premium — yours to keep)"@,
        ),
    );
    let l = l.push(
        plain(
            "  Set aside     $"@ + dec_text(s.capital_required, 0) + "   (cash collateral)"@,
        ),
    );
    let l = l.push(
        plain(
            "  Breakeven     $"@ + dec_text(s.strike - s.limit_price, 2)
                + "   (strike − premium)"@,
        ),
    );
    let l = match s.delta {
        Some(d) => {
            let l = l.push(
                plain(
                    "  Win chance    ~"@ + ratio_text(SCALE - d, 10_000, 0) + "%   ("@
                        + dec_text(d, 2) + "Δ → ~"@ + ratio_text(d, 10_000, 0)
                        + "% chance of assignment)"@,
                ),
            );
            l
        },
        None => l,
    };
    let l = l.push(take_line(s, tp));
    let l = l.push(plain(""@));
    let l = l.push(
        line(
            LineStyle::Good,
            "If above $"@ + dec_text(s.strike, 1)
                + " at expiry → expires worthless, keep $"@ + dec_text(s.premium_total, 0)
                + " (~"@ + ratio_text(s.annualized_yield, 10_000_000, 0) + "% annualized)."@,
        ),
    );
    let l = l.push(
        line(
            LineStyle::Warn,
            "If below $"@ + dec_text(s.strike, 1) + " → assigned: BUY "@
                + int_text(s.quantity * 100) + " shares @ $"@ + dec_text(s.strike, 1) + " ($"@
                + dec_text(s.capital_required, 0) + "), cost $"@
                + dec_text(s.strike - s.limit_price, 2) + "/sh."@,
        ),
    );
    let l = l.push(plain(""@));
    let l = l + drop_lines(s.underlying_price, s.strike, s.limit_price, None, s.quantity * 100);
    let l = l.push(
        line(
            LineStyle::Dim,
            "  (then the wheel sells covered calls on the shares to lower the basis)"@,
        ),
    );
    l
}

/// Explains a cash-secured put.
pub fn put_lines(out: &mut Vec<TextLine>, s: &Suggestion, tp: i64)
    requires
        s@.wf(),
        -10 * SCALE <= tp <= 10 * SCALE,
    ensures
        lines(final(out)@) == put_text_of(lines(old(out)@), s@, tp as int),
{
    let mut t = String::from_str("SELL ");
    push_int(&mut t, s.quantity as i128);
    t.append(" ");
    t.append(s.symbol.as_str());
    t.append(" $");
    push_dec(&mut t, s.strike as i128, 1);
    t.append(" put, expiring ");
    t.append(dashed_date(s.expiry).as_str());
    t.append(" (");
    push_int(&mut t, s.dte as i128);
    t.append("d).");
    put_line(out, LineStyle::Plain, t);
    put_text(
        out,
        LineStyle::Dim,
        "You're selling insurance against the stock falling below the strike.",
    );
    put_text(out, LineStyle::Plain, "");
    let mut t = String::from_str("  Collect now   $");
    push_dec(&mut t, s.premium_total, 0);
    t.append("   (premium — yours to keep)");
    put_line(out, LineStyle::Plain, t);
    let mut t = String::from_str("  Set aside     $");
    push_dec(&mut t, s.capital_required, 0);
    t.append("   (cash collateral)");
    put_line(out, LineStyle::Plain, t);
    let mut t = String::from_str("  Breakeven     $");
    push_dec(&mut t, s.strike as i128 - s.limit_price as i128, 2);
    t.append("   (strike − premium)");
    put_line(out, LineStyle::Plain, t);
    if let Some(d) = s.delta {
        let mut t = String::from_str("  Win chance    ~");
        push_ratio(&mut t, 1_000_000 - d as i128, 10_000, 0);
        t.append("%   (");
        push_dec(&mut t, d as i128, 2);
        t.append("Δ → ~");
        push_ratio(&mut t, d as i128, 10_000, 0);
        t.append("% chance of assignment)");
        put_line(out, LineStyle::Plain, t);
    }
    take_profit_line(out, s, tp);
    put_text(out, LineStyle::Plain, "");
    let mut t = String::from_str("If above $");
    push_dec(&mut t, s.strike as i128, 1);
    t.append(" at expiry → expires worthless, keep $");
    push_dec(&mut t, s.premium_total, 0);
    t.append(" (~");
    push_ratio(&mut t, s.annualized_yield, 10_000_000, 0);
    t.append("% annualized).");
    put_line(out, LineStyle::Good, t);
    let mut t = String::from_str("If below $");
    push_dec(&mut t, s.strike as i128, 1);
    t.append(" → assigned: BUY ");
    push_int(&mut t, s.quantity as i128 * 100);
    t.append(" shares @ $");
    push_dec(&mut t, s.strike as i128, 1);
    t.append(" ($");
    push_dec(&mut t, s.capital_required, 0);
    t.append("), cost $");
    push_dec(&mut t, s.strike as i128 - s.limit_price as i128, 2);
    t.append("/sh.");
    put_line(out, LineStyle::Warn, t);
    put_text(out, LineStyle::Plain, "");
    put_all(
        out,
        downside_scenarios(
            s.underlying_price,
            s.strike,
            s.limit_price,
            None,
            s.quantity as i64 * 100,
        ),
    );
    put_text(
        out,
        LineStyle::Dim,
        "  (then the wheel sells covered calls on the shares to lower the basis)",
    );
}

/// The lines `l`, and behind them what a covered call means.
pub open spec fn call_text_of(l: Seq<LineView>, s: SuggestionView, tp: int) -> Seq<LineView> {
    let l = l.push(
        plain(
            "SELL "@ + int_text(s.quantity) + " "@ + s.symbol + " $"@
                + dec_text(s.strike, 1) + " call, expiring "@ + dashed_text(s.expiry) + " ("@
                + int_text(s.dte) + "d), against your shares."@,
        ),
    );
    let l = l.push(
        line(
            LineStyle::Dim,
            "You own the shares; you're selling someone the right to buy them at the strike."@,
        ),
    );
    let l = l.push(plain(""@));
    let l = l.push(
        plain(
            "  Collect now   $"@ + dec_text(s.premium_total, 0)
                + "   (premium — yours to keep)"@,
        ),
    );
    let l = match s.delta {
        Some(d) => {
            let l = l.push(
                plain(
                    "  Win chance    ~"@ + ratio_text(SCALE - d, 10_000, 0) + "%   ("@
                        + dec_text(d, 2) + "Δ → ~"@ + ratio_text(d, 10_000, 0)
                        + "% chance of being called away)"@,
                ),
            );
            l
        },
        None => l,
    };
    let l = l.push(take_line(s, tp));
    let l = l.push(plain(""@));
    let l = l.push(
        line(
            LineStyle::Good,
            "If below $"@ + dec_text(s.strike, 1)
                + " at expiry → expires worthless: keep the premium AND your shares."@,
        ),
    );
    let l = l.push(
        line(
            LineStyle::Warn,
            "If above $"@ + dec_text(s.strike, 1) + " → shares sold @ $"@
                + dec_text(s.strike, 1)
                + ": keep premium + gains to the strike, miss upside above."@,
        ),
    );
    l
}

/// Explains a covered call.
pub fn call_lines(out: &mut Vec<TextLine>, s: &Suggestion, tp: i64)
    requires
        s@.wf(),
        -10 * SCALE <= tp <= 10 * SCALE,
    ensures
        lines(final(out)@) == call_text_of(lines(old(out)@), s@, tp as int),
{
    let mut t = String::from_str("SELL ");
    push_int(&mut t, s.quantity as i128);
    t.append(" ");
    t.append(s.symbol.as_str());
    t.append(" $");
    push_dec(&mut t, s.strike as i128, 1);
    t.append(" call, expiring ");
    t.append(dashed_date(s.expiry).as_str());
    t.append(" (");
    push_int(&mut t, s.dte as i128);
    t.append("d), against your shares.");
    put_line(out, LineStyle::Plain, t);
    put_text(
        out,
        LineStyle::Dim,
        "You own the shares; you're selling someone the right to buy them at the strike.",
    );
    put_text(out, LineStyle::Plain, "");
    let mut t = String::from_str("  Collect now   $");
    push_dec(&mut t, s.premium_total, 0);
    t.append("   (premium — yours to keep)");
    put_line(out, LineStyle::Plain, t);
    if let Some(d) = s.delta {
        let mut t = String::from_str("  Win chance    ~");
        push_ratio(&mut t, 1_000_000 - d as i128, 10_000, 0);
        t.append("%   (");
        push_dec(&mut t, d as i128, 2);
        t.append("Δ → ~");
        push_ratio(&mut t, d as i128, 10_000, 0);
        t.append("% chance of being called away)");
        put_line(out, LineStyle::Plain, t);
    }
    take_profit_line(out, s, tp);
    put_text(out, LineStyle::Plain, "");
    let mut t = String::from_str("If below $");
    push_dec(&mut t, s.strike as i128, 1);
    t.append(" at expiry → expires worthless: keep the premium AND your shares.");
    put_line(out, LineStyle::Good, t);
    let mut t = String::from_str("If above $");
    push_dec(&mut t, s.strike as i128, 1);
    t.append(" → shares sold @ $");
    push_dec(&mut t, s.strike as i128, 1);
    t.append(": keep premium + gains to the strike, miss upside above.");
    put_line(out, LineStyle::Warn, t);
}

/// The lines `l`, and behind them what an early close means.
pub open spec fn close_text_of(l: Seq<LineView>, s: SuggestionView) -> Seq<LineView> {
    let l = l.push(
        plain(
            "BUY TO CLOSE "@ + int_text(s.quantity) + " "@ + s.symbol + " $"@
                + dec_text(s.strike, 1) + " "@ + right_word(s.right) + ", ~$"@
                + dec_text(s.limit_price, 2) + "/sh ($"@ + dec_text(s.premium_total, 0)
                + " total)."@,
        ),
    );
    let l = l.push(
        line(
            LineStyle::Dim,
            "This short has lost most of its value — buying it back locks in the gain and frees the collateral early."@,
        ),
    );
    l
}

/// Explains an early close.
pub fn close_lines(out: &mut Vec<TextLine>, s: &Suggestion)
    requires
        s@.wf(),
    ensures
        lines(final(out)@) == close_text_of(lines(old(out)@), s@),
{
    let mut t = String::from_str("BUY TO CLOSE ");
    push_int(&mut t, s.quantity as i128);
    t.append(" ");
    t.append(s.symbol.as_str());
    t.append(" $");
    push_dec(&mut t, s.strike as i128, 1);
    t.append(" ");
    t.append(right_text(s.right));
    t.append(", ~$");
    push_dec(&mut t, s.limit_price as i128, 2);
    t.append("/sh ($");
    push_dec(&mut t, s.premium_total, 0);
    t.append(" total).");
    put_line(out, LineStyle::Plain, t);
    put_text(
        out,
        LineStyle::Dim,
        "This short has lost most of its value — buying it back locks in the gain and frees the collateral early.",
    );
}

/// The lines `l`, and behind them what a roll means.
pub open spec fn roll_text_of(
    l: Seq<LineView>,
    s: SuggestionView,
    to_expiry: int,
    to_strike: int,
) -> Seq<LineView> {
    let l = l.push(
        plain(
            "ROLL "@ + int_text(s.quantity) + " "@ + s.symbol + " $"@
                + dec_text(s.strike, 1) + " "@ + right_word(s.right) + " → $"@
                + dec_text(to_strike, 1) + " @ "@ + dashed_text(to_expiry) + "."@,
        ),
    );
    let l = l.push(
        line(
            LineStyle::Dim,
            "This short is being tested. Buy it back and sell a later one (restruck) for a net credit — buys time to defend instead of taking assignment now."@,
        ),
    );
    l
}

/// Explains a roll.
pub fn roll_lines(out: &mut Vec<TextLine>, s: &Suggestion, to_expiry: i32, to_strike: i64)
    requires
        s@.wf(),
        is_price(to_strike as int),
    ensures
        lines(final(out)@) == roll_text_of(
            lines(old(out)@),
            s@,
            to_expiry as int,
            to_strike as int,
        ),
{
    let mut t = String::from_str("ROLL ");
    push_int(&mut t, s.quantity as i128);
    t.append(" ");
    t.append(s.symbol.as_str());
    t.append(" $");
    push_dec(&mut t, s.strike as i128, 1);
    t.append(" ");
    t.append(right_text(s.right));
    t.append(" → $");
    push_dec(&mut t, to_strike as i128, 1);
    t.append(" @ ");
    t.append(dashed_date(to_expiry).as_str());
    t.append(".");
    put_line(out, LineStyle::Plain, t);
    put_text(
        out,
        LineStyle::Dim,
        "This short is being tested. Buy it back and sell a later one (restruck) for a net credit — buys time to defend instead of taking assignment now.",
    );
}

/// The lines `l`, and behind them what a put spread means.
pub open spec fn spread_text_of(
    l: Seq<LineView>,
    s: SuggestionView,
    tp: int,
    long_strike: int,
    long_price: int,
) -> Seq<LineView> {
    let l = l.push(
        plain(
            "SELL "@ + int_text(s.quantity) + " "@ + s.symbol + " $"@
                + dec_text(s.strike, 1) + "/$"@ + dec_text(long_strike, 1)
                + " put spread, expiring "@ + dashed_text(s.expiry) + " ("@ + int_text(s.dte)
                + "d)."@,
        ),
    );
    let l = l.push(
        line(
            LineStyle::Dim,
            "Defined-risk hedge: sell the $"@ + dec_text(s.strike, 1) + " put, buy the $"@
                + dec_text(long_strike, 1) + " put ($"@ + dec_text(long_price, 2)
                + ") as protection."@,
        ),
    );
    let l = l.push(plain(""@));
    let l = l.push(
        plain(
            "  Net credit    $"@ + dec_text(s.premium_total, 0)
                + "   (premium in − protection cost)"@,
        ),
    );
    let l = l.push(
        plain(
            "  Max loss      $"@ + dec_text(s.capital_required - s.premium_total, 0)
                + "   (CAPPED — $"@ + dec_text((s.strike - long_strike) * 100 * s.quantity, 0)
                + " width minus credit)"@,
        ),
    );
    let l = l.push(
        plain(
            "  Breakeven     $"@ + dec_text(s.strike - s.limit_price, 2)
                + "   (short strike − net credit)"@,
        ),
    );
    let l = match s.delta {
        Some(d) => {
            let l = l.push(
                plain(
                    "  Win chance    ~"@ + ratio_text(SCALE - d, 10_000, 0) + "%   ("@
                        + dec_text(d, 2) + "Δ → ~"@ + ratio_text(d, 10_000, 0)
                        + "% chance the short is ITM)"@,
                ),
            );
            l
        },
        None => l,
    };
    let l = l.push(take_line(s, tp));
    let l = l.push(plain(""@));
    let l = l.push(
        line(
            LineStyle::Good,
            "If above $"@ + dec_text(s.strike, 1)
                + " at expiry → both expire worthless, keep $"@ + dec_text(s.premium_total, 0)
                + " (~"@ + ratio_text(s.annualized_yield, 10_000_000, 0) + "% annualized)."@,
        ),
    );
    let l = l.push(
        line(
            LineStyle::Warn,
            "If it falls → loss is CAPPED at $"@
                + dec_text(s.capital_required - s.premium_total, 0) + "; the $"@
                + dec_text(long_strike, 1) + " put stops further downside."@,
        ),
    );
    let l = l.push(plain(""@));
    let l = l + drop_lines(
        s.underlying_price,
        s.strike,
        s.limit_price,
        Some(long_strike),
        s.quantity * 100,
    );
    l
}

/// Explains a put spread.
pub fn spread_lines(
    out: &mut Vec<TextLine>,
    s: &Suggestion,
    tp: i64,
    long_strike: i64,
    long_price: i64,
)
    requires
        s@.wf(),
        -10 * SCALE <= tp <= 10 * SCALE,
        is_price(long_strike as int),
        is_price(long_price - 10_000),
    ensures
        lines(final(out)@) == spread_text_of(
            lines(old(out)@),
            s@,
            tp as int,
            long_strike as int,
            long_price as int,
        ),
{
    let points: i128 = (s.strike as i128 - long_strike as i128) * 100;
    proof {
        assert(-1_000_000_000_000_000_000_000_000_000 <= points * s.quantity
            <= 1_000_000_000_000_000_000_000_000_000) by (nonlinear_arith)
            requires
                -200_000_000_000_000_000 <= points <= 200_000_000_000_000_000,
                -2_147_483_648 <= s.quantity <= 2_147_483_647,
        ;
    }
    let width: i128 = points * s.quantity as i128;
    let mut t = String::from_str("SELL ");
    push_int(&mut t, s.quantity as i128);
    t.append(" ");
    t.append(s.symbol.as_str());
    t.append(" $");
    push_dec(&mut t, s.strike as i128, 1);
    t.append("/$");
    push_dec(&mut t, long_strike as i128, 1);
    t.append(" put spread, expiring ");
    t.append(dashed_date(s.expiry).as_str());
    t.append(" (");
    push_int(&mut t, s.dte as i128);
    t.append("d).");
    put_line(out, LineStyle::Plain, t);
    let mut t = String::from_str("Defined-risk hedge: sell the $");
    push_dec(&mut t, s.strike as i128, 1);
    t.append(" put, buy the $");
    push_dec(&mut t, long_strike as i128, 1);
    t.append(" put ($");
    push_dec(&mut t, long_price as i128, 2);
    t.append(") as protection.");
    put_line(out, LineStyle::Dim, t);
    put_text(out, LineStyle::Plain, "");
    let mut t = String::from_str("  Net credit    $");
    push_dec(&mut t, s.premium_total, 0);
    t.append("   (premium in − protection cost)");
    put_line(out, LineStyle::Plain, t);
    let mut t = String::from_str("  Max loss      $");
    push_dec(&mut t, s.capital_required - s.premium_total, 0);
    t.append("   (CAPPED — $");
    push_dec(&mut t, width, 0);
    t.append(" width minus credit)");
    put_line(out, LineStyle::Plain, t);
    let mut t = String::from_str("  Breakeven     $");
    push_dec(&mut t, s.strike as i128 - s.limit_price as i128, 2);
    t.append("   (short strike − net credit)");
    put_line(out, LineStyle::Plain, t);
    if let Some(d) = s.delta {
        let mut t = String::from_str("  Win chance    ~");
        push_ratio(&mut t, 1_000_000 - d as i128, 10_000, 0);
        t.append("%   (");
        push_dec(&mut t, d as i128, 2);
        t.append("Δ → ~");
        push_ratio(&mut t, d as i128, 10_000, 0);
        t.append("% chance the short is ITM)");
        put_line(out, LineStyle::Plain, t);
    }
    take_profit_line(out, s, tp);
    put_text(out, LineStyle::Plain, "");
    let mut t = String::from_str("If above $");
    push_dec(&mut t, s.strike as i128, 1);
    t.append(" at expiry → both expire worthless, keep $");
    push_dec(&mut t, s.premium_total, 0);
    t.append(" (~");
    push_ratio(&mut t, s.annualized_yield, 10_000_000, 0);
    t.append("% annualized).");
    put_line(out, LineStyle::Good, t);
    let mut t = String::from_str("If it falls → loss is CAPPED at $");
    push_dec(&mut t, s.capital_required - s.premium_total, 0);
    t.append("; the $");
    push_dec(&mut t, long_strike as i128, 1);
    t.append(" put stops further downside.");
    put_line(out, LineStyle::Warn, t);
    put_text(out, LineStyle::Plain, "");
    put_all(
        out,
        downside_scenarios(
            s.underlying_price,
            s.strike,
            s.limit_price,
            Some(long_strike),
            s.quantity as i64 * 100,
        ),
    );
}

// --- structures ------------------------------------------------------------

/// The outermost strike among the first `n` legs on that side and right: the
/// highest where `highest`, else the lowest.
pub open spec fn outer(
    legs: Seq<StructureLeg>,
    n: int,
    side: LegSide,
    right: Right,
    highest: bool,
) -> Option<int>
    decreases n,
{
    if n <= 0 {
        None
    } else {
        let so_far = outer(legs, n - 1, side, right, highest);
        let l = legs[n - 1];
        if l.side == side && l.right == right && (match so_far {
            Some(k) => if highest {
                l.strike > k
            } else {
                l.strike < k
            },
            None => true,
        }) {
            Some(l.strike as int)
        } else {
            so_far
        }
    }
}

/// The highest short put.
pub open spec fn short_put(legs: Seq<StructureLeg>) -> Option<int> {
    outer(legs, legs.len() as int, LegSide::Sell, Right::Put, true)
}

/// The lowest short call.
pub open spec fn short_call(legs: Seq<StructureLeg>) -> Option<int> {
    outer(legs, legs.len() as int, LegSide::Sell, Right::Call, false)
}

/// The lowest long put.
pub open spec fn long_put(legs: Seq<StructureLeg>) -> Option<int> {
    outer(legs, legs.len() as int, LegSide::Buy, Right::Put, false)
}

/// The highest long call.
pub open spec fn long_call(legs: Seq<StructureLeg>) -> Option<int> {
    outer(legs, legs.len() as int, LegSide::Buy, Right::Call, true)
}

fn outer_strike(legs: &Vec<StructureLeg>, side: LegSide, right: Right, highest: bool) -> (r: Option<
    i64,
>)
    requires
        legs_wf(legs@),
    ensures
        r is Some <==> outer(legs@, legs@.len() as int, side, right, highest) is Some,
        r is Some ==> r->0 == outer(legs@, legs@.len() as int, side, right, highest)->0
            && is_price(r->0 as int),
{
    let mut best: Option<i64> = None;
    let mut i: usize = 0;
    while i < legs.len()
        invariant
            legs_wf(legs@),
            i <= legs@.len(),
            best is Some <==> outer(legs@, i as int, side, right, highest) is Some,
            best is Some ==> best->0 == outer(legs@, i as int, side, right, highest)->0 && is_price(
                best->0 as int,
            ),
        decreases legs@.len() - i,
    {
        let l = legs[i];
        let better = match best {
            Some(k) => if highest {
                l.strike > k
            } else {
                l.strike < k
            },
            None => true,
        };
        assert(l.wf());
        if l.side == side && l.right == right && better {
            best = Some(l.strike);
        }
        i = i + 1;
    }
    best
}

/// The first of a list.
pub open spec fn first_of(s: Seq<int>) -> Option<int> {
    if s.len() > 0 {
        Some(s[0])
    } else {
        None
    }
}

/// The last of a list.
pub open spec fn last_of(s: Seq<int>) -> Option<int> {
    if s.len() > 0 {
        Some(s[s.len() - 1])
    } else {
        None
    }
}

fn first_amount(v: &Vec<i64>) -> (r: Option<i64>)
    ensures
        crate::engine::types::opt_int(r) == first_of(ints(v@)),
        r is Some ==> v@.len() > 0 && r->0 == v@[0],
{
    if v.len() > 0 {
        Some(v[0])
    } else {
        None
    }
}

fn last_amount(v: &Vec<i64>) -> (r: Option<i64>)
    ensures
        crate::engine::types::opt_int(r) == last_of(ints(v@)),
        r is Some ==> v@.len() > 0 && r->0 == v@[v@.len() - 1],
{
    if v.len() > 0 {
        Some(v[v.len() - 1])
    } else {
        None
    }
}

/// `x`, or `other` where there is none.
pub open spec fn or_int(x: Option<int>, other: int) -> int {
    match x {
        Some(v) => v,
        None => other,
    }
}

fn or_amount(x: Option<i64>, other: i64) -> (r: i64)
    ensures
        r == or_int(crate::engine::types::opt_int(x), other as int),
{
    match x {
        Some(v) => v,
        None => other,
    }
}

/// When a structure expires.
pub open spec fn when_of(s: SuggestionView) -> Seq<char> {
    if s.dte == 0 {
        "expires TODAY"@
    } else {
        "expires in "@ + int_text(s.dte) + "d"@
    }
}

fn when_text(s: &Suggestion) -> (r: String)
    ensures
        r@ == when_of(s@),
{
    if s.dte == 0 {
        own("expires TODAY")
    } else {
        let mut t = String::from_str("expires in ");
        push_int(&mut t, s.dte as i128);
        t.append("d");
        t
    }
}

/// The close that settles a structure.
pub open spec fn close_of(s: SuggestionView) -> Seq<char> {
    if s.dte == 0 {
        "today's close"@
    } else {
        "the "@ + dashed_text(s.expiry) + " close"@
    }
}

fn close_text(s: &Suggestion) -> (r: String)
    ensures
        r@ == close_of(s@),
{
    if s.dte == 0 {
        own("today's close")
    } else {
        let mut t = String::from_str("the ");
        t.append(dashed_date(s.expiry).as_str());
        t.append(" close");
        t
    }
}

/// The lines `l`, and behind them the bet of an iron condor.
pub open spec fn condor_thesis_of(
    l: Seq<LineView>,
    s: SuggestionView,
    legs: Seq<StructureLeg>,
) -> Seq<LineView> {
    let l = match short_put(legs) {
        Some(sp) => {
            let l = match short_call(legs) {
                Some(sc) => {
                    let l = l.push(
                        line(
                            LineStyle::Thesis,
                            "YOU'RE BETTING "@ + s.symbol + " (now $"@
                                + dec_text(s.underlying_price, 0)
                                + ") goes nowhere — settles between $"@ + dec_text(sp, 0)
                                + " and $"@ + dec_text(sc, 0) + " by "@ + close_of(s) + "."@,
                        ),
                    );
                    let l = match first_of(breakevens_of(legs)) {
                        Some(lo) => {
                            let l = match last_of(breakevens_of(legs)) {
                                Some(hi) => {
                                    let l = l.push(
                                        line(
                                            LineStyle::Good,
                                            "  WIN  → keep up to $"@
                                                + dec_text(s.premium_total, 0)
                                                + ": full credit anywhere $"@ + dec_text(sp, 0)
                                                + "–$"@ + dec_text(sc, 0) + ", still green $"@
                                                + dec_text(lo, 0) + "–$"@ + dec_text(hi, 0)
                                                + "."@,
                                        ),
                                    );
                                    l
                                },
                                None => l,
                            };
                            l
                        },
                        None => l,
                    };
                    let l = match long_put(legs) {
                        Some(wp) => {
                            let l = match long_call(legs) {
                                Some(wc) => {
                                    let l = l.push(
                                        line(
                                            LineStyle::Warn,
                                            "  LOSE → if it breaks out; loss CAPPED at $"@
                                                + dec_text(s.capital_required, 0)
                                                + " once below $"@ + dec_text(wp, 0)
                                                + " or above $"@ + dec_text(wc, 0) + "."@,
                                        ),
                                    );
                                    l
                                },
                                None => l,
                            };
                            l
                        },
                        None => l,
                    };
                    l
                },
                None => l,
            };
            l
        },
        None => l,
    };
    l
}

/// The bet of an iron condor, and where it wins and loses.
pub fn condor_thesis(out: &mut Vec<TextLine>, s: &Suggestion, legs: &Vec<StructureLeg>)
    requires
        s@.wf(),
        legs_wf(legs@),
    ensures
        lines(final(out)@) == condor_thesis_of(lines(old(out)@), s@, legs@),
{
    let close = close_text(s);
    let bes = breakevens(legs.as_slice());
    let lo = first_amount(&bes);
    let hi = last_amount(&bes);
    let sp = outer_strike(legs, LegSide::Sell, Right::Put, true);
    let sc = outer_strike(legs, LegSide::Sell, Right::Call, false);
    let wp = outer_strike(legs, LegSide::Buy, Right::Put, false);
    let wc = outer_strike(legs, LegSide::Buy, Right::Call, true);
    if let Some(sp) = sp {
        if let Some(sc) = sc {
            let mut t = String::from_str("YOU'RE BETTING ");
            t.append(s.symbol.as_str());
            t.append(" (now $");
            push_dec(&mut t, s.underlying_price as i128, 0);
            t.append(") goes nowhere — settles between $");
            push_dec(&mut t, sp as i128, 0);
            t.append(" and $");
            push_dec(&mut t, sc as i128, 0);
            t.append(" by ");
            t.append(close.as_str());
            t.append(".");
            put_line(out, LineStyle::Thesis, t);
            if let Some(lo) = lo {
                if let Some(hi) = hi {
                    let mut t = String::from_str("  WIN  → keep up to $");
                    push_dec(&mut t, s.premium_total, 0);
                    t.append(": full credit anywhere $");
                    push_dec(&mut t, sp as i128, 0);
                    t.append("–$");
                    push_dec(&mut t, sc as i128, 0);
                    t.append(", still green $");
                    push_dec(&mut t, lo as i128, 0);
                    t.append("–$");
                    push_dec(&mut t, hi as i128, 0);
                    t.append(".");
                    put_line(out, LineStyle::Good, t);
                }
            }
            if let Some(wp) = wp {
                if let Some(wc) = wc {
                    let mut t = String::from_str("  LOSE → if it breaks out; loss CAPPED at $");
                    push_dec(&mut t, s.capital_required, 0);
                    t.append(" once below $");
                    push_dec(&mut t, wp as i128, 0);
                    t.append(" or above $");
                    push_dec(&mut t, wc as i128, 0);
                    t.append(".");
                    put_line(out, LineStyle::Warn, t);
                }
            }
        }
    }
}

/// The lines `l`, and behind them the bet of an iron fly.
pub open spec fn fly_thesis_of(
    l: Seq<LineView>,
    s: SuggestionView,
    legs: Seq<StructureLeg>,
) -> Seq<LineView> {
    let l = match (if short_put(legs) is Some { short_put(legs) } else { short_call(legs) }) {
        Some(body) => {
            let l = l.push(
                line(
                    LineStyle::Thesis,
                    "YOU'RE BETTING "@ + s.symbol + " (now $"@
                        + dec_text(s.underlying_price, 0) + ") PINS near $"@ + dec_text(body, 0)
                        + " — a tight range — by "@ + close_of(s) + "."@,
                ),
            );
            let l = match first_of(breakevens_of(legs)) {
                Some(lo) => {
                    let l = match last_of(breakevens_of(legs)) {
                        Some(hi) => {
                            let l = l.push(
                                line(
                                    LineStyle::Good,
                                    "  WIN  → profitable $"@ + dec_text(lo, 0) + "–$"@
                                        + dec_text(hi, 0) + "; most of the $"@
                                        + dec_text(s.premium_total, 0)
                                        + " if it lands right at $"@ + dec_text(body, 0) + "."@,
                                ),
                            );
                            l
                        },
                        None => l,
                    };
                    l
                },
                None => l,
            };
            let l = match long_put(legs) {
                Some(wp) => {
                    let l = match long_call(legs) {
                        Some(wc) => {
                            let l = l.push(
                                line(
                                    LineStyle::Warn,
                                    "  LOSE → outside the breakevens; CAPPED at $"@
                                        + dec_text(s.capital_required, 0) + " past $"@
                                        + dec_text(wp, 0) + " / $"@ + dec_text(wc, 0) + "."@,
                                ),
                            );
                            l
                        },
                        None => l,
                    };
                    l
                },
                None => l,
            };
            l
        },
        None => l,
    };
    l
}

/// The bet of an iron fly, and where it wins and loses.
pub fn fly_thesis(out: &mut Vec<TextLine>, s: &Suggestion, legs: &Vec<StructureLeg>)
    requires
        s@.wf(),
        legs_wf(legs@),
    ensures
        lines(final(out)@) == fly_thesis_of(lines(old(out)@), s@, legs@),
{
    let close = close_text(s);
    let bes = breakevens(legs.as_slice());
    let lo = first_amount(&bes);
    let hi = last_amount(&bes);
    let sp = outer_strike(legs, LegSide::Sell, Right::Put, true);
    let sc = outer_strike(legs, LegSide::Sell, Right::Call, false);
    let wp = outer_strike(legs, LegSide::Buy, Right::Put, false);
    let wc = outer_strike(legs, LegSide::Buy, Right::Call, true);
    let body = if sp.is_some() {
        sp
    } else {
        sc
    };
    if let Some(body) = body {
        let mut t = String::from_str("YOU'RE BETTING ");
        t.append(s.symbol.as_str());
        t.append(" (now $");
        push_dec(&mut t, s.underlying_price as i128, 0);
        t.append(") PINS near $");
        push_dec(&mut t, body as i128, 0);
        t.append(" — a tight range — by ");
        t.append(close.as_str());
        t.append(".");
        put_line(out, LineStyle::Thesis, t);
        if let Some(lo) = lo {
            if let Some(hi) = hi {
                let mut t = String::from_str("  WIN  → profitable $");
                push_dec(&mut t, lo as i128, 0);
                t.append("–$");
                push_dec(&mut t, hi as i128, 0);
                t.append("; most of the $");
                push_dec(&mut t, s.premium_total, 0);
                t.append(" if it lands right at $");
                push_dec(&mut t, body as i128, 0);
                t.append(".");
                put_line(out, LineStyle::Good, t);
            }
        }
        if let Some(wp) = wp {
            if let Some(wc) = wc {
                let mut t = String::from_str("  LOSE → outside the breakevens; CAPPED at $");
                push_dec(&mut t, s.capital_required, 0);
                t.append(" past $");
                push_dec(&mut t, wp as i128, 0);
                t.append(" / $");
                push_dec(&mut t, wc as i128, 0);
                t.append(".");
                put_line(out, LineStyle::Warn, t);
            }
        }
    }
}

/// The lines `l`, and behind them the bet of a short strangle.
pub open spec fn strangle_thesis_of(
    l: Seq<LineView>,
    s: SuggestionView,
    legs: Seq<StructureLeg>,
) -> Seq<LineView> {
    let (lo, hi) = (first_of(breakevens_of(legs)), last_of(breakevens_of(legs)));
    let l = match short_put(legs) {
        Some(sp) => {
            let l = match short_call(legs) {
                Some(sc) => {
                    let l = l.push(
                        line(
                            LineStyle::Thesis,
                            "YOU'RE BETTING "@ + s.symbol + " (now $"@
                                + dec_text(s.underlying_price, 0) + ") stays between $"@
                                + dec_text(sp, 0) + " and $"@ + dec_text(sc, 0) + " by "@
                                + close_of(s) + "."@,
                        ),
                    );
                    let l = l.push(
                        line(
                            LineStyle::Good,
                            "  WIN  → keep $"@ + dec_text(s.premium_total, 0)
                                + " if it settles between the breakevens $"@
                                + dec_text(or_int(lo, sp), 0) + "–$"@
                                + dec_text(or_int(hi, sc), 0) + "."@,
                        ),
                    );
                    let l = l.push(
                        line(
                            LineStyle::Alarm,
                            "  LOSE → UNCAPPED past the shorts (no wings) — a big gap can be ruinous."@,
                        ),
                    );
                    l
                },
                None => l,
            };
            l
        },
        None => l,
    };
    l
}

/// The bet of a short strangle, and where it wins and loses.
pub fn strangle_thesis(out: &mut Vec<TextLine>, s: &Suggestion, legs: &Vec<StructureLeg>)
    requires
        s@.wf(),
        legs_wf(legs@),
    ensures
        lines(final(out)@) == strangle_thesis_of(lines(old(out)@), s@, legs@),
{
    let close = close_text(s);
    let bes = breakevens(legs.as_slice());
    let lo = first_amount(&bes);
    let hi = last_amount(&bes);
    let sp = outer_strike(legs, LegSide::Sell, Right::Put, true);
    let sc = outer_strike(legs, LegSide::Sell, Right::Call, false);
    if let Some(sp) = sp {
        if let Some(sc) = sc {
            let mut t = String::from_str("YOU'RE BETTING ");
            t.append(s.symbol.as_str());
            t.append(" (now $");
            push_dec(&mut t, s.underlying_price as i128, 0);
            t.append(") stays between $");
            push_dec(&mut t, sp as i128, 0);
            t.append(" and $");
            push_dec(&mut t, sc as i128, 0);
            t.append(" by ");
            t.append(close.as_str());
            t.append(".");
            put_line(out, LineStyle::Thesis, t);
            let mut t = String::from_str("  WIN  → keep $");
            push_dec(&mut t, s.premium_total, 0);
            t.append(" if it settles between the breakevens $");
            push_dec(&mut t, or_amount(lo, sp) as i128, 0);
            t.append("–$");
            push_dec(&mut t, or_amount(hi, sc) as i128, 0);
            t.append(".");
            put_line(out, LineStyle::Good, t);
            put_text(
                out,
                LineStyle::Alarm,
                "  LOSE → UNCAPPED past the shorts (no wings) — a big gap can be ruinous.",
            );
        }
    }
}

/// The lines `l`, and behind them the bet of a put credit spread.
pub open spec fn put_credit_thesis_of(
    l: Seq<LineView>,
    s: SuggestionView,
    legs: Seq<StructureLeg>,
) -> Seq<LineView> {
    let l = match short_put(legs) {
        Some(sp) => {
            let l = l.push(
                line(
                    LineStyle::Thesis,
                    "YOU'RE BETTING "@ + s.symbol + " (now $"@
                        + dec_text(s.underlying_price, 0) + ") STAYS ABOVE $"@ + dec_text(sp, 0)
                        + " (doesn't fall much) by "@ + close_of(s) + "."@,
                ),
            );
            let l = match first_of(breakevens_of(legs)) {
                Some(lo) => {
                    let l = l.push(
                        line(
                            LineStyle::Good,
                            "  WIN  → keep the full $"@ + dec_text(s.premium_total, 0)
                                + " above $"@ + dec_text(sp, 0) + "; profitable above $"@
                                + dec_text(lo, 0) + "."@,
                        ),
                    );
                    l
                },
                None => l,
            };
            let lo = first_of(breakevens_of(legs));
            let l = match long_put(legs) {
                Some(wp) => {
                    let l = l.push(
                        line(
                            LineStyle::Warn,
                            "  LOSE → if it falls below $"@ + dec_text(or_int(lo, sp), 0)
                                + "; CAPPED at $"@ + dec_text(s.capital_required, 0)
                                + " once below $"@ + dec_text(wp, 0) + "."@,
                        ),
                    );
                    l
                },
                None => l,
            };
            l
        },
        None => l,
    };
    l
}

/// The bet of a put credit spread, and where it wins and loses.
pub fn put_credit_thesis(out: &mut Vec<TextLine>, s: &Suggestion, legs: &Vec<StructureLeg>)
    requires
        s@.wf(),
        legs_wf(legs@),
    ensures
        lines(final(out)@) == put_credit_thesis_of(lines(old(out)@), s@, legs@),
{
    let close = close_text(s);
    let bes = breakevens(legs.as_slice());
    let lo = first_amount(&bes);
    let sp = outer_strike(legs, LegSide::Sell, Right::Put, true);
    let wp = outer_strike(legs, LegSide::Buy, Right::Put, false);
    if let Some(sp) = sp {
        let mut t = String::from_str("YOU'RE BETTING ");
        t.append(s.symbol.as_str());
        t.append(" (now $");
        push_dec(&mut t, s.underlying_price as i128, 0);
        t.append(") STAYS ABOVE $");
        push_dec(&mut t, sp as i128, 0);
        t.append(" (doesn't fall much) by ");
        t.append(close.as_str());
        t.append(".");
        put_line(out, LineStyle::Thesis, t);
        if let Some(lo) = lo {
            let mut t = String::from_str("  WIN  → keep the full $");
            push_dec(&mut t, s.premium_total, 0);
            t.append(" above $");
            push_dec(&mut t, sp as i128, 0);
            t.append("; profitable above $");
            push_dec(&mut t, lo as i128, 0);
            t.append(".");
            put_line(out, LineStyle::Good, t);
        }
        if let Some(wp) = wp {
            let mut t = String::from_str("  LOSE → if it falls below $");
            push_dec(&mut t, or_amount(lo, sp) as i128, 0);
            t.append("; CAPPED at $");
            push_dec(&mut t, s.capital_required, 0);
            t.append(" once below $");
            push_dec(&mut t, wp as i128, 0);
            t.append(".");
            put_line(out, LineStyle::Warn, t);
        }
    }
}

/// The lines `l`, and behind them the bet of a call credit spread.
pub open spec fn call_credit_thesis_of(
    l: Seq<LineView>,
    s: SuggestionView,
    legs: Seq<StructureLeg>,
) -> Seq<LineView> {
    let l = match short_call(legs) {
        Some(sc) => {
            let l = l.push(
                line(
                    LineStyle::Thesis,
                    "YOU'RE BETTING "@ + s.symbol + " (now $"@
                        + dec_text(s.underlying_price, 0) + ") STAYS BELOW $"@ + dec_text(sc, 0)
                        + " (doesn't rally much) by "@ + close_of(s) + "."@,
                ),
            );
            let l = match last_of(breakevens_of(legs)) {
                Some(hi) => {
                    let l = l.push(
                        line(
                            LineStyle::Good,
                            "  WIN  → keep the full $"@ + dec_text(s.premium_total, 0)
                                + " below $"@ + dec_text(sc, 0) + "; profitable below $"@
                                + dec_text(hi, 0) + "."@,
                        ),
                    );
                    l
                },
                None => l,
            };
            let hi = last_of(breakevens_of(legs));
            let l = match long_call(legs) {
                Some(wc) => {
                    let l = l.push(
                        line(
                            LineStyle::Warn,
                            "  LOSE → if it rises above $"@ + dec_text(or_int(hi, sc), 0)
                                + "; CAPPED at $"@ + dec_text(s.capital_required, 0)
                                + " once above $"@ + dec_text(wc, 0) + "."@,
                        ),
                    );
                    l
                },
                None => l,
            };
            l
        },
        None => l,
    };
    l
}

/// The bet of a call credit spread, and where it wins and loses.
pub fn call_credit_thesis(out: &mut Vec<TextLine>, s: &Suggestion, legs: &Vec<StructureLeg>)
    requires
        s@.wf(),
        legs_wf(legs@),
    ensures
        lines(final(out)@) == call_credit_thesis_of(lines(old(out)@), s@, legs@),
{
    let close = close_text(s);
    let bes = breakevens(legs.as_slice());
    let hi = last_amount(&bes);
    let sc = outer_strike(legs, LegSide::Sell, Right::Call, false);
    let wc = outer_strike(legs, LegSide::Buy, Right::Call, true);
    if let Some(sc) = sc {
        let mut t = String::from_str("YOU'RE BETTING ");
        t.append(s.symbol.as_str());
        t.append(" (now $");
        push_dec(&mut t, s.underlying_price as i128, 0);
        t.append(") STAYS BELOW $");
        push_dec(&mut t, sc as i128, 0);
        t.append(" (doesn't rally much) by ");
        t.append(close.as_str());
        t.append(".");
        put_line(out, LineStyle::Thesis, t);
        if let Some(hi) = hi {
            let mut t = String::from_str("  WIN  → keep the full $");
            push_dec(&mut t, s.premium_total, 0);
            t.append(" below $");
            push_dec(&mut t, sc as i128, 0);
            t.append("; profitable below $");
            push_dec(&mut t, hi as i128, 0);
            t.append(".");
            put_line(out, LineStyle::Good, t);
        }
        if let Some(wc) = wc {
            let mut t = String::from_str("  LOSE → if it rises above $");
            push_dec(&mut t, or_amount(hi, sc) as i128, 0);
            t.append("; CAPPED at $");
            push_dec(&mut t, s.capital_required, 0);
            t.append(" once above $");
            push_dec(&mut t, wc as i128, 0);
            t.append(".");
            put_line(out, LineStyle::Warn, t);
        }
    }
}

/// The lines `l`, and behind them the bet of a broken-wing butterfly.
pub open spec fn broken_wing_thesis_of(
    l: Seq<LineView>,
    s: SuggestionView,
    legs: Seq<StructureLeg>,
) -> Seq<LineView> {
    let sp = short_put(legs);
    let l = l.push(
        line(
            LineStyle::Thesis,
            "YOU'RE BETTING "@ + s.symbol + " (now $"@ + dec_text(s.underlying_price, 0)
                + ") DOESN'T CRASH — stays up by "@ + close_of(s) + ". NO risk if it rises."@,
        ),
    );
    let l = match first_of(breakevens_of(legs)) {
        Some(lo) => {
            let l = l.push(
                line(
                    LineStyle::Good,
                    "  WIN  → keep $"@ + dec_text(s.premium_total, 0)
                        + " as long as it closes above $"@ + dec_text(lo, 0) + "; best near $"@
                        + dec_text(or_int(sp, lo), 0) + "."@,
                ),
            );
            l
        },
        None => l,
    };
    let l = l.push(
        line(
            LineStyle::Warn,
            "  LOSE → only on a drop below breakeven; CAPPED at $"@
                + dec_text(s.capital_required, 0) + "."@,
        ),
    );
    l
}

/// The bet of a broken-wing butterfly, and where it wins and loses.
pub fn broken_wing_thesis(out: &mut Vec<TextLine>, s: &Suggestion, legs: &Vec<StructureLeg>)
    requires
        s@.wf(),
        legs_wf(legs@),
    ensures
        lines(final(out)@) == broken_wing_thesis_of(lines(old(out)@), s@, legs@),
{
    let close = close_text(s);
    let bes = breakevens(legs.as_slice());
    let lo = first_amount(&bes);
    let sp = outer_strike(legs, LegSide::Sell, Right::Put, true);
    let mut t = String::from_str("YOU'RE BETTING ");
    t.append(s.symbol.as_str());
    t.append(" (now $");
    push_dec(&mut t, s.underlying_price as i128, 0);
    t.append(") DOESN'T CRASH — stays up by ");
    t.append(close.as_str());
    t.append(". NO risk if it rises.");
    put_line(out, LineStyle::Thesis, t);
    if let Some(lo) = lo {
        let mut t = String::from_str("  WIN  → keep $");
        push_dec(&mut t, s.premium_total, 0);
        t.append(" as long as it closes above $");
        push_dec(&mut t, lo as i128, 0);
        t.append("; best near $");
        push_dec(&mut t, or_amount(sp, lo) as i128, 0);
        t.append(".");
        put_line(out, LineStyle::Good, t);
    }
    let mut t = String::from_str("  LOSE → only on a drop below breakeven; CAPPED at $");
    push_dec(&mut t, s.capital_required, 0);
    t.append(".");
    put_line(out, LineStyle::Warn, t);
}

/// The lines `l`, and behind them the bet of a structure.
pub open spec fn thesis_of(
    l: Seq<LineView>,
    s: SuggestionView,
    kind: StructureKind,
    legs: Seq<StructureLeg>,
) -> Seq<LineView> {
    match kind {
        StructureKind::IronCondor => condor_thesis_of(l, s, legs),
        StructureKind::IronFly => fly_thesis_of(l, s, legs),
        StructureKind::ShortStrangle => strangle_thesis_of(l, s, legs),
        StructureKind::PutCreditSpread => put_credit_thesis_of(l, s, legs),
        StructureKind::CallCreditSpread => call_credit_thesis_of(l, s, legs),
        StructureKind::BrokenWingButterfly => broken_wing_thesis_of(l, s, legs),
    }
}

/// The bet of a structure in plain words, and where it wins and loses.
pub fn structure_thesis_lines(
    out: &mut Vec<TextLine>,
    s: &Suggestion,
    kind: StructureKind,
    legs: &Vec<StructureLeg>,
)
    requires
        s@.wf(),
        legs_wf(legs@),
    ensures
        lines(final(out)@) == thesis_of(lines(old(out)@), s@, kind, legs@),
{
    match kind {
        StructureKind::IronCondor => condor_thesis(out, s, legs),
        StructureKind::IronFly => fly_thesis(out, s, legs),
        StructureKind::ShortStrangle => strangle_thesis(out, s, legs),
        StructureKind::PutCreditSpread => put_credit_thesis(out, s, legs),
        StructureKind::CallCreditSpread => call_credit_thesis(out, s, legs),
        StructureKind::BrokenWingButterfly => broken_wing_thesis(out, s, legs),
    }
}

/// The line of a leg.
pub open spec fn leg_line(l: StructureLeg) -> LineView {
    plain(
        "  "@ + (match l.side {
            LegSide::Buy => "BUY "@,
            LegSide::Sell => "SELL"@,
        }) + "  $"@ + dec_text(l.strike as int, 0) + l.right.spec_code() + "  @ $"@ + dec_text(
            l.price as int,
            2,
        ) + (match l.side {
            LegSide::Buy => " (wing — your protection)"@,
            LegSide::Sell => " (short — the bet)"@,
        }),
    )
}

/// The lines of the first `n` legs.
pub open spec fn leg_lines(legs: Seq<StructureLeg>, n: int) -> Seq<LineView>
    decreases n,
{
    if n <= 0 {
        Seq::empty()
    } else {
        leg_lines(legs, n - 1).push(leg_line(legs[n - 1]))
    }
}

fn add_leg_lines(out: &mut Vec<TextLine>, legs: &Vec<StructureLeg>)
    requires
        legs_wf(legs@),
    ensures
        lines(final(out)@) == lines(old(out)@) + leg_lines(legs@, legs@.len() as int),
{
    let mut i: usize = 0;
    assert(lines(out@) + leg_lines(legs@, 0) =~= lines(out@));
    while i < legs.len()
        invariant
            legs_wf(legs@),
            i <= legs@.len(),
            lines(out@) == lines(old(out)@) + leg_lines(legs@, i as int),
        decreases legs@.len() - i,
    {
        let l = legs[i];
        assert(l.wf());
        let mut t = String::from_str("  ");
        t.append(
            match l.side {
                LegSide::Buy => "BUY ",
                LegSide::Sell => "SELL",
            },
        );
        t.append("  $");
        push_dec(&mut t, l.strike as i128, 0);
        t.append(l.right.code());
        t.append("  @ $");
        push_dec(&mut t, l.price as i128, 2);
        t.append(
            match l.side {
                LegSide::Buy => " (wing — your protection)",
                LegSide::Sell => " (short — the bet)",
            },
        );
        put_line(out, LineStyle::Plain, t);
        i = i + 1;
        assert(lines(out@) =~= lines(old(out)@) + leg_lines(legs@, i as int));
    }
}

/// The lines `l`, and behind them what a structure means.
pub open spec fn structure_text_of(
    l: Seq<LineView>,
    s: SuggestionView,
    kind: StructureKind,
    legs: Seq<StructureLeg>,
) -> Seq<LineView> {
    let l = l.push(
        plain(
            "OPEN "@ + int_text(s.quantity) + " "@ + s.symbol + " "@ + kind.spec_label()
                + " — "@ + when_of(s) + " ("@ + dashed_text(s.expiry) + ")."@,
        ),
    );
    let l = l.push(plain(""@));
    let l = thesis_of(l, s, kind, legs);
    let l = if kind.naked() {
        let l = l.push(
            line(
                LineStyle::Alarm,
                "⚠ NAKED — needs a naked-options permission tier; size small."@,
            ),
        );
        l
    } else {
        l
    };
    let l = l.push(plain(""@));
    let l = l.push(line(LineStyle::Dim, "The legs (sent as ONE combo order):"@));
    let l = l + leg_lines(legs, legs.len() as int);
    let l = l.push(plain(""@));
    let l = l.push(
        plain(
            "  Collect now   $"@ + dec_text(s.premium_total, 0)
                + "   (the credit — yours to keep if you win)"@,
        ),
    );
    let l = if kind.naked() {
        let l = l.push(
            plain(
                "  Risk          $"@ + dec_text(s.capital_required, 0)
                    + "   (NAKED — effectively uncapped on a gap)"@,
            ),
        );
        l
    } else {
        let l = l.push(
            plain(
                "  Risk up to    $"@ + dec_text(s.capital_required, 0)
                    + "   (the MOST you can lose — capped by the wings)"@,
            ),
        );
        l
    };
    let b = breakevens_of(legs);
    let l = if b.len() >= 2 {
        let (lo, hi) = (b[0], b[b.len() - 1]);
        let l = l.push(
            plain(
                "  Breakevens    $"@ + dec_text(lo, 0) + "  /  $"@ + dec_text(hi, 0)
                    + "   (profit only between these)"@,
            ),
        );
        l
    } else {
        let l = if b.len() == 1 {
            let lo = b[0];
            let l = l.push(plain("  Breakeven     $"@ + dec_text(lo, 0)));
            l
        } else {
            l
        };
        l
    };
    let l = if kind.has_pop() {
        let l = match pop_of(legs) {
            Some(p) => {
                let l = l.push(
                    plain(
                        "  Est. win      ~"@ + ratio_text(p, 10_000, 0)
                            + "%   (chance it lands in the win zone)"@,
                    ),
                );
                l
            },
            None => l,
        };
        l
    } else {
        l
    };
    let l = l.push(plain(""@));
    let l = l + move_lines(legs, s.underlying_price, s.symbol, s.quantity * 100);
    let l = l.push(plain(""@));
    let l = l.push(
        line(
            LineStyle::Good,
            "Take profit at the slot's target; for defined risk, let the wings be the stop."@,
        ),
    );
    l
}

/// Explains a structure: the bet, its legs, the money, and what each close earns.
pub fn structure_detail_lines(
    out: &mut Vec<TextLine>,
    s: &Suggestion,
    kind: StructureKind,
    legs: &Vec<StructureLeg>,
)
    requires
        s@.wf(),
        legs_wf(legs@),
    ensures
        lines(final(out)@) == structure_text_of(lines(old(out)@), s@, kind, legs@),
{
    let when = when_text(s);
    let bes = breakevens(legs.as_slice());
    let mut t = String::from_str("OPEN ");
    push_int(&mut t, s.quantity as i128);
    t.append(" ");
    t.append(s.symbol.as_str());
    t.append(" ");
    t.append(kind.label());
    t.append(" — ");
    t.append(when.as_str());
    t.append(" (");
    t.append(dashed_date(s.expiry).as_str());
    t.append(").");
    put_line(out, LineStyle::Plain, t);
    put_text(out, LineStyle::Plain, "");
    structure_thesis_lines(out, s, kind, legs);
    if kind.is_naked() {
        put_text(
            out,
            LineStyle::Alarm,
            "⚠ NAKED — needs a naked-options permission tier; size small.",
        );
    }
    put_text(out, LineStyle::Plain, "");
    put_text(out, LineStyle::Dim, "The legs (sent as ONE combo order):");
    add_leg_lines(out, legs);
    put_text(out, LineStyle::Plain, "");
    let mut t = String::from_str("  Collect now   $");
    push_dec(&mut t, s.premium_total, 0);
    t.append("   (the credit — yours to keep if you win)");
    put_line(out, LineStyle::Plain, t);
    if kind.is_naked() {
        let mut t = String::from_str("  Risk          $");
        push_dec(&mut t, s.capital_required, 0);
        t.append("   (NAKED — effectively uncapped on a gap)");
        put_line(out, LineStyle::Plain, t);
    } else {
        let mut t = String::from_str("  Risk up to    $");
        push_dec(&mut t, s.capital_required, 0);
        t.append("   (the MOST you can lose — capped by the wings)");
        put_line(out, LineStyle::Plain, t);
    }
    if bes.len() >= 2 {
        let lo: i64 = bes[0];
        let hi: i64 = bes[bes.len() - 1];
        let mut t = String::from_str("  Breakevens    $");
        push_dec(&mut t, lo as i128, 0);
        t.append("  /  $");
        push_dec(&mut t, hi as i128, 0);
        t.append("   (profit only between these)");
        put_line(out, LineStyle::Plain, t);
    } else {
        if bes.len() == 1 {
            let lo: i64 = bes[0];
            let mut t = String::from_str("  Breakeven     $");
            push_dec(&mut t, lo as i128, 0);
            put_line(out, LineStyle::Plain, t);
        }
    }
    if kind.pop_is_meaningful() {
        if let Some(p) = estimate_pop(legs.as_slice()) {
            let mut t = String::from_str("  Est. win      ~");
            push_ratio(&mut t, p as i128, 10_000, 0);
            t.append("%   (chance it lands in the win zone)");
            put_line(out, LineStyle::Plain, t);
        }
    }
    put_text(out, LineStyle::Plain, "");
    put_all(
        out,
        structure_scenarios(legs, s.underlying_price, s.symbol.as_str(), s.quantity as i64 * 100),
    );
    put_text(out, LineStyle::Plain, "");
    put_text(
        out,
        LineStyle::Good,
        "Take profit at the slot's target; for defined risk, let the wings be the stop.",
    );
}

// --- the panel -------------------------------------------------------------

/// What a suggestion means, in lines.
pub open spec fn body_of(s: SuggestionView, tp: int) -> Seq<LineView> {
    let l = Seq::empty();
    match s.kind {
        KindView::SellPut => put_text_of(l, s, tp),
        KindView::SellCall => call_text_of(l, s, tp),
        KindView::CloseForProfit => close_text_of(l, s),
        KindView::Roll { to_expiry, to_strike } => roll_text_of(l, s, to_expiry, to_strike),
        KindView::SellPutSpread { long_strike, long_price } => spread_text_of(
            l,
            s,
            tp,
            long_strike,
            long_price,
        ),
        KindView::OpenStructure { kind, legs } => structure_text_of(l, s, kind, legs),
    }
}

/// The bar of actions: executing is offered as live only while armed.
pub open spec fn action_bar(armed: bool) -> LineView {
    if armed {
        line(
            LineStyle::Alarm,
            "⚡ ARMED — [x] EXECUTE LIVE   ·   [A] disarm   ·   [p] preview   ·   [Esc] back"@,
        )
    } else {
        line(
            LineStyle::Keys,
            "[p] preview what-if    [A] arm    [x] execute (arm first)    [Esc] back"@,
        )
    }
}

/// The detail panel of a suggestion.
pub open spec fn detail_of(s: SuggestionView, tp: int, armed: bool, status: Seq<char>) -> Seq<
    LineView,
> {
    body_of(s, tp).push(plain(""@)).push(action_bar(armed)).push(
        line(LineStyle::Dim, "  "@ + status),
    )
}

/// Explains a suggestion in plain words, with the bar of actions that the
/// preview, arm and execute gates allow.
pub fn suggestion_detail_lines(s: &Suggestion, app: &App) -> (r: Vec<TextLine>)
    requires
        s@.wf(),
        -10 * SCALE <= app.cfg.engine.take_profit_pct <= 10 * SCALE,
    ensures
        lines(r@) == detail_of(
            s@,
            app.cfg.engine.take_profit_pct as int,
            app.armed,
            app.status@,
        ),
{
    let tp: i64 = app.cfg.engine.take_profit_pct;
    let mut out: Vec<TextLine> = Vec::new();
    assert(lines(out@) =~= Seq::empty());
    match &s.kind {
        ActionKind::SellPut => put_lines(&mut out, s, tp),
        ActionKind::SellCall => call_lines(&mut out, s, tp),
        ActionKind::CloseForProfit => close_lines(&mut out, s),
        ActionKind::Roll { to_expiry, to_strike } => roll_lines(&mut out, s, *to_expiry, *to_strike),
        ActionKind::SellPutSpread { long_strike, long_price } => spread_lines(
            &mut out,
            s,
            tp,
            *long_strike,
            *long_price,
        ),
        ActionKind::OpenStructure { kind, legs } => structure_detail_lines(
            &mut out,
            s,
            *kind,
            legs,
        ),
    }
    put_text(&mut out, LineStyle::Plain, "");
    if app.armed {
        put_text(
            &mut out,
            LineStyle::Alarm,
            "⚡ ARMED — [x] EXECUTE LIVE   ·   [A] disarm   ·   [p] preview   ·   [Esc] back",
        );
    } else {
        put_text(
            &mut out,
            LineStyle::Keys,
            "[p] preview what-if    [A] arm    [x] execute (arm first)    [Esc] back",
        );
    }
    let mut t = String::from_str("  ");
    t.append(app.status.as_str());
    put_line(&mut out, LineStyle::Dim, t);
    out
}

/// The panel offers to execute live exactly while armed: its last but one line is
/// the alarm bar then, and the bar that says to arm first otherwise.
pub proof fn law_bar_follows_gate(s: SuggestionView, tp: int, armed: bool, status: Seq<char>)
    ensures
        ({
            let d = detail_of(s, tp, armed, status);
            &&& d.len() >= 3
            &&& (d[d.len() - 2].style == LineStyle::Alarm) == armed
        }),
{
}

} // verus!

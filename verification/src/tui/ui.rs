//! What is shown: explanations of suggestions in plain words, scenario tables,
//! and the cells of the lists.

use vstd::prelude::*;
use vstd::string::*;
use crate::dates::{dashed_date, dashed_text};
use crate::engine::math::{short_put_pnl, short_put_pnl_at};
use crate::engine::structures::payoff::{legs_wf, payoff, payoff_at};
use crate::engine::types::{
    opt_int, ActionKind, KindView, Right, StructureLeg, Suggestion, SuggestionView,
};
use crate::fixed::{
    dec_string, dec_text, int_string, int_text, is_price, max, push_dec, push_ratio, ratio_text,
    MAX_PRICE,
};
use crate::text::{own, texts};
use crate::tui::lines::{
    put_line, put_text, line, lines, no_lines, push_right, right_aligned, size_of, size_string,
    start_lines, LineStyle, LineView, TextLine,
};

verus! {

// --- labels ----------------------------------------------------------------

/// The heading of an action.
pub open spec fn title_of(k: KindView) -> Seq<char> {
    match k {
        KindView::SellPut => "Cash-Secured Put"@,
        KindView::SellCall => "Covered Call"@,
        KindView::CloseForProfit => "Close for Profit"@,
        KindView::Roll { .. } => "Roll (defend)"@,
        KindView::SellPutSpread { .. } => "Put Credit Spread"@,
        KindView::OpenStructure { kind, .. } => kind.spec_label(),
    }
}

/// Short heading of an action.
pub fn action_title(kind: &ActionKind) -> (r: &'static str)
    ensures
        r@ == title_of(kind@),
{
    match kind {
        ActionKind::SellPut => "Cash-Secured Put",
        ActionKind::SellCall => "Covered Call",
        ActionKind::CloseForProfit => "Close for Profit",
        ActionKind::Roll { .. } => "Roll (defend)",
        ActionKind::SellPutSpread { .. } => "Put Credit Spread",
        ActionKind::OpenStructure { kind, .. } => kind.label(),
    }
}

/// `put` or `call`.
pub open spec fn right_word(r: Right) -> Seq<char> {
    match r {
        Right::Put => "put"@,
        Right::Call => "call"@,
    }
}

/// `put` or `call`.
pub fn right_text(r: Right) -> (t: &'static str)
    ensures
        t@ == right_word(r),
{
    match r {
        Right::Put => "put",
        Right::Call => "call",
    }
}

/// A dollar amount, or a dash.
pub open spec fn money_text(v: Option<int>) -> Seq<char> {
    match v {
        Some(x) => "$"@ + dec_text(x, 0),
        None => "—"@,
    }
}

/// A dollar amount, or a dash where there is none.
pub fn money(v: Option<i64>) -> (r: String)
    ensures
        r@ == money_text(opt_int(v)),
{
    match v {
        Some(x) => {
            let mut s = String::from_str("$");
            push_dec(&mut s, x as i128, 0);
            s
        },
        None => own("—"),
    }
}

/// The cells of a suggestion in the lists.
pub open spec fn cells_of(s: SuggestionView) -> Seq<Seq<char>> {
    seq![
        s.symbol,
        s.kind.label(),
        dec_text(s.strike, 1),
        dashed_text(s.expiry),
        int_text(s.dte),
        (match s.delta {
            Some(d) => dec_text(d, 2),
            None => "-"@,
        }),
        dec_text(s.limit_price, 2),
        ratio_text(s.annualized_yield, 10_000_000, 0) + "%"@,
        (if s.capital_required > 0 {
            dec_text(s.capital_required, 0)
        } else {
            "—"@
        }),
    ]
}

/// The cells of a suggestion in the lists: symbol, action, strike, expiry, days,
/// delta, premium, yield, capital.
pub fn suggestion_cells(s: &Suggestion) -> (r: Vec<String>)
    requires
        s@.wf(),
    ensures
        texts(r@) == cells_of(s@),
{
    let mut out: Vec<String> = Vec::new();
    out.push(own(s.symbol.as_str()));
    out.push(own(s.kind.display_label()));
    out.push(dec_string(s.strike as i128, 1));
    out.push(dashed_date(s.expiry));
    out.push(int_string(s.dte as i128));
    out.push(
        match s.delta {
            Some(d) => dec_string(d as i128, 2),
            None => own("-"),
        },
    );
    out.push(dec_string(s.limit_price as i128, 2));
    let mut y = String::new();
    push_ratio(&mut y, s.annualized_yield, 10_000_000, 0);
    y.append("%");
    assert(y@ =~= ratio_text(s@.annualized_yield, 10_000_000, 0) + "%"@);
    out.push(y);
    out.push(
        if s.capital_required > 0 {
            dec_string(s.capital_required, 0)
        } else {
            own("—")
        },
    );
    assert(texts(out@) =~= cells_of(s@));
    out
}

// --- scenarios -------------------------------------------------------------

/// `+` for a profit, a minus sign for a loss.
pub open spec fn sign_of(pnl: int) -> Seq<char> {
    if pnl >= 0 {
        "+"@
    } else {
        "−"@
    }
}

/// The style of a profit or a loss.
pub open spec fn pnl_style(pnl: int) -> LineStyle {
    if pnl >= 0 {
        LineStyle::Good
    } else {
        LineStyle::Bad
    }
}

/// The price after a fall of `pct` percent, rounded down to a millionth.
pub open spec fn fallen(spot: int, pct: int) -> int {
    spot * (100 - pct) / 100
}

/// The row of a short put's scenario table for a fall of `pct` percent.
pub open spec fn drop_row(
    spot: int,
    short: int,
    credit: int,
    long: Option<int>,
    shares: int,
    pct: int,
) -> LineView {
    let at = fallen(spot, pct);
    let pnl = short_put_pnl(at, short, credit, long, shares);
    line(
        pnl_style(pnl),
        "    −"@ + right_aligned(int_text(pct), 2) + "%  →  $"@ + right_aligned(dec_text(at, 2), 8)
            + "   "@ + sign_of(pnl) + "$"@ + right_aligned(size_of(pnl, 0), 9) + (if at >= short {
            "   · above strike"@
        } else {
            ""@
        }),
    )
}

/// The heading of a short put's scenario table: how far the strike is below.
pub open spec fn drop_head(spot: int, short: int) -> LineView {
    line(
        LineStyle::Dim,
        if short < spot {
            "  Stock $"@ + dec_text(spot, 2) + " now — the $"@ + dec_text(short, 1)
                + " strike is "@ + ratio_text((spot - short) * 100, spot, 0) + "% below:"@
        } else {
            "  If the stock falls, your P&L at expiry:"@
        },
    )
}

/// The scenario table of a short put: its profit or loss at expiry if the stock
/// falls by 5, 10, 20, 30 and 40 percent.
pub open spec fn drop_lines(
    spot: int,
    short: int,
    credit: int,
    long: Option<int>,
    shares: int,
) -> Seq<LineView> {
    if spot <= 0 {
        no_lines()
    } else {
        no_lines().push(drop_head(spot, short)).push(
            drop_row(spot, short, credit, long, shares, 5),
        ).push(drop_row(spot, short, credit, long, shares, 10)).push(
            drop_row(spot, short, credit, long, shares, 20),
        ).push(drop_row(spot, short, credit, long, shares, 30)).push(
            drop_row(spot, short, credit, long, shares, 40),
        )
    }
}

fn add_drop_row(
    out: &mut Vec<TextLine>,
    spot: i64,
    short: i64,
    credit: i64,
    long: Option<i64>,
    shares: i64,
    pct: i64,
)
    requires
        0 < spot <= MAX_PRICE,
        is_price(short as int),
        -5 * MAX_PRICE <= credit <= 5 * MAX_PRICE,
        long is Some ==> is_price(long->0 as int),
        -1_000_000_000_000 <= shares <= 1_000_000_000_000,
        0 <= pct <= 100,
    ensures
        lines(final(out)@) == lines(old(out)@).push(
            drop_row(
                spot as int,
                short as int,
                credit as int,
                opt_int(long),
                shares as int,
                pct as int,
            ),
        ),
{
    proof {
        assert(0 <= spot * (100 - pct) <= 100_000_000_000_000_000) by (nonlinear_arith)
            requires
                0 < spot <= 1_000_000_000_000_000,
                0 <= pct <= 100,
        ;
    }
    let wide: i128 = spot as i128 * (100 - pct) as i128;
    let at: i64 = (wide / 100) as i64;
    let pnl: i128 = short_put_pnl_at(at, short, credit, long, shares);
    proof {
        let per = short_put_pnl(at as int, short as int, credit as int, opt_int(long), 1);
        lemma_pnl_scale(at as int, short as int, credit as int, opt_int(long), shares as int);
        assert(-10_000_000_000_000_000_000_000_000_000 <= per * shares
            <= 10_000_000_000_000_000_000_000_000_000) by (nonlinear_arith)
            requires
                -10_000_000_000_000_000 <= per <= 10_000_000_000_000_000,
                -1_000_000_000_000 <= shares <= 1_000_000_000_000,
        ;
    }
    let mut s = String::from_str("    −");
    let p = int_string(pct as i128);
    push_right(&mut s, p.as_str(), 2);
    s.append("%  →  $");
    let a = dec_string(at as i128, 2);
    push_right(&mut s, a.as_str(), 8);
    s.append("   ");
    s.append(
        if pnl >= 0 {
            "+"
        } else {
            "−"
        },
    );
    s.append("$");
    let n = size_string(pnl, 0);
    push_right(&mut s, n.as_str(), 9);
    s.append(
        if at >= short {
            "   · above strike"
        } else {
            ""
        },
    );
    put_line(
        out,
        if pnl >= 0 {
            LineStyle::Good
        } else {
            LineStyle::Bad
        },
        s,
    );
}

proof fn lemma_pnl_scale(at: int, short: int, credit: int, long: Option<int>, shares: int)
    ensures
        short_put_pnl(at, short, credit, long, shares) == short_put_pnl(at, short, credit, long, 1)
            * shares,
{
    let owed = max(short - at, 0);
    let covered = match long {
        Some(k) => max(k - at, 0),
        None => 0,
    };
    let x = credit - (owed - covered);
    assert(x * 1 == x) by (nonlinear_arith);
}

/// The scenario table of a short put, hedged where there is a long strike; empty
/// where the spot is unknown.
pub fn downside_scenarios(spot: i64, short: i64, credit: i64, long: Option<i64>, shares: i64) -> (r:
    Vec<TextLine>)
    requires
        is_price(spot as int),
        is_price(short as int),
        -5 * MAX_PRICE <= credit <= 5 * MAX_PRICE,
        long is Some ==> is_price(long->0 as int),
        -1_000_000_000_000 <= shares <= 1_000_000_000_000,
    ensures
        lines(r@) == drop_lines(
            spot as int,
            short as int,
            credit as int,
            opt_int(long),
            shares as int,
        ),
{
    let mut out = start_lines();
    if spot <= 0 {
        return out;
    }
    if short < spot {
        let mut s = String::from_str("  Stock $");
        push_dec(&mut s, spot as i128, 2);
        s.append(" now — the $");
        push_dec(&mut s, short as i128, 1);
        s.append(" strike is ");
        push_ratio(&mut s, (spot as i128 - short as i128) * 100, spot as i128, 0);
        s.append("% below:");
        put_line(&mut out, LineStyle::Dim, s);
    } else {
        put_text(&mut out, LineStyle::Dim, "  If the stock falls, your P&L at expiry:");
    }
    add_drop_row(&mut out, spot, short, credit, long, shares, 5);
    add_drop_row(&mut out, spot, short, credit, long, shares, 10);
    add_drop_row(&mut out, spot, short, credit, long, shares, 20);
    add_drop_row(&mut out, spot, short, credit, long, shares, 30);
    add_drop_row(&mut out, spot, short, credit, long, shares, 40);
    out
}

/// The close after a move of `permille` thousandths, rounded down to a millionth.
pub open spec fn moved(spot: int, permille: int) -> int {
    spot * (1000 + permille) / 1000
}

/// The row of a structure's scenario table.
pub open spec fn move_row(
    legs: Seq<StructureLeg>,
    spot: int,
    shares: int,
    permille: int,
    label: Seq<char>,
) -> LineView {
    let at = moved(spot, permille);
    let pnl = payoff(legs, at) * shares;
    line(
        pnl_style(pnl),
        "    "@ + label + "%  →  $"@ + right_aligned(dec_text(at, 0), 8) + "   "@ + sign_of(pnl)
            + "$"@ + right_aligned(size_of(pnl, 0), 7) + (if permille == 0 {
            "  (flat)"@
        } else {
            ""@
        }),
    )
}

/// The scenario table of a structure: what it earns if the underlying closes up
/// to 2 percent away to either side.
pub open spec fn move_lines(
    legs: Seq<StructureLeg>,
    spot: int,
    symbol: Seq<char>,
    shares: int,
) -> Seq<LineView> {
    if spot <= 0 {
        no_lines()
    } else {
        no_lines().push(
            line(
                LineStyle::Dim,
                "  "@ + symbol + " is $"@ + dec_text(spot, 0)
                    + " now — where it CLOSES decides your P&L:"@,
            ),
        ).push(move_row(legs, spot, shares, -20, " -2.0"@)).push(
            move_row(legs, spot, shares, -10, " -1.0"@),
        ).push(move_row(legs, spot, shares, -5, " -0.5"@)).push(
            move_row(legs, spot, shares, 0, " +0.0"@),
        ).push(move_row(legs, spot, shares, 5, " +0.5"@)).push(
            move_row(legs, spot, shares, 10, " +1.0"@),
        ).push(move_row(legs, spot, shares, 20, " +2.0"@))
    }
}

fn add_move_row(
    out: &mut Vec<TextLine>,
    legs: &Vec<StructureLeg>,
    spot: i64,
    shares: i64,
    permille: i64,
    label: &str,
)
    requires
        legs_wf(legs@),
        0 < spot <= MAX_PRICE,
        -1_000_000_000_000 <= shares <= 1_000_000_000_000,
        -20 <= permille <= 20,
    ensures
        lines(final(out)@) == lines(old(out)@).push(
            move_row(legs@, spot as int, shares as int, permille as int, label@),
        ),
{
    proof {
        assert(0 <= spot * (1000 + permille) <= 1_020_000_000_000_000_000) by (nonlinear_arith)
            requires
                0 < spot <= 1_000_000_000_000_000,
                -20 <= permille <= 20,
        ;
    }
    let wide: i128 = spot as i128 * (1000 + permille) as i128;
    let at: i64 = (wide / 1000) as i64;
    let each: i128 = payoff_at(legs.as_slice(), at);
    proof {
        assert(-10_000_000_000_000_000_000_000_000_000_000_000 <= each * shares
            <= 10_000_000_000_000_000_000_000_000_000_000_000) by (nonlinear_arith)
            requires
                -6_000_000_000_000_000_000_000 <= each <= 6_000_000_000_000_000_000_000,
                -1_000_000_000_000 <= shares <= 1_000_000_000_000,
        ;
    }
    let pnl: i128 = each * shares as i128;
    let mut s = String::from_str("    ");
    s.append(label);
    s.append("%  →  $");
    let a = dec_string(at as i128, 0);
    push_right(&mut s, a.as_str(), 8);
    s.append("   ");
    s.append(
        if pnl >= 0 {
            "+"
        } else {
            "−"
        },
    );
    s.append("$");
    let n = size_string(pnl, 0);
    push_right(&mut s, n.as_str(), 7);
    s.append(
        if permille == 0 {
            "  (flat)"
        } else {
            ""
        },
    );
    put_line(
        out,
        if pnl >= 0 {
            LineStyle::Good
        } else {
            LineStyle::Bad
        },
        s,
    );
}

/// The scenario table of a structure; empty where the spot is unknown.
pub fn structure_scenarios(legs: &Vec<StructureLeg>, spot: i64, symbol: &str, shares: i64) -> (r:
    Vec<TextLine>)
    requires
        legs_wf(legs@),
        is_price(spot as int),
        -1_000_000_000_000 <= shares <= 1_000_000_000_000,
    ensures
        lines(r@) == move_lines(legs@, spot as int, symbol@, shares as int),
{
    let mut out = start_lines();
    if spot <= 0 {
        return out;
    }
    let mut s = String::from_str("  ");
    s.append(symbol);
    s.append(" is $");
    push_dec(&mut s, spot as i128, 0);
    s.append(" now — where it CLOSES decides your P&L:");
    put_line(&mut out, LineStyle::Dim, s);
    add_move_row(&mut out, legs, spot, shares, -20, " -2.0");
    add_move_row(&mut out, legs, spot, shares, -10, " -1.0");
    add_move_row(&mut out, legs, spot, shares, -5, " -0.5");
    add_move_row(&mut out, legs, spot, shares, 0, " +0.0");
    add_move_row(&mut out, legs, spot, shares, 5, " +0.5");
    add_move_row(&mut out, legs, spot, shares, 10, " +1.0");
    add_move_row(&mut out, legs, spot, shares, 20, " +2.0");
    out
}

/// What the scenario table of a hedged put shows is never worse than the cap: the
/// width less the credit, on all shares.
pub proof fn law_table_shows_cap(
    spot: int,
    short: int,
    credit: int,
    long: int,
    shares: int,
    pct: int,
)
    requires
        long <= short,
        shares >= 0,
    ensures
        short_put_pnl(fallen(spot, pct), short, credit, Some(long), shares) >= -((short - long
            - credit) * shares),
{
    crate::engine::math::law_spread_caps_loss(fallen(spot, pct), short, credit, long, shares);
}

} // verus!

//! Short strangle: a naked short put and short call, without wings. Undefined
//! risk, gated by `allow_naked`.

use vstd::prelude::*;
use vstd::string::*;
use crate::dates::dte;
use crate::engine::csp::money_of;
use crate::engine::structures::assemble::StructureParams;
use crate::engine::structures::iron_condor::{call_delta_of, call_target};
use crate::engine::structures::payoff::{credit_of, net_credit};
use crate::engine::structures::pick::{delta_pick, leg, leg_of, nearest_by_delta};
use crate::engine::types::{
    chain_wf, opt_view, ActionKind, KindView, LegSide, OptionQuote, Right, StructureLeg,
    Suggestion, SuggestionView,
};
use crate::fixed::{
    cents, dec_text, int_text, is_price, push_dec, push_int, round_cents_wide,
};
use crate::text::own;

verus! {

/// The legs of a strangle.
pub open spec fn strangle_legs(put: OptionQuote, call: OptionQuote) -> Seq<StructureLeg> {
    seq![leg_of(put, LegSide::Sell), leg_of(call, LegSide::Sell)]
}

/// The suggestion to sell a strangle: one lot, with the put's notional as a lower
/// bound of the risk.
pub open spec fn strangle_suggestion(
    params: StructureParams,
    symbol: Seq<char>,
    spot: int,
    put: OptionQuote,
    call: OptionQuote,
    today: int,
) -> SuggestionView {
    let legs = strangle_legs(put, call);
    let net = cents(credit_of(legs));
    SuggestionView {
        symbol,
        kind: KindView::OpenStructure { kind: params.kind, legs },
        right: Right::Put,
        strike: put.strike as int,
        underlying_price: spot,
        expiry: put.expiry as int,
        dte: put.expiry - today,
        quantity: 1,
        limit_price: net,
        delta: put.spec_abs_delta(),
        premium_total: net * 100 * 1,
        capital_required: put.strike * 100 * 1,
        annualized_yield: 0,
        rationale: "Short Strangle (NAKED) "@ + int_text(put.expiry - today) + "DTE: short "@
            + dec_text(put.strike as int, 0) + "P / "@ + dec_text(call.strike as int, 0)
            + "C, net credit $"@ + dec_text(net, 2) + " — undefined risk"@,
    }
}

/// The strangle of a chain: both shorts nearest to their target deltas; `None`
/// where one is missing or the credit is too small.
pub open spec fn strangle(
    params: StructureParams,
    symbol: Seq<char>,
    spot: int,
    quotes: Seq<OptionQuote>,
    today: int,
) -> Option<SuggestionView> {
    let tol = params.delta_tol as int;
    match (
        delta_pick(quotes, Right::Put, spot, params.short_delta as int, tol, today),
        delta_pick(quotes, Right::Call, spot, call_target(params), tol, today),
    ) {
        (Some(p), Some(c)) => if cents(credit_of(strangle_legs(p, c))) < params.min_credit {
            None
        } else {
            Some(strangle_suggestion(params, symbol, spot, p, c, today))
        },
        _ => None,
    }
}

/// Builds a short strangle for `params`: one lot, since there is no defined loss
/// to size against.
pub fn select(
    params: &StructureParams,
    symbol: &str,
    spot: i64,
    quotes: &[OptionQuote],
    today: i32,
) -> (r: Option<Suggestion>)
    requires
        chain_wf(quotes@),
        is_price(spot as int),
    ensures
        opt_view(r) == strangle(*params, symbol@, spot as int, quotes@, today as int),
        r is Some ==> (r->0)@.wf(),
{
    let tol: i64 = params.delta_tol;
    let put = match nearest_by_delta(quotes, Right::Put, spot, params.short_delta, tol, today) {
        Some(q) => q,
        None => {
            return None;
        },
    };
    let call = match nearest_by_delta(
        quotes,
        Right::Call,
        spot,
        call_delta_of(params),
        tol,
        today,
    ) {
        Some(q) => q,
        None => {
            return None;
        },
    };
    let mut legs: Vec<StructureLeg> = Vec::new();
    legs.push(leg(&put, LegSide::Sell));
    legs.push(leg(&call, LegSide::Sell));
    assert(legs@ =~= strangle_legs(put, call));
    let wide: i128 = round_cents_wide(net_credit(legs.as_slice()));
    let net: i64 = wide as i64;
    if net < params.min_credit {
        return None;
    }
    let d: i64 = dte(today, put.expiry);
    let mut s = String::from_str("Short Strangle (NAKED) ");
    push_int(&mut s, d as i128);
    s.append("DTE: short ");
    push_dec(&mut s, put.strike as i128, 0);
    s.append("P / ");
    push_dec(&mut s, call.strike as i128, 0);
    s.append("C, net credit $");
    push_dec(&mut s, wide, 2);
    s.append(" — undefined risk");
    let total: i128 = money_of(net, 1);
    let notional: i128 = money_of(put.strike, 1);
    Some(
        Suggestion {
            symbol: own(symbol),
            kind: ActionKind::OpenStructure { kind: params.kind, legs },
            right: Right::Put,
            strike: put.strike,
            underlying_price: spot,
            expiry: put.expiry,
            dte: d,
            quantity: 1,
            limit_price: net,
            delta: put.abs_delta(),
            premium_total: total,
            capital_required: notional,
            annualized_yield: 0,
            rationale: s,
        },
    )
}

} // verus!

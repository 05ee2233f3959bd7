//! One-sided vertical credit spread: a bull put spread or a bear call spread.

use vstd::prelude::*;
use crate::engine::structures::assemble::{build_defined_risk, defined_risk, StructureParams};
use crate::engine::structures::iron_condor::{call_delta_of, call_target};
use crate::engine::structures::pick::{
    delta_pick, leg, leg_of, nearest_by_delta, nearest_by_strike, strike_pick,
};
use crate::engine::types::{
    chain_wf, opt_view, LegSide, OptionQuote, Right, StructureLeg, Suggestion, SuggestionView,
};
use crate::fixed::is_price;

verus! {

/// The target delta of the short leg.
pub open spec fn spread_target(params: StructureParams, side: Right) -> int {
    match side {
        Right::Put => params.short_delta as int,
        Right::Call => call_target(params),
    }
}

/// Where the protective wing should stand: below a short put, above a short call.
pub open spec fn wing_target(params: StructureParams, short: OptionQuote, side: Right) -> int {
    match side {
        Right::Put => short.strike - params.wing_points,
        Right::Call => short.strike + params.wing_points,
    }
}

/// The credit spread of a chain on one side; `None` where a leg is missing or the
/// wing is not further out than the short.
pub open spec fn credit_spread(
    params: StructureParams,
    symbol: Seq<char>,
    spot: int,
    quotes: Seq<OptionQuote>,
    today: int,
    side: Right,
) -> Option<SuggestionView> {
    let target = spread_target(params, side);
    match delta_pick(quotes, side, spot, target, params.delta_tol as int, today) {
        Some(short) => match strike_pick(
            quotes,
            side,
            Some(short.expiry as int),
            wing_target(params, short, side),
        ) {
            Some(long) => {
                let further = match side {
                    Right::Put => long.strike < short.strike,
                    Right::Call => long.strike > short.strike,
                };
                if further {
                    defined_risk(
                        params,
                        symbol,
                        spot,
                        short.expiry as int,
                        today,
                        seq![leg_of(short, LegSide::Sell), leg_of(long, LegSide::Buy)],
                        leg_of(short, LegSide::Sell),
                    )
                } else {
                    None
                }
            },
            None => None,
        },
        None => None,
    }
}

/// Builds the best credit spread on `side` for `params`.
pub fn select(
    params: &StructureParams,
    symbol: &str,
    spot: i64,
    quotes: &[OptionQuote],
    today: i32,
    side: Right,
) -> (r: Option<Suggestion>)
    requires
        chain_wf(quotes@),
        is_price(spot as int),
    ensures
        opt_view(r) == credit_spread(*params, symbol@, spot as int, quotes@, today as int, side),
        r is Some ==> (r->0)@.wf(),
{
    let target: i64 = match side {
        Right::Put => params.short_delta,
        Right::Call => call_delta_of(params),
    };
    let short = match nearest_by_delta(quotes, side, spot, target, params.delta_tol, today) {
        Some(q) => q,
        None => {
            return None;
        },
    };
    let wing: i128 = params.wing_points as i128;
    let at: i128 = match side {
        Right::Put => short.strike as i128 - wing,
        Right::Call => short.strike as i128 + wing,
    };
    let long = match nearest_by_strike(quotes, side, Some(short.expiry), at) {
        Some(q) => q,
        None => {
            return None;
        },
    };
    let further = match side {
        Right::Put => long.strike < short.strike,
        Right::Call => long.strike > short.strike,
    };
    if !further {
        return None;
    }
    let mut legs: Vec<StructureLeg> = Vec::new();
    legs.push(leg(&short, LegSide::Sell));
    legs.push(leg(&long, LegSide::Buy));
    assert(legs@ =~= seq![leg_of(short, LegSide::Sell), leg_of(long, LegSide::Buy)]);
    build_defined_risk(
        params,
        symbol,
        spot,
        short.expiry,
        today,
        legs,
        leg(&short, LegSide::Sell),
    )
}

} // verus!

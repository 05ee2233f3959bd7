//! Broken-wing put butterfly for a net credit: one upper put bought, two body
//! puts sold, one lower put bought, the lower wing wider than the upper one. No
//! risk to the upside, a capped loss on a sharp drop.

use vstd::prelude::*;
use crate::engine::structures::assemble::{build_defined_risk, defined_risk, StructureParams};
use crate::engine::structures::pick::{
    delta_pick, leg, leg_of, nearest_by_delta, nearest_by_strike, strike_pick,
};
use crate::engine::types::{
    chain_wf, opt_view, LegSide, OptionQuote, Right, StructureLeg, Suggestion, SuggestionView,
};
use crate::fixed::is_price;

verus! {

/// The legs of the butterfly; the body stands twice.
pub open spec fn fly_legs(lower: OptionQuote, body: OptionQuote, upper: OptionQuote) -> Seq<
    StructureLeg,
> {
    seq![
        leg_of(lower, LegSide::Buy),
        leg_of(body, LegSide::Sell),
        leg_of(body, LegSide::Sell),
        leg_of(upper, LegSide::Buy),
    ]
}

/// The broken-wing butterfly of a chain: the body nearest to the target delta, a
/// wing the configured number of points above it and one three times as far
/// below; `None` where a leg is missing, the upper wing is not above the body, or
/// the lower one is not the wider.
pub open spec fn broken_wing(
    params: StructureParams,
    symbol: Seq<char>,
    spot: int,
    quotes: Seq<OptionQuote>,
    today: int,
) -> Option<SuggestionView> {
    match delta_pick(
        quotes,
        Right::Put,
        spot,
        params.short_delta as int,
        params.delta_tol as int,
        today,
    ) {
        Some(body) => {
            let expiry = Some(body.expiry as int);
            match (
                strike_pick(quotes, Right::Put, expiry, body.strike + params.wing_points),
                strike_pick(quotes, Right::Put, expiry, body.strike - 3 * params.wing_points),
            ) {
                (Some(upper), Some(lower)) => if upper.strike <= body.strike || body.strike
                    - lower.strike <= upper.strike - body.strike {
                    None
                } else {
                    defined_risk(
                        params,
                        symbol,
                        spot,
                        body.expiry as int,
                        today,
                        fly_legs(lower, body, upper),
                        leg_of(body, LegSide::Sell),
                    )
                },
                _ => None,
            }
        },
        None => None,
    }
}

/// Builds the best broken-wing put butterfly for `params`.
pub fn select(
    params: &StructureParams,
    symbol: &str,
    spot: i64,
    quotes: &[OptionQuote],
    today: i32,
) -> (r: Option<Suggestion>)
    requires
        chain_wf(quotes@),
        is_price(spot as int),
    ensures
        opt_view(r) == broken_wing(*params, symbol@, spot as int, quotes@, today as int),
        r is Some ==> (r->0)@.wf(),
{
    let body = match nearest_by_delta(
        quotes,
        Right::Put,
        spot,
        params.short_delta,
        params.delta_tol,
        today,
    ) {
        Some(q) => q,
        None => {
            return None;
        },
    };
    let wing: i128 = params.wing_points as i128;
    let at: i128 = body.strike as i128;
    let upper = match nearest_by_strike(quotes, Right::Put, Some(body.expiry), at + wing) {
        Some(q) => q,
        None => {
            return None;
        },
    };
    let lower = match nearest_by_strike(quotes, Right::Put, Some(body.expiry), at - 3 * wing) {
        Some(q) => q,
        None => {
            return None;
        },
    };
    let above: i64 = upper.strike - body.strike;
    let below: i64 = body.strike - lower.strike;
    if above <= 0 || below <= above {
        return None;
    }
    let mut legs: Vec<StructureLeg> = Vec::new();
    legs.push(leg(&lower, LegSide::Buy));
    legs.push(leg(&body, LegSide::Sell));
    legs.push(leg(&body, LegSide::Sell));
    legs.push(leg(&upper, LegSide::Buy));
    assert(legs@ =~= fly_legs(lower, body, upper));
    build_defined_risk(
        params,
        symbol,
        spot,
        body.expiry,
        today,
        legs,
        leg(&body, LegSide::Sell),
    )
}

} // verus!

//! Iron fly: a short at-the-money straddle with protective wings.

use vstd::prelude::*;
use crate::engine::structures::assemble::{build_defined_risk, defined_risk, StructureParams};
use crate::engine::structures::iron_condor::condor_legs;
use crate::engine::structures::pick::{leg, leg_of, nearest_by_strike, strike_pick};
use crate::engine::types::{
    chain_wf, opt_view, LegSide, OptionQuote, Right, StructureLeg, Suggestion, SuggestionView,
};
use crate::fixed::{abs, is_price};

verus! {

/// The iron fly of a chain: the body at the put strike nearest to spot, a call at
/// the same strike, a wing the configured number of points to each side; `None`
/// where a leg is missing, the call is more than a millionth off the strike of the
/// put, or a wing falls on the body.
pub open spec fn iron_fly(
    params: StructureParams,
    symbol: Seq<char>,
    spot: int,
    quotes: Seq<OptionQuote>,
    today: int,
) -> Option<SuggestionView> {
    match strike_pick(quotes, Right::Put, None, spot) {
        Some(bp) => {
            let expiry = Some(bp.expiry as int);
            match (
                strike_pick(quotes, Right::Call, expiry, bp.strike as int),
                strike_pick(quotes, Right::Put, expiry, bp.strike - params.wing_points),
                strike_pick(quotes, Right::Call, expiry, bp.strike + params.wing_points),
            ) {
                (Some(bc), Some(lp), Some(lc)) => if abs(bc.strike - bp.strike) > 1
                    || lp.strike >= bp.strike || lc.strike <= bp.strike {
                    None
                } else {
                    defined_risk(
                        params,
                        symbol,
                        spot,
                        bp.expiry as int,
                        today,
                        condor_legs(lp, bp, bc, lc),
                        leg_of(bp, LegSide::Sell),
                    )
                },
                _ => None,
            }
        },
        None => None,
    }
}

/// Builds the best iron fly for `params`.
pub fn select(
    params: &StructureParams,
    symbol: &str,
    spot: i64,
    quotes: &[OptionQuote],
    today: i32,
) -> (r: Option<Suggestion>)
    requires
        chain_wf(quotes@),
        is_price(spot as int),
    ensures
        opt_view(r) == iron_fly(*params, symbol@, spot as int, quotes@, today as int),
        r is Some ==> (r->0)@.wf(),
{
    let bp = match nearest_by_strike(quotes, Right::Put, None, spot as i128) {
        Some(q) => q,
        None => {
            return None;
        },
    };
    let wing: i128 = params.wing_points as i128;
    let body: i128 = bp.strike as i128;
    let bc = match nearest_by_strike(quotes, Right::Call, Some(bp.expiry), body) {
        Some(q) => q,
        None => {
            return None;
        },
    };
    if bc.strike as i128 - body > 1 || body - bc.strike as i128 > 1 {
        return None;
    }
    let lp = match nearest_by_strike(quotes, Right::Put, Some(bp.expiry), body - wing) {
        Some(q) => q,
        None => {
            return None;
        },
    };
    let lc = match nearest_by_strike(quotes, Right::Call, Some(bp.expiry), body + wing) {
        Some(q) => q,
        None => {
            return None;
        },
    };
    if lp.strike >= bp.strike || lc.strike <= bp.strike {
        return None;
    }
    let mut legs: Vec<StructureLeg> = Vec::new();
    legs.push(leg(&lp, LegSide::Buy));
    legs.push(leg(&bp, LegSide::Sell));
    legs.push(leg(&bc, LegSide::Sell));
    legs.push(leg(&lc, LegSide::Buy));
    assert(legs@ =~= condor_legs(lp, bp, bc, lc));
    build_defined_risk(
        params,
        symbol,
        spot,
        bp.expiry,
        today,
        legs,
        leg(&bp, LegSide::Sell),
    )
}

} // verus!

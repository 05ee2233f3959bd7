//! Iron condor: a short put spread and a short call spread of one expiry.

use vstd::prelude::*;
use crate::engine::structures::assemble::{build_defined_risk, defined_risk, StructureParams};
use crate::engine::structures::pick::{
    delta_pick, leg, leg_of, nearest_by_delta, nearest_by_strike, strike_pick,
};
use crate::engine::types::{
    chain_wf, opt_view, LegSide, OptionQuote, Right, StructureLeg, Suggestion, SuggestionView,
};
use crate::fixed::is_price;

verus! {

/// The target delta of the short call.
pub open spec fn call_target(params: StructureParams) -> int {
    if params.call_delta > 0 {
        params.call_delta as int
    } else {
        params.short_delta as int
    }
}

/// The target delta of the short call: its own where configured, else that of
/// the short put.
pub fn call_delta_of(params: &StructureParams) -> (r: i64)
    ensures
        r == call_target(*params),
{
    if params.call_delta > 0 {
        params.call_delta
    } else {
        params.short_delta
    }
}

/// The legs of a condor, long put first.
pub open spec fn condor_legs(
    long_put: OptionQuote,
    short_put: OptionQuote,
    short_call: OptionQuote,
    long_call: OptionQuote,
) -> Seq<StructureLeg> {
    seq![
        leg_of(long_put, LegSide::Buy),
        leg_of(short_put, LegSide::Sell),
        leg_of(short_call, LegSide::Sell),
        leg_of(long_call, LegSide::Buy),
    ]
}

/// The iron condor of a chain: shorts nearest to their target deltas, each with
/// a wing the configured number of points further out; `None` where a leg is
/// missing or a wing falls on its short.
pub open spec fn condor(
    params: StructureParams,
    symbol: Seq<char>,
    spot: int,
    quotes: Seq<OptionQuote>,
    today: int,
) -> Option<SuggestionView> {
    let tol = params.delta_tol as int;
    match (
        delta_pick(quotes, Right::Put, spot, params.short_delta as int, tol, today),
        delta_pick(quotes, Right::Call, spot, call_target(params), tol, today),
    ) {
        (Some(sp), Some(sc)) => {
            let expiry = Some(sp.expiry as int);
            match (
                strike_pick(quotes, Right::Put, expiry, sp.strike - params.wing_points),
                strike_pick(quotes, Right::Call, expiry, sc.strike + params.wing_points),
            ) {
                (Some(lp), Some(lc)) => if lp.strike >= sp.strike || lc.strike <= sc.strike {
                    None
                } else {
                    defined_risk(
                        params,
                        symbol,
                        spot,
                        sp.expiry as int,
                        today,
                        condor_legs(lp, sp, sc, lc),
                        leg_of(sp, LegSide::Sell),
                    )
                },
                _ => None,
            }
        },
        _ => None,
    }
}

/// Builds the best iron condor for `params`.
pub fn select(
    params: &StructureParams,
    symbol: &str,
    spot: i64,
    quotes: &[OptionQuote],
    today: i32,
) -> (r: Option<Suggestion>)
    requires
        chain_wf(quotes@),
        is_price(spot as int),
    ensures
        opt_view(r) == condor(*params, symbol@, spot as int, quotes@, today as int),
        r is Some ==> (r->0)@.wf(),
{
    let tol: i64 = params.delta_tol;
    let sp = match nearest_by_delta(quotes, Right::Put, spot, params.short_delta, tol, today) {
        Some(q) => q,
        None => {
            return None;
        },
    };
    let sc = match nearest_by_delta(quotes, Right::Call, spot, call_delta_of(params), tol, today) {
        Some(q) => q,
        None => {
            return None;
        },
    };
    let wing: i128 = params.wing_points as i128;
    let lp = match nearest_by_strike(
        quotes,
        Right::Put,
        Some(sp.expiry),
        sp.strike as i128 - wing,
    ) {
        Some(q) => q,
        None => {
            return None;
        },
    };
    let lc = match nearest_by_strike(
        quotes,
        Right::Call,
        Some(sp.expiry),
        sc.strike as i128 + wing,
    ) {
        Some(q) => q,
        None => {
            return None;
        },
    };
    if lp.strike >= sp.strike || lc.strike <= sc.strike {
        return None;
    }
    let mut legs: Vec<StructureLeg> = Vec::new();
    legs.push(leg(&lp, LegSide::Buy));
    legs.push(leg(&sp, LegSide::Sell));
    legs.push(leg(&sc, LegSide::Sell));
    legs.push(leg(&lc, LegSide::Buy));
    assert(legs@ =~= condor_legs(lp, sp, sc, lc));
    build_defined_risk(
        params,
        symbol,
        spot,
        sp.expiry,
        today,
        legs,
        leg(&sp, LegSide::Sell),
    )
}

} // verus!

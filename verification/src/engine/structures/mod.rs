//! Multi-leg, short-dated structures: iron condors, credit spreads, broken-wing
//! butterflies, iron flies, strangles.
//!
//! At expiry the profit of every structure is piecewise linear in the settle
//! price with kinks only at the strikes, so risk and reward of any set of legs
//! follow from its values at the strikes and in the two tails.

pub mod assemble;
pub mod broken_wing;
pub mod credit_spread;
pub mod iron_condor;
pub mod iron_fly;
pub mod laws;
pub mod payoff;
pub mod pick;
pub mod strangle;

use vstd::prelude::*;
use crate::engine::structures::assemble::{law_size_within_budget, sized, StructureParams};
use crate::engine::structures::broken_wing::{broken_wing, fly_legs};
use crate::engine::structures::credit_spread::credit_spread;
use crate::engine::structures::iron_condor::{condor, condor_legs};
use crate::engine::structures::iron_fly::iron_fly;
use crate::engine::structures::payoff::{
    credit_of, law_loss_capped, legs_wf, max_loss, payoff, upside_slope,
};
use crate::engine::structures::pick::{delta_pick, leg_of, strike_pick};
use crate::engine::structures::strangle::strangle;
use crate::engine::types::{
    chain_wf, opt_view, LegSide, OptionQuote, Right, StructureKind, StructureLeg, Suggestion,
    SuggestionView,
};
use crate::fixed::{cents, is_price, law_cents, MAX_PRICE};

verus! {

/// The structure that `params` asks for, from a chain of one expiry; `None`
/// where nothing fits, and for a naked structure that is not allowed.
pub open spec fn structure_answer(
    params: StructureParams,
    symbol: Seq<char>,
    spot: int,
    quotes: Seq<OptionQuote>,
    today: int,
) -> Option<SuggestionView> {
    if spot <= 0 || quotes.len() == 0 || (params.kind.naked() && !params.allow_naked) {
        None
    } else {
        match params.kind {
            StructureKind::IronCondor => condor(params, symbol, spot, quotes, today),
            StructureKind::PutCreditSpread => credit_spread(
                params,
                symbol,
                spot,
                quotes,
                today,
                Right::Put,
            ),
            StructureKind::CallCreditSpread => credit_spread(
                params,
                symbol,
                spot,
                quotes,
                today,
                Right::Call,
            ),
            StructureKind::BrokenWingButterfly => broken_wing(params, symbol, spot, quotes, today),
            StructureKind::IronFly => iron_fly(params, symbol, spot, quotes, today),
            StructureKind::ShortStrangle => strangle(params, symbol, spot, quotes, today),
        }
    }
}

/// Selects the best structure for `params` from a chain of both sides, or `None`
/// where nothing fits.
pub fn select(
    params: &StructureParams,
    symbol: &str,
    spot: i64,
    quotes: &[OptionQuote],
    today: i32,
) -> (r: Option<Suggestion>)
    requires
        chain_wf(quotes@),
        is_price(spot as int),
    ensures
        opt_view(r) == structure_answer(*params, symbol@, spot as int, quotes@, today as int),
        r is Some ==> (r->0)@.wf(),
{
    if spot <= 0 || quotes.len() == 0 {
        return None;
    }
    if params.kind.is_naked() && !params.allow_naked {
        return None;
    }
    match params.kind {
        StructureKind::IronCondor => iron_condor::select(params, symbol, spot, quotes, today),
        StructureKind::PutCreditSpread => credit_spread::select(
            params,
            symbol,
            spot,
            quotes,
            today,
            Right::Put,
        ),
        StructureKind::CallCreditSpread => credit_spread::select(
            params,
            symbol,
            spot,
            quotes,
            today,
            Right::Call,
        ),
        StructureKind::BrokenWingButterfly => broken_wing::select(
            params,
            symbol,
            spot,
            quotes,
            today,
        ),
        StructureKind::IronFly => iron_fly::select(params, symbol, spot, quotes, today),
        StructureKind::ShortStrangle => strangle::select(params, symbol, spot, quotes, today),
    }
}

/// Whether a suggestion opens a structure of the asked kind that neither gains
/// nor loses without end on the upside, sized by the risk budget.
spec fn has_shape(params: StructureParams, s: SuggestionView) -> bool {
    let legs = s.kind->legs;
    &&& s.kind is OpenStructure
    &&& upside_slope(legs) == 0
    &&& legs_wf(legs)
    &&& s.quantity == sized(max_loss(legs), params.max_risk as int)
    &&& s.quantity >= 1
    &&& s.limit_price >= params.min_credit
}

proof fn lemma_delta_pick_wf(
    quotes: Seq<OptionQuote>,
    right: Right,
    spot: int,
    delta: int,
    tol: int,
    today: int,
)
    requires
        chain_wf(quotes),
        delta_pick(quotes, right, spot, delta, tol, today) is Some,
    ensures
        (delta_pick(quotes, right, spot, delta, tol, today)->0).wf(),
        (delta_pick(quotes, right, spot, delta, tol, today)->0).right == right,
{
}

proof fn lemma_strike_pick_wf(
    quotes: Seq<OptionQuote>,
    right: Right,
    expiry: Option<int>,
    target: int,
)
    requires
        chain_wf(quotes),
        strike_pick(quotes, right, expiry, target) is Some,
    ensures
        (strike_pick(quotes, right, expiry, target)->0).wf(),
        (strike_pick(quotes, right, expiry, target)->0).right == right,
{
}

proof fn lemma_leg_wf(q: OptionQuote, side: LegSide)
    requires
        q.wf(),
    ensures
        leg_of(q, side).wf(),
{
    let m = q.spec_mid();
    assert(0 <= m <= MAX_PRICE);
    law_cents(m, MAX_PRICE as int);
    law_cents(0, m);
    assert(0 <= cents(m) <= MAX_PRICE);
}

proof fn lemma_slope(legs: Seq<StructureLeg>)
    requires
        legs.len() == 4 || legs.len() == 2,
        forall|i: int| 0 <= i < legs.len() ==> (#[trigger] legs[i]).wf(),
        legs.len() == 4 ==> legs[0].right == Right::Put && legs[1].right == Right::Put && (
        legs[2].right == legs[3].right && legs[2].side == LegSide::Sell && legs[3].side
            == LegSide::Buy),
        legs.len() == 2 ==> legs[0].right == legs[1].right && legs[0].side == LegSide::Sell
            && legs[1].side == LegSide::Buy,
    ensures
        upside_slope(legs) == 0,
        legs_wf(legs),
{
    reveal_with_fuel(upside_slope, 6);
    if legs.len() == 4 {
        let c = legs.drop_last();
        let b = c.drop_last();
        let a = b.drop_last();
        assert(legs.last() == legs[3] && c.last() == legs[2] && b.last() == legs[1] && a.last()
            == legs[0]);
    } else {
        let a = legs.drop_last();
        assert(legs.last() == legs[1] && a.last() == legs[0]);
    }
}

proof fn lemma_condor_shape(
    params: StructureParams,
    symbol: Seq<char>,
    spot: int,
    quotes: Seq<OptionQuote>,
    today: int,
)
    requires
        chain_wf(quotes),
        condor(params, symbol, spot, quotes, today) is Some,
    ensures
        has_shape(params, condor(params, symbol, spot, quotes, today)->0),
{
    let tol = params.delta_tol as int;
    let call = iron_condor::call_target(params);
    lemma_delta_pick_wf(quotes, Right::Put, spot, params.short_delta as int, tol, today);
    lemma_delta_pick_wf(quotes, Right::Call, spot, call, tol, today);
    let sp = delta_pick(quotes, Right::Put, spot, params.short_delta as int, tol, today)->0;
    let sc = delta_pick(quotes, Right::Call, spot, call, tol, today)->0;
    let e = Some(sp.expiry as int);
    lemma_strike_pick_wf(quotes, Right::Put, e, sp.strike - params.wing_points);
    lemma_strike_pick_wf(quotes, Right::Call, e, sc.strike + params.wing_points);
    let lp = strike_pick(quotes, Right::Put, e, sp.strike - params.wing_points)->0;
    let lc = strike_pick(quotes, Right::Call, e, sc.strike + params.wing_points)->0;
    lemma_leg_wf(lp, LegSide::Buy);
    lemma_leg_wf(sp, LegSide::Sell);
    lemma_leg_wf(sc, LegSide::Sell);
    lemma_leg_wf(lc, LegSide::Buy);
    lemma_slope(condor_legs(lp, sp, sc, lc));
}

proof fn lemma_spread_shape(
    params: StructureParams,
    symbol: Seq<char>,
    spot: int,
    quotes: Seq<OptionQuote>,
    today: int,
    side: Right,
)
    requires
        chain_wf(quotes),
        credit_spread(params, symbol, spot, quotes, today, side) is Some,
    ensures
        has_shape(params, credit_spread(params, symbol, spot, quotes, today, side)->0),
{
    let tol = params.delta_tol as int;
    let target = credit_spread::spread_target(params, side);
    lemma_delta_pick_wf(quotes, side, spot, target, tol, today);
    let short = delta_pick(quotes, side, spot, target, tol, today)->0;
    let e = Some(short.expiry as int);
    let at = credit_spread::wing_target(params, short, side);
    lemma_strike_pick_wf(quotes, side, e, at);
    let long = strike_pick(quotes, side, e, at)->0;
    lemma_leg_wf(short, LegSide::Sell);
    lemma_leg_wf(long, LegSide::Buy);
    lemma_slope(seq![leg_of(short, LegSide::Sell), leg_of(long, LegSide::Buy)]);
}

proof fn lemma_wing_shape(
    params: StructureParams,
    symbol: Seq<char>,
    spot: int,
    quotes: Seq<OptionQuote>,
    today: int,
)
    requires
        chain_wf(quotes),
        broken_wing(params, symbol, spot, quotes, today) is Some,
    ensures
        has_shape(params, broken_wing(params, symbol, spot, quotes, today)->0),
{
    let tol = params.delta_tol as int;
    lemma_delta_pick_wf(quotes, Right::Put, spot, params.short_delta as int, tol, today);
    let body = delta_pick(quotes, Right::Put, spot, params.short_delta as int, tol, today)->0;
    let e = Some(body.expiry as int);
    lemma_strike_pick_wf(quotes, Right::Put, e, body.strike + params.wing_points);
    lemma_strike_pick_wf(quotes, Right::Put, e, body.strike - 3 * params.wing_points);
    let upper = strike_pick(quotes, Right::Put, e, body.strike + params.wing_points)->0;
    let lower = strike_pick(quotes, Right::Put, e, body.strike - 3 * params.wing_points)->0;
    lemma_leg_wf(lower, LegSide::Buy);
    lemma_leg_wf(body, LegSide::Sell);
    lemma_leg_wf(upper, LegSide::Buy);
    lemma_slope(fly_legs(lower, body, upper));
}

proof fn lemma_fly_shape(
    params: StructureParams,
    symbol: Seq<char>,
    spot: int,
    quotes: Seq<OptionQuote>,
    today: int,
)
    requires
        chain_wf(quotes),
        iron_fly(params, symbol, spot, quotes, today) is Some,
    ensures
        has_shape(params, iron_fly(params, symbol, spot, quotes, today)->0),
{
    lemma_strike_pick_wf(quotes, Right::Put, None, spot);
    let bp = strike_pick(quotes, Right::Put, None, spot)->0;
    let e = Some(bp.expiry as int);
    lemma_strike_pick_wf(quotes, Right::Call, e, bp.strike as int);
    lemma_strike_pick_wf(quotes, Right::Put, e, bp.strike - params.wing_points);
    lemma_strike_pick_wf(quotes, Right::Call, e, bp.strike + params.wing_points);
    let bc = strike_pick(quotes, Right::Call, e, bp.strike as int)->0;
    let lp = strike_pick(quotes, Right::Put, e, bp.strike - params.wing_points)->0;
    let lc = strike_pick(quotes, Right::Call, e, bp.strike + params.wing_points)->0;
    lemma_leg_wf(lp, LegSide::Buy);
    lemma_leg_wf(bp, LegSide::Sell);
    lemma_leg_wf(bc, LegSide::Sell);
    lemma_leg_wf(lc, LegSide::Buy);
    lemma_slope(condor_legs(lp, bp, bc, lc));
}

proof fn lemma_defined_shape(
    params: StructureParams,
    symbol: Seq<char>,
    spot: int,
    quotes: Seq<OptionQuote>,
    today: int,
)
    requires
        chain_wf(quotes),
        !params.kind.naked(),
        structure_answer(params, symbol, spot, quotes, today) is Some,
    ensures
        has_shape(params, structure_answer(params, symbol, spot, quotes, today)->0),
{
    match params.kind {
        StructureKind::IronCondor => lemma_condor_shape(params, symbol, spot, quotes, today),
        StructureKind::PutCreditSpread => lemma_spread_shape(
            params,
            symbol,
            spot,
            quotes,
            today,
            Right::Put,
        ),
        StructureKind::CallCreditSpread => lemma_spread_shape(
            params,
            symbol,
            spot,
            quotes,
            today,
            Right::Call,
        ),
        StructureKind::BrokenWingButterfly => lemma_wing_shape(
            params,
            symbol,
            spot,
            quotes,
            today,
        ),
        StructureKind::IronFly => lemma_fly_shape(params, symbol, spot, quotes, today),
        StructureKind::ShortStrangle => {},
    }
}

/// A structure other than the naked strangle has its risk defined: wherever the
/// underlying settles, it loses no more per share than its greatest loss, and in
/// all no more than the slot's risk budget; and it brings at least the credit
/// asked for.
pub proof fn law_defined_risk(
    params: StructureParams,
    symbol: Seq<char>,
    spot: int,
    quotes: Seq<OptionQuote>,
    today: int,
    settle: int,
)
    requires
        chain_wf(quotes),
        !params.kind.naked(),
        structure_answer(params, symbol, spot, quotes, today) is Some,
        settle >= 0,
    ensures
        ({
            let s = structure_answer(params, symbol, spot, quotes, today)->0;
            let legs = s.kind->legs;
            &&& payoff(legs, settle) >= -max_loss(legs)
            &&& payoff(legs, settle) * 100 * s.quantity >= -params.max_risk
            &&& s.limit_price >= params.min_credit
        }),
{
    lemma_defined_shape(params, symbol, spot, quotes, today);
    let s = structure_answer(params, symbol, spot, quotes, today)->0;
    let legs = s.kind->legs;
    law_loss_capped(legs, settle);
    law_size_within_budget(max_loss(legs), params.max_risk as int);
    let (p, m, n) = (payoff(legs, settle), max_loss(legs), s.quantity);
    assert(p * 100 * n >= -(m * 100 * n)) by (nonlinear_arith)
        requires
            p >= -m,
            n >= 1,
    ;
}

/// The naked strangle is never suggested unless it is allowed.
pub proof fn law_naked_needs_permission(
    params: StructureParams,
    symbol: Seq<char>,
    spot: int,
    quotes: Seq<OptionQuote>,
    today: int,
)
    requires
        params.kind.naked(),
        structure_answer(params, symbol, spot, quotes, today) is Some,
    ensures
        params.allow_naked,
{
}

proof fn lemma_puts_above(legs: Seq<StructureLeg>, x: int)
    requires
        forall|i: int|
            0 <= i < legs.len() ==> (#[trigger] legs[i]).right == Right::Put && legs[i].strike <= x,
    ensures
        payoff(legs, x) == credit_of(legs),
    decreases legs.len(),
{
    if legs.len() > 0 {
        let t = legs.drop_last();
        assert forall|i: int| 0 <= i < t.len() implies (#[trigger] t[i]).right == Right::Put
            && t[i].strike <= x by {
            assert(t[i] == legs[i]);
        }
        lemma_puts_above(t, x);
        assert(legs[legs.len() - 1] == legs.last());
    }
}

/// A broken-wing butterfly and a put credit spread carry no upside risk: settled
/// at or above all strikes they keep their credit.
pub proof fn law_no_upside_risk(
    params: StructureParams,
    symbol: Seq<char>,
    spot: int,
    quotes: Seq<OptionQuote>,
    today: int,
    settle: int,
)
    requires
        chain_wf(quotes),
        params.kind == StructureKind::BrokenWingButterfly || params.kind
            == StructureKind::PutCreditSpread,
        structure_answer(params, symbol, spot, quotes, today) is Some,
        ({
            let legs = (structure_answer(params, symbol, spot, quotes, today)->0).kind->legs;
            forall|i: int| 0 <= i < legs.len() ==> (#[trigger] legs[i]).strike <= settle
        }),
    ensures
        ({
            let legs = (structure_answer(params, symbol, spot, quotes, today)->0).kind->legs;
            payoff(legs, settle) == credit_of(legs)
        }),
{
    let legs = (structure_answer(params, symbol, spot, quotes, today)->0).kind->legs;
    lemma_puts_above(legs, settle);
}

} // verus!

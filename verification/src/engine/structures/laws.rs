//! What a suggested structure promises, said in the quotes it is made of.

use vstd::prelude::*;
use crate::engine::laws::{
    apart, has_delta, is_nearest_cent, law_known_delta, law_mid, law_nearest_cent, law_units,
};
use crate::engine::structures::assemble::{defined_risk, sized, StructureParams};
use crate::engine::structures::broken_wing::fly_legs;
use crate::engine::structures::iron_condor::condor_legs;
use crate::engine::structures::payoff::{
    credit_of, is_max_loss, lemma_max_loss_exists, legs_wf, max_loss, payoff,
};
use crate::engine::structures::pick::{
    delta_ok, delta_pick, is_delta_pick, is_strike_pick, leg_of, pick_delta, strike_ok, strike_pick,
};
use crate::engine::structures::strangle::strangle_legs;
use crate::engine::structures::structure_answer;
use crate::engine::types::{chain_wf, LegSide, OptionQuote, Right, StructureLeg, SuggestionView};
use crate::fixed::{cents, floor_div, law_cents, MAX_PRICE};

verus! {

// --- the words of the laws -------------------------------------------------

/// Days to expiry, none where it is past.
pub open spec fn days_left(q: OptionQuote, today: int) -> int {
    if q.expiry < today {
        0
    } else {
        q.expiry - today
    }
}

/// Whether a quote can be sold at a delta of about `target`: of the right, out of
/// the money, with a price, and with a known delta `x` no more than `tol` away.
pub open spec fn is_about(
    q: OptionQuote,
    right: Right,
    spot: int,
    target: int,
    tol: int,
    today: int,
    x: int,
) -> bool {
    &&& q.right == right
    &&& (right is Put ==> q.strike < spot)
    &&& (right is Call ==> q.strike > spot)
    &&& q.spec_mid() > 0
    &&& has_delta(q, spot, days_left(q, today), x)
    &&& apart(x, target) <= tol
}

/// Whether no quote that can be sold stands nearer to the target delta than the
/// `i`-th, and none before it stands as near.
pub open spec fn nearest_delta(
    quotes: Seq<OptionQuote>,
    right: Right,
    spot: int,
    target: int,
    tol: int,
    today: int,
    i: int,
) -> bool {
    &&& 0 <= i < quotes.len()
    &&& exists|x: int| #[trigger]
        is_about(quotes[i], right, spot, target, tol, today, x) && (forall|j: int, y: int|
            0 <= j < quotes.len() && #[trigger]
            is_about(quotes[j], right, spot, target, tol, today, y) ==> apart(x, target) < apart(
                y,
                target,
            ) || (apart(x, target) == apart(y, target) && i <= j))
}

/// Whether a quote can be bought as a wing: of the right and the expiry, with a price.
pub open spec fn is_listed(q: OptionQuote, right: Right, expiry: int) -> bool {
    q.right == right && q.expiry == expiry && q.spec_mid() > 0
}

/// Whether no listed quote stands nearer to the price `at` than the `i`-th, and none
/// before it stands as near.
pub open spec fn nearest_listed(
    quotes: Seq<OptionQuote>,
    right: Right,
    expiry: int,
    at: int,
    i: int,
) -> bool {
    &&& 0 <= i < quotes.len()
    &&& is_listed(quotes[i], right, expiry)
    &&& forall|j: int|
        0 <= j < quotes.len() && is_listed(#[trigger] quotes[j], right, expiry) ==> apart(
            quotes[i].strike as int,
            at,
        ) < apart(quotes[j].strike as int, at) || (apart(quotes[i].strike as int, at) == apart(
            quotes[j].strike as int,
            at,
        ) && i <= j)
}

/// Whether `l` is the quote `q`, bought or sold at its price to the cent.
pub open spec fn is_leg(l: StructureLeg, q: OptionQuote, side: LegSide) -> bool {
    &&& l.right == q.right
    &&& l.strike == q.strike
    &&& l.side == side
    &&& is_nearest_cent(q.spec_mid(), l.price as int)
    &&& match (l.delta, q.delta) {
        (Some(x), Some(d)) => x >= 0 && (x == d || x == -d),
        (None, None) => true,
        _ => false,
    }
}

/// The delta at which the call is sold: its own, or that of the put where none is set.
pub open spec fn call_aim(params: StructureParams) -> int {
    if params.call_delta <= 0 {
        params.short_delta as int
    } else {
        params.call_delta as int
    }
}

// --- what the words mean ---------------------------------------------------

proof fn lemma_about(
    q: OptionQuote,
    right: Right,
    spot: int,
    target: int,
    tol: int,
    today: int,
    x: int,
)
    ensures
        is_about(q, right, spot, target, tol, today, x) <==> delta_ok(
            q,
            right,
            spot,
            target,
            tol,
            today,
        ) && pick_delta(q, spot, today) == Some(x),
{
    law_known_delta(q, spot, days_left(q, today), x);
}

proof fn lemma_nearest_delta(
    quotes: Seq<OptionQuote>,
    right: Right,
    spot: int,
    target: int,
    tol: int,
    today: int,
    i: int,
)
    ensures
        nearest_delta(quotes, right, spot, target, tol, today, i) <==> is_delta_pick(
            quotes,
            quotes.len() as int,
            right,
            spot,
            target,
            tol,
            today,
            i,
        ),
        nearest_delta(quotes, right, spot, target, tol, today, i) ==> delta_pick(
            quotes,
            right,
            spot,
            target,
            tol,
            today,
        ) == Some(quotes[i]),
{
    let n = quotes.len() as int;
    assert forall|j: int, y: int| 0 <= j < n implies (#[trigger] is_about(
        quotes[j],
        right,
        spot,
        target,
        tol,
        today,
        y,
    ) <==> delta_ok(quotes[j], right, spot, target, tol, today) && pick_delta(
        quotes[j],
        spot,
        today,
    ) == Some(y)) by {
        lemma_about(quotes[j], right, spot, target, tol, today, y);
    }
    if is_delta_pick(quotes, n, right, spot, target, tol, today, i) {
        let x = pick_delta(quotes[i], spot, today)->0;
        assert(is_about(quotes[i], right, spot, target, tol, today, x));
        assert forall|j: int, y: int|
            0 <= j < n && #[trigger] is_about(
                quotes[j],
                right,
                spot,
                target,
                tol,
                today,
                y,
            ) implies apart(x, target) < apart(y, target) || (apart(x, target) == apart(y, target)
            && i <= j) by {
            assert(delta_ok(quotes[j], right, spot, target, tol, today));
        }
    }
    if nearest_delta(quotes, right, spot, target, tol, today, i) {
        let x = choose|x: int| #[trigger]
            is_about(quotes[i], right, spot, target, tol, today, x) && (forall|j: int, y: int|
                0 <= j < quotes.len() && #[trigger]
                is_about(quotes[j], right, spot, target, tol, today, y) ==> apart(x, target)
                    < apart(y, target) || (apart(x, target) == apart(y, target) && i <= j));
        assert forall|j: int|
            0 <= j < n && delta_ok(#[trigger] quotes[j], right, spot, target, tol, today) implies {
            let a = apart(x, target);
            let b = apart(pick_delta(quotes[j], spot, today)->0, target);
            a <= b && (j < i ==> a < b)
        } by {
            let y = pick_delta(quotes[j], spot, today)->0;
            assert(is_about(quotes[j], right, spot, target, tol, today, y));
        }
        assert(is_delta_pick(quotes, n, right, spot, target, tol, today, i));
        let c = choose|c: int| is_delta_pick(quotes, n, right, spot, target, tol, today, c);
        assert(is_delta_pick(quotes, n, right, spot, target, tol, today, c));
        assert(delta_ok(quotes[c], right, spot, target, tol, today));
        assert(delta_ok(quotes[i], right, spot, target, tol, today));
        assert(c == i);
    }
}

proof fn lemma_delta_index(
    quotes: Seq<OptionQuote>,
    right: Right,
    spot: int,
    target: int,
    tol: int,
    today: int,
) -> (i: int)
    requires
        delta_pick(quotes, right, spot, target, tol, today) is Some,
    ensures
        nearest_delta(quotes, right, spot, target, tol, today, i),
        delta_pick(quotes, right, spot, target, tol, today) == Some(quotes[i]),
        0 <= i < quotes.len(),
{
    let n = quotes.len() as int;
    let i = choose|i: int| is_delta_pick(quotes, n, right, spot, target, tol, today, i);
    lemma_nearest_delta(quotes, right, spot, target, tol, today, i);
    i
}

proof fn lemma_nearest_listed(
    quotes: Seq<OptionQuote>,
    right: Right,
    expiry: int,
    at: int,
    i: int,
)
    ensures
        nearest_listed(quotes, right, expiry, at, i) <==> is_strike_pick(
            quotes,
            quotes.len() as int,
            right,
            Some(expiry),
            at,
            i,
        ),
        nearest_listed(quotes, right, expiry, at, i) ==> strike_pick(
            quotes,
            right,
            Some(expiry),
            at,
        ) == Some(quotes[i]),
{
    let n = quotes.len() as int;
    let e = Some(expiry);
    assert forall|j: int| 0 <= j < n implies is_listed(#[trigger] quotes[j], right, expiry)
        == strike_ok(quotes[j], right, e) by {}
    if is_strike_pick(quotes, n, right, e, at, i) {
        assert forall|j: int|
            0 <= j < quotes.len() && is_listed(#[trigger] quotes[j], right, expiry) implies apart(
            quotes[i].strike as int,
            at,
        ) < apart(quotes[j].strike as int, at) || (apart(quotes[i].strike as int, at) == apart(
            quotes[j].strike as int,
            at,
        ) && i <= j) by {
            assert(strike_ok(quotes[j], right, e));
        }
        assert(nearest_listed(quotes, right, expiry, at, i));
    }
    if nearest_listed(quotes, right, expiry, at, i) {
        assert forall|j: int|
            0 <= j < n && strike_ok(#[trigger] quotes[j], right, e) implies apart(
            quotes[i].strike as int,
            at,
        ) <= apart(quotes[j].strike as int, at) && (j < i ==> apart(quotes[i].strike as int, at)
            < apart(quotes[j].strike as int, at)) by {
            assert(is_listed(quotes[j], right, expiry));
        }
        assert(is_strike_pick(quotes, n, right, e, at, i));
        let c = choose|c: int| is_strike_pick(quotes, n, right, e, at, c);
        assert(is_strike_pick(quotes, n, right, e, at, c));
        assert(strike_ok(quotes[c], right, e));
        assert(strike_ok(quotes[i], right, e));
        assert(c == i);
    }
}

proof fn lemma_listed_index(
    quotes: Seq<OptionQuote>,
    right: Right,
    expiry: int,
    at: int,
) -> (i: int)
    requires
        strike_pick(quotes, right, Some(expiry), at) is Some,
    ensures
        nearest_listed(quotes, right, expiry, at, i),
        strike_pick(quotes, right, Some(expiry), at) == Some(quotes[i]),
        0 <= i < quotes.len(),
{
    let n = quotes.len() as int;
    let i = choose|i: int| is_strike_pick(quotes, n, right, Some(expiry), at, i);
    lemma_nearest_listed(quotes, right, expiry, at, i);
    i
}

proof fn lemma_is_leg(q: OptionQuote, side: LegSide)
    requires
        q.wf(),
    ensures
        is_leg(leg_of(q, side), q, side),
        leg_of(q, side).wf(),
{
    let m = q.spec_mid();
    law_mid(q, m);
    assert(0 <= m <= MAX_PRICE);
    law_cents(m, MAX_PRICE as int);
    law_cents(0, m);
    assert(0 <= cents(m) <= MAX_PRICE);
    law_nearest_cent(m, cents(m));
}

proof fn lemma_leg_unique(l: StructureLeg, q: OptionQuote, side: LegSide)
    requires
        q.wf(),
        is_leg(l, q, side),
    ensures
        l == leg_of(q, side),
{
    lemma_is_leg(q, side);
    law_nearest_cent(q.spec_mid(), l.price as int);
    law_nearest_cent(q.spec_mid(), leg_of(q, side).price as int);
}

// --- terms -----------------------------------------------------------------

/// Whether the terms of a suggestion follow from its legs: the credit to the cent,
/// as many contracts as the risk budget bears at the greatest loss and no more, that
/// loss as the capital, and the credit over the loss as the return.
pub open spec fn has_terms(
    params: StructureParams,
    symbol: Seq<char>,
    spot: int,
    today: int,
    s: SuggestionView,
) -> bool {
    let legs = s.kind->legs;
    let loss = max_loss(legs);
    &&& s.symbol == symbol
    &&& s.kind is OpenStructure
    &&& s.kind->kind == params.kind
    &&& s.underlying_price == spot
    &&& s.dte == s.expiry - today
    &&& is_nearest_cent(credit_of(legs), s.limit_price)
    &&& s.limit_price >= params.min_credit
    &&& loss > 0
    &&& exists|x: int| #[trigger] payoff(legs, x) == -loss
    &&& s.quantity >= 1
    &&& loss * 100 * s.quantity <= params.max_risk
    &&& (s.quantity < i32::MAX ==> params.max_risk < loss * 100 * (s.quantity + 1))
    &&& s.premium_total == s.limit_price * 100 * s.quantity
    &&& exists|c: int| #[trigger]
        is_nearest_cent(loss, c) && s.capital_required == c * 100 * s.quantity
    &&& s.annualized_yield * loss <= s.limit_price * 1_000_000_000 < (s.annualized_yield + 1)
        * loss
}

proof fn lemma_sized(loss: int, budget: int)
    requires
        i64::MIN <= budget <= i64::MAX,
    ensures
        sized(loss, budget) >= 1 <==> 0 < loss * 100 <= budget,
        sized(loss, budget) >= 1 ==> loss * 100 * sized(loss, budget) <= budget,
        sized(loss, budget) >= 1 && sized(loss, budget) < i32::MAX ==> budget < loss * 100 * (
        sized(loss, budget) + 1),
{
    let each = loss * 100;
    let qty = sized(loss, budget);
    if each > 0 && budget >= 0 {
        law_units(budget, each);
        assert(qty * each == each * qty) by (nonlinear_arith);
        assert((qty + 1) * each == each * (qty + 1)) by (nonlinear_arith);
        if qty < 1 {
            assert((qty + 1) * each == each) by (nonlinear_arith)
                requires
                    qty == 0,
            ;
            assert(budget < each);
        } else {
            assert(each <= budget) by (nonlinear_arith)
                requires
                    qty >= 1,
                    each > 0,
                    qty * each <= budget,
            ;
        }
    }
}

proof fn lemma_return(net: int, loss: int)
    requires
        loss > 0,
    ensures
        floor_div(net * 1_000_000_000, loss) * loss <= net * 1_000_000_000 < (floor_div(
            net * 1_000_000_000,
            loss,
        ) + 1) * loss,
{
    let a = net * 1_000_000_000;
    let y = a / loss;
    assert(y * loss <= a < (y + 1) * loss) by (nonlinear_arith)
        requires
            loss > 0,
            y == a / loss,
    ;
}

#[verifier::rlimit(40)]
proof fn lemma_terms(
    params: StructureParams,
    symbol: Seq<char>,
    spot: int,
    expiry: int,
    today: int,
    legs: Seq<StructureLeg>,
    primary: StructureLeg,
)
    requires
        legs_wf(legs),
    ensures
        defined_risk(params, symbol, spot, expiry, today, legs, primary) is Some <==> cents(
            credit_of(legs),
        ) >= params.min_credit && 0 < max_loss(legs) * 100 <= params.max_risk,
        defined_risk(params, symbol, spot, expiry, today, legs, primary) is Some ==> has_terms(
            params,
            symbol,
            spot,
            today,
            defined_risk(params, symbol, spot, expiry, today, legs, primary)->0,
        ),
        defined_risk(params, symbol, spot, expiry, today, legs, primary) is Some ==> ({
            let s = defined_risk(params, symbol, spot, expiry, today, legs, primary)->0;
            s.kind->legs == legs && s.right == primary.right && s.strike == primary.strike
                && s.expiry == expiry
        }),
{
    lemma_max_loss_exists(legs);
    let loss = max_loss(legs);
    assert(is_max_loss(legs, loss));
    law_nearest_cent(credit_of(legs), cents(credit_of(legs)));
    law_nearest_cent(loss, cents(loss));
    lemma_sized(loss, params.max_risk as int);
    match defined_risk(params, symbol, spot, expiry, today, legs, primary) {
        Some(s) => {
            assert(loss > 0);
            assert(exists|x: int| #[trigger] payoff(legs, x) == -loss);
            assert(is_nearest_cent(loss, cents(loss)));
            assert(s.capital_required == cents(loss) * 100 * s.quantity);
            lemma_return(s.limit_price, loss);
            assert(has_terms(params, symbol, spot, today, s));
        },
        None => {},
    }
}

proof fn lemma_legs_wf(legs: Seq<StructureLeg>)
    requires
        legs.len() <= 4,
        forall|i: int| 0 <= i < legs.len() ==> (#[trigger] legs[i]).wf(),
    ensures
        legs_wf(legs),
{
}

/// What the legs bring in is what is sold less what is bought.
pub proof fn law_credit(legs: Seq<StructureLeg>, l: StructureLeg)
    ensures
        credit_of(Seq::<StructureLeg>::empty()) == 0,
        l.side is Sell ==> credit_of(legs.push(l)) == credit_of(legs) + l.price,
        l.side is Buy ==> credit_of(legs.push(l)) == credit_of(legs) - l.price,
{
    assert(legs.push(l).drop_last() =~= legs);
}

/// What a further leg adds to the profit at a settle price: a put is worth how far
/// the price is below its strike, a call how far above; a bought leg earns its worth
/// less its price, a sold one its price less its worth.
pub proof fn law_payoff(legs: Seq<StructureLeg>, l: StructureLeg, x: int)
    ensures
        payoff(Seq::<StructureLeg>::empty(), x) == 0,
        ({
            let gain = payoff(legs.push(l), x) - payoff(legs, x);
            let k = l.strike as int;
            let p = l.price as int;
            &&& l.right is Put && x >= k && l.side is Buy ==> gain == -p
            &&& l.right is Put && x >= k && l.side is Sell ==> gain == p
            &&& l.right is Put && x < k && l.side is Buy ==> gain == k - x - p
            &&& l.right is Put && x < k && l.side is Sell ==> gain == p - (k - x)
            &&& l.right is Call && x <= k && l.side is Buy ==> gain == -p
            &&& l.right is Call && x <= k && l.side is Sell ==> gain == p
            &&& l.right is Call && x > k && l.side is Buy ==> gain == x - k - p
            &&& l.right is Call && x > k && l.side is Sell ==> gain == p - (x - k)
        }),
{
    assert(legs.push(l).drop_last() =~= legs);
}

// --- iron condor -----------------------------------------------------------

/// The legs of a suggested condor, by their place in the chain (long put, short put,
/// short call, long call): each short is the nearest to its delta, each long the
/// nearest to the configured number of points outside its short, of the expiry of the
/// short put.
#[verifier::rlimit(60)]
#[verifier::spinoff_prover]
pub proof fn law_condor_legs(
    params: StructureParams,
    symbol: Seq<char>,
    spot: int,
    quotes: Seq<OptionQuote>,
    today: int,
) -> (r: (int, int, int, int))
    requires
        chain_wf(quotes),
        params.kind is IronCondor,
        structure_answer(params, symbol, spot, quotes, today) is Some,
    ensures
        ({
            let s = structure_answer(params, symbol, spot, quotes, today)->0;
            let legs = s.kind->legs;
            let e = quotes[r.1].expiry as int;
            &&& has_terms(params, symbol, spot, today, s)
            &&& nearest_delta(
                quotes,
                Right::Put,
                spot,
                params.short_delta as int,
                params.delta_tol as int,
                today,
                r.1,
            )
            &&& nearest_delta(
                quotes,
                Right::Call,
                spot,
                call_aim(params),
                params.delta_tol as int,
                today,
                r.2,
            )
            &&& nearest_listed(
                quotes,
                Right::Put,
                e,
                quotes[r.1].strike - params.wing_points,
                r.0,
            )
            &&& nearest_listed(
                quotes,
                Right::Call,
                e,
                quotes[r.2].strike + params.wing_points,
                r.3,
            )
            &&& legs.len() == 4
            &&& is_leg(legs[0], quotes[r.0], LegSide::Buy)
            &&& is_leg(legs[1], quotes[r.1], LegSide::Sell)
            &&& is_leg(legs[2], quotes[r.2], LegSide::Sell)
            &&& is_leg(legs[3], quotes[r.3], LegSide::Buy)
            &&& quotes[r.0].strike < quotes[r.1].strike < spot < quotes[r.2].strike
                < quotes[r.3].strike
            &&& s.right is Put
            &&& s.strike == quotes[r.1].strike
            &&& s.expiry == e
        }),
{
    let tol = params.delta_tol as int;
    let b = lemma_delta_index(quotes, Right::Put, spot, params.short_delta as int, tol, today);
    let c = lemma_delta_index(quotes, Right::Call, spot, call_aim(params), tol, today);
    let e = quotes[b].expiry as int;
    let a = lemma_listed_index(quotes, Right::Put, e, quotes[b].strike - params.wing_points);
    let d = lemma_listed_index(quotes, Right::Call, e, quotes[c].strike + params.wing_points);
    lemma_is_leg(quotes[a], LegSide::Buy);
    lemma_is_leg(quotes[b], LegSide::Sell);
    lemma_is_leg(quotes[c], LegSide::Sell);
    lemma_is_leg(quotes[d], LegSide::Buy);
    let legs = condor_legs(quotes[a], quotes[b], quotes[c], quotes[d]);
    lemma_legs_wf(legs);
    lemma_terms(params, symbol, spot, e, today, legs, leg_of(quotes[b], LegSide::Sell));
    (a, b, c, d)
}

/// Where the four quotes of a condor are listed, it is suggested exactly when its
/// credit is enough and one contract is within the risk budget.
#[verifier::rlimit(60)]
#[verifier::spinoff_prover]
pub proof fn law_condor_not_missed(
    params: StructureParams,
    symbol: Seq<char>,
    spot: int,
    quotes: Seq<OptionQuote>,
    today: int,
    at: (int, int, int, int),
    legs: Seq<StructureLeg>,
    net: int,
)
    requires
        chain_wf(quotes),
        params.kind is IronCondor,
        spot > 0,
        nearest_delta(
            quotes,
            Right::Put,
            spot,
            params.short_delta as int,
            params.delta_tol as int,
            today,
            at.1,
        ),
        nearest_delta(
            quotes,
            Right::Call,
            spot,
            call_aim(params),
            params.delta_tol as int,
            today,
            at.2,
        ),
        nearest_listed(
            quotes,
            Right::Put,
            quotes[at.1].expiry as int,
            quotes[at.1].strike - params.wing_points,
            at.0,
        ),
        nearest_listed(
            quotes,
            Right::Call,
            quotes[at.1].expiry as int,
            quotes[at.2].strike + params.wing_points,
            at.3,
        ),
        legs.len() == 4,
        is_leg(legs[0], quotes[at.0], LegSide::Buy),
        is_leg(legs[1], quotes[at.1], LegSide::Sell),
        is_leg(legs[2], quotes[at.2], LegSide::Sell),
        is_leg(legs[3], quotes[at.3], LegSide::Buy),
        is_nearest_cent(credit_of(legs), net),
    ensures
        structure_answer(params, symbol, spot, quotes, today) is Some <==> quotes[at.0].strike
            < quotes[at.1].strike && quotes[at.2].strike < quotes[at.3].strike && net
            >= params.min_credit && 0 < max_loss(legs) * 100 <= params.max_risk,
{
    let tol = params.delta_tol as int;
    let (a, b, c, d) = at;
    let e = quotes[b].expiry as int;
    lemma_nearest_delta(quotes, Right::Put, spot, params.short_delta as int, tol, today, b);
    lemma_nearest_delta(quotes, Right::Call, spot, call_aim(params), tol, today, c);
    lemma_nearest_listed(quotes, Right::Put, e, quotes[b].strike - params.wing_points, a);
    lemma_nearest_listed(quotes, Right::Call, e, quotes[c].strike + params.wing_points, d);
    lemma_leg_unique(legs[0], quotes[a], LegSide::Buy);
    lemma_leg_unique(legs[1], quotes[b], LegSide::Sell);
    lemma_leg_unique(legs[2], quotes[c], LegSide::Sell);
    lemma_leg_unique(legs[3], quotes[d], LegSide::Buy);
    assert(legs =~= condor_legs(quotes[a], quotes[b], quotes[c], quotes[d]));
    lemma_is_leg(quotes[a], LegSide::Buy);
    lemma_is_leg(quotes[b], LegSide::Sell);
    lemma_is_leg(quotes[c], LegSide::Sell);
    lemma_is_leg(quotes[d], LegSide::Buy);
    lemma_legs_wf(legs);
    law_nearest_cent(credit_of(legs), net);
    lemma_terms(params, symbol, spot, e, today, legs, leg_of(quotes[b], LegSide::Sell));
}

// --- credit spread ---------------------------------------------------------

/// The right on which a credit spread is sold.
pub open spec fn spread_right(params: StructureParams) -> Right {
    if params.kind is PutCreditSpread {
        Right::Put
    } else {
        Right::Call
    }
}

/// The delta at which a credit spread is sold.
pub open spec fn spread_aim(params: StructureParams) -> int {
    if params.kind is PutCreditSpread {
        params.short_delta as int
    } else {
        call_aim(params)
    }
}

/// Where the wing of a credit spread belongs, below a short put and above a short
/// call.
pub open spec fn spread_wing(params: StructureParams, short: OptionQuote) -> int {
    if params.kind is PutCreditSpread {
        short.strike - params.wing_points
    } else {
        short.strike + params.wing_points
    }
}

/// The legs of a suggested credit spread, by their place in the chain (short, long):
/// the short is the nearest to its delta, the long the nearest to the configured
/// number of points further out, of one expiry.
#[verifier::rlimit(60)]
#[verifier::spinoff_prover]
pub proof fn law_spread_legs(
    params: StructureParams,
    symbol: Seq<char>,
    spot: int,
    quotes: Seq<OptionQuote>,
    today: int,
) -> (r: (int, int))
    requires
        chain_wf(quotes),
        params.kind is PutCreditSpread || params.kind is CallCreditSpread,
        structure_answer(params, symbol, spot, quotes, today) is Some,
    ensures
        ({
            let s = structure_answer(params, symbol, spot, quotes, today)->0;
            let legs = s.kind->legs;
            let side = spread_right(params);
            let e = quotes[r.0].expiry as int;
            &&& has_terms(params, symbol, spot, today, s)
            &&& nearest_delta(
                quotes,
                side,
                spot,
                spread_aim(params),
                params.delta_tol as int,
                today,
                r.0,
            )
            &&& nearest_listed(quotes, side, e, spread_wing(params, quotes[r.0]), r.1)
            &&& legs.len() == 2
            &&& is_leg(legs[0], quotes[r.0], LegSide::Sell)
            &&& is_leg(legs[1], quotes[r.1], LegSide::Buy)
            &&& side is Put ==> quotes[r.1].strike < quotes[r.0].strike < spot
            &&& side is Call ==> spot < quotes[r.0].strike < quotes[r.1].strike
            &&& s.right == side
            &&& s.strike == quotes[r.0].strike
            &&& s.expiry == e
        }),
{
    let side = spread_right(params);
    let a = lemma_delta_index(
        quotes,
        side,
        spot,
        spread_aim(params),
        params.delta_tol as int,
        today,
    );
    let e = quotes[a].expiry as int;
    let b = lemma_listed_index(quotes, side, e, spread_wing(params, quotes[a]));
    lemma_is_leg(quotes[a], LegSide::Sell);
    lemma_is_leg(quotes[b], LegSide::Buy);
    let legs = seq![leg_of(quotes[a], LegSide::Sell), leg_of(quotes[b], LegSide::Buy)];
    lemma_legs_wf(legs);
    lemma_terms(params, symbol, spot, e, today, legs, leg_of(quotes[a], LegSide::Sell));
    (a, b)
}

/// Where both quotes of a credit spread are listed, it is suggested exactly when the
/// wing is further out, its credit is enough and one contract is within the risk
/// budget.
#[verifier::rlimit(60)]
#[verifier::spinoff_prover]
pub proof fn law_spread_not_missed(
    params: StructureParams,
    symbol: Seq<char>,
    spot: int,
    quotes: Seq<OptionQuote>,
    today: int,
    at: (int, int),
    legs: Seq<StructureLeg>,
    net: int,
)
    requires
        chain_wf(quotes),
        params.kind is PutCreditSpread || params.kind is CallCreditSpread,
        spot > 0,
        nearest_delta(
            quotes,
            spread_right(params),
            spot,
            spread_aim(params),
            params.delta_tol as int,
            today,
            at.0,
        ),
        nearest_listed(
            quotes,
            spread_right(params),
            quotes[at.0].expiry as int,
            spread_wing(params, quotes[at.0]),
            at.1,
        ),
        legs.len() == 2,
        is_leg(legs[0], quotes[at.0], LegSide::Sell),
        is_leg(legs[1], quotes[at.1], LegSide::Buy),
        is_nearest_cent(credit_of(legs), net),
    ensures
        structure_answer(params, symbol, spot, quotes, today) is Some <==> (spread_right(
            params,
        ) is Put ==> quotes[at.1].strike < quotes[at.0].strike) && (spread_right(params) is Call
            ==> quotes[at.1].strike > quotes[at.0].strike) && net >= params.min_credit && 0
            < max_loss(legs) * 100 <= params.max_risk,
{
    let side = spread_right(params);
    let (a, b) = at;
    let e = quotes[a].expiry as int;
    lemma_nearest_delta(
        quotes,
        side,
        spot,
        spread_aim(params),
        params.delta_tol as int,
        today,
        a,
    );
    lemma_nearest_listed(quotes, side, e, spread_wing(params, quotes[a]), b);
    lemma_leg_unique(legs[0], quotes[a], LegSide::Sell);
    lemma_leg_unique(legs[1], quotes[b], LegSide::Buy);
    assert(legs =~= seq![leg_of(quotes[a], LegSide::Sell), leg_of(quotes[b], LegSide::Buy)]);
    lemma_is_leg(quotes[a], LegSide::Sell);
    lemma_is_leg(quotes[b], LegSide::Buy);
    lemma_legs_wf(legs);
    law_nearest_cent(credit_of(legs), net);
    lemma_terms(params, symbol, spot, e, today, legs, leg_of(quotes[a], LegSide::Sell));
}

// --- broken-wing butterfly -------------------------------------------------

/// The legs of a suggested broken-wing butterfly, by their place in the chain (lower,
/// body, upper): the body, sold twice, is the nearest to its delta; the upper wing is
/// the nearest to the configured number of points above it, the lower one to three
/// times as many below; the lower wing is the wider.
#[verifier::rlimit(60)]
#[verifier::spinoff_prover]
pub proof fn law_butterfly_legs(
    params: StructureParams,
    symbol: Seq<char>,
    spot: int,
    quotes: Seq<OptionQuote>,
    today: int,
) -> (r: (int, int, int))
    requires
        chain_wf(quotes),
        params.kind is BrokenWingButterfly,
        structure_answer(params, symbol, spot, quotes, today) is Some,
    ensures
        ({
            let s = structure_answer(params, symbol, spot, quotes, today)->0;
            let legs = s.kind->legs;
            let body = quotes[r.1];
            let e = body.expiry as int;
            &&& has_terms(params, symbol, spot, today, s)
            &&& nearest_delta(
                quotes,
                Right::Put,
                spot,
                params.short_delta as int,
                params.delta_tol as int,
                today,
                r.1,
            )
            &&& nearest_listed(
                quotes,
                Right::Put,
                e,
                body.strike - params.wing_points - params.wing_points - params.wing_points,
                r.0,
            )
            &&& nearest_listed(quotes, Right::Put, e, body.strike + params.wing_points, r.2)
            &&& legs.len() == 4
            &&& is_leg(legs[0], quotes[r.0], LegSide::Buy)
            &&& is_leg(legs[1], body, LegSide::Sell)
            &&& is_leg(legs[2], body, LegSide::Sell)
            &&& is_leg(legs[3], quotes[r.2], LegSide::Buy)
            &&& body.strike < spot
            &&& 0 < quotes[r.2].strike - body.strike < body.strike - quotes[r.0].strike
            &&& s.right is Put
            &&& s.strike == body.strike
            &&& s.expiry == e
        }),
{
    let b = lemma_delta_index(
        quotes,
        Right::Put,
        spot,
        params.short_delta as int,
        params.delta_tol as int,
        today,
    );
    let e = quotes[b].expiry as int;
    let a = lemma_listed_index(quotes, Right::Put, e, quotes[b].strike - 3 * params.wing_points);
    let c = lemma_listed_index(quotes, Right::Put, e, quotes[b].strike + params.wing_points);
    lemma_is_leg(quotes[a], LegSide::Buy);
    lemma_is_leg(quotes[b], LegSide::Sell);
    lemma_is_leg(quotes[c], LegSide::Buy);
    let legs = fly_legs(quotes[a], quotes[b], quotes[c]);
    lemma_legs_wf(legs);
    lemma_terms(params, symbol, spot, e, today, legs, leg_of(quotes[b], LegSide::Sell));
    (a, b, c)
}

/// Where the quotes of a broken-wing butterfly are listed, it is suggested exactly
/// when the lower wing is the wider, its credit is enough and one contract is within
/// the risk budget.
#[verifier::rlimit(60)]
#[verifier::spinoff_prover]
pub proof fn law_butterfly_not_missed(
    params: StructureParams,
    symbol: Seq<char>,
    spot: int,
    quotes: Seq<OptionQuote>,
    today: int,
    at: (int, int, int),
    legs: Seq<StructureLeg>,
    net: int,
)
    requires
        chain_wf(quotes),
        params.kind is BrokenWingButterfly,
        spot > 0,
        nearest_delta(
            quotes,
            Right::Put,
            spot,
            params.short_delta as int,
            params.delta_tol as int,
            today,
            at.1,
        ),
        nearest_listed(
            quotes,
            Right::Put,
            quotes[at.1].expiry as int,
            quotes[at.1].strike - 3 * params.wing_points,
            at.0,
        ),
        nearest_listed(
            quotes,
            Right::Put,
            quotes[at.1].expiry as int,
            quotes[at.1].strike + params.wing_points,
            at.2,
        ),
        legs.len() == 4,
        is_leg(legs[0], quotes[at.0], LegSide::Buy),
        is_leg(legs[1], quotes[at.1], LegSide::Sell),
        is_leg(legs[2], quotes[at.1], LegSide::Sell),
        is_leg(legs[3], quotes[at.2], LegSide::Buy),
        is_nearest_cent(credit_of(legs), net),
    ensures
        structure_answer(params, symbol, spot, quotes, today) is Some <==> 0
            < quotes[at.2].strike - quotes[at.1].strike < quotes[at.1].strike
            - quotes[at.0].strike && net >= params.min_credit && 0 < max_loss(legs) * 100
            <= params.max_risk,
{
    let (a, b, c) = at;
    let e = quotes[b].expiry as int;
    lemma_nearest_delta(
        quotes,
        Right::Put,
        spot,
        params.short_delta as int,
        params.delta_tol as int,
        today,
        b,
    );
    lemma_nearest_listed(quotes, Right::Put, e, quotes[b].strike - 3 * params.wing_points, a);
    lemma_nearest_listed(quotes, Right::Put, e, quotes[b].strike + params.wing_points, c);
    lemma_leg_unique(legs[0], quotes[a], LegSide::Buy);
    lemma_leg_unique(legs[1], quotes[b], LegSide::Sell);
    lemma_leg_unique(legs[2], quotes[b], LegSide::Sell);
    lemma_leg_unique(legs[3], quotes[c], LegSide::Buy);
    assert(legs =~= fly_legs(quotes[a], quotes[b], quotes[c]));
    lemma_is_leg(quotes[a], LegSide::Buy);
    lemma_is_leg(quotes[b], LegSide::Sell);
    lemma_is_leg(quotes[c], LegSide::Buy);
    lemma_legs_wf(legs);
    law_nearest_cent(credit_of(legs), net);
    lemma_terms(params, symbol, spot, e, today, legs, leg_of(quotes[b], LegSide::Sell));
}

// --- iron fly --------------------------------------------------------------

/// Whether no put with a price stands nearer to spot than the `i`-th, and none before
/// it stands as near.
pub open spec fn nearest_put(quotes: Seq<OptionQuote>, spot: int, i: int) -> bool {
    &&& 0 <= i < quotes.len()
    &&& quotes[i].right is Put && quotes[i].spec_mid() > 0
    &&& forall|j: int|
        0 <= j < quotes.len() && (#[trigger] quotes[j]).right is Put && quotes[j].spec_mid() > 0
            ==> apart(quotes[i].strike as int, spot) < apart(quotes[j].strike as int, spot) || (
        apart(quotes[i].strike as int, spot) == apart(quotes[j].strike as int, spot) && i <= j)
}

proof fn lemma_nearest_put(quotes: Seq<OptionQuote>, spot: int, i: int)
    ensures
        nearest_put(quotes, spot, i) <==> is_strike_pick(
            quotes,
            quotes.len() as int,
            Right::Put,
            None,
            spot,
            i,
        ),
        nearest_put(quotes, spot, i) ==> strike_pick(quotes, Right::Put, None, spot) == Some(
            quotes[i],
        ),
{
    let n = quotes.len() as int;
    let e: Option<int> = None;
    if is_strike_pick(quotes, n, Right::Put, e, spot, i) {
        assert forall|j: int|
            0 <= j < quotes.len() && (#[trigger] quotes[j]).right is Put && quotes[j].spec_mid()
                > 0 implies apart(quotes[i].strike as int, spot) < apart(
            quotes[j].strike as int,
            spot,
        ) || (apart(quotes[i].strike as int, spot) == apart(quotes[j].strike as int, spot) && i
            <= j) by {
            assert(strike_ok(quotes[j], Right::Put, e));
        }
    }
    if nearest_put(quotes, spot, i) {
        assert forall|j: int|
            0 <= j < n && strike_ok(#[trigger] quotes[j], Right::Put, e) implies apart(
            quotes[i].strike as int,
            spot,
        ) <= apart(quotes[j].strike as int, spot) && (j < i ==> apart(quotes[i].strike as int, spot)
            < apart(quotes[j].strike as int, spot)) by {
            assert(quotes[j].right is Put && quotes[j].spec_mid() > 0);
        }
        assert(is_strike_pick(quotes, n, Right::Put, e, spot, i));
        let c = choose|c: int| is_strike_pick(quotes, n, Right::Put, e, spot, c);
        assert(is_strike_pick(quotes, n, Right::Put, e, spot, c));
        assert(strike_ok(quotes[c], Right::Put, e));
        assert(strike_ok(quotes[i], Right::Put, e));
        assert(c == i);
    }
}

/// The legs of a suggested iron fly, by their place in the chain (long put, short put,
/// short call, long call): the body is the put nearest to spot and the call at its
/// strike, each long the nearest to the configured number of points away from it.
#[verifier::rlimit(60)]
#[verifier::spinoff_prover]
pub proof fn law_fly_legs(
    params: StructureParams,
    symbol: Seq<char>,
    spot: int,
    quotes: Seq<OptionQuote>,
    today: int,
) -> (r: (int, int, int, int))
    requires
        chain_wf(quotes),
        params.kind is IronFly,
        structure_answer(params, symbol, spot, quotes, today) is Some,
    ensures
        ({
            let s = structure_answer(params, symbol, spot, quotes, today)->0;
            let legs = s.kind->legs;
            let body = quotes[r.1];
            let e = body.expiry as int;
            &&& has_terms(params, symbol, spot, today, s)
            &&& nearest_put(quotes, spot, r.1)
            &&& nearest_listed(quotes, Right::Call, e, body.strike as int, r.2)
            &&& nearest_listed(quotes, Right::Put, e, body.strike - params.wing_points, r.0)
            &&& nearest_listed(quotes, Right::Call, e, body.strike + params.wing_points, r.3)
            &&& legs.len() == 4
            &&& is_leg(legs[0], quotes[r.0], LegSide::Buy)
            &&& is_leg(legs[1], body, LegSide::Sell)
            &&& is_leg(legs[2], quotes[r.2], LegSide::Sell)
            &&& is_leg(legs[3], quotes[r.3], LegSide::Buy)
            &&& apart(quotes[r.2].strike as int, body.strike as int) <= 1
            &&& quotes[r.0].strike < body.strike < quotes[r.3].strike
            &&& s.right is Put
            &&& s.strike == body.strike
            &&& s.expiry == e
        }),
{
    let n = quotes.len() as int;
    let none: Option<int> = None;
    let b = choose|i: int| is_strike_pick(quotes, n, Right::Put, none, spot, i);
    lemma_nearest_put(quotes, spot, b);
    let e = quotes[b].expiry as int;
    let c = lemma_listed_index(quotes, Right::Call, e, quotes[b].strike as int);
    let a = lemma_listed_index(quotes, Right::Put, e, quotes[b].strike - params.wing_points);
    let d = lemma_listed_index(quotes, Right::Call, e, quotes[b].strike + params.wing_points);
    lemma_is_leg(quotes[a], LegSide::Buy);
    lemma_is_leg(quotes[b], LegSide::Sell);
    lemma_is_leg(quotes[c], LegSide::Sell);
    lemma_is_leg(quotes[d], LegSide::Buy);
    let legs = condor_legs(quotes[a], quotes[b], quotes[c], quotes[d]);
    lemma_legs_wf(legs);
    lemma_terms(params, symbol, spot, e, today, legs, leg_of(quotes[b], LegSide::Sell));
    (a, b, c, d)
}

/// Where the four quotes of an iron fly are listed, it is suggested exactly when the
/// call is at the strike of the put, the wings are off it, the credit is enough and
/// one contract is within the risk budget.
#[verifier::rlimit(60)]
#[verifier::spinoff_prover]
pub proof fn law_fly_not_missed(
    params: StructureParams,
    symbol: Seq<char>,
    spot: int,
    quotes: Seq<OptionQuote>,
    today: int,
    at: (int, int, int, int),
    legs: Seq<StructureLeg>,
    net: int,
)
    requires
        chain_wf(quotes),
        params.kind is IronFly,
        spot > 0,
        nearest_put(quotes, spot, at.1),
        nearest_listed(
            quotes,
            Right::Call,
            quotes[at.1].expiry as int,
            quotes[at.1].strike as int,
            at.2,
        ),
        nearest_listed(
            quotes,
            Right::Put,
            quotes[at.1].expiry as int,
            quotes[at.1].strike - params.wing_points,
            at.0,
        ),
        nearest_listed(
            quotes,
            Right::Call,
            quotes[at.1].expiry as int,
            quotes[at.1].strike + params.wing_points,
            at.3,
        ),
        legs.len() == 4,
        is_leg(legs[0], quotes[at.0], LegSide::Buy),
        is_leg(legs[1], quotes[at.1], LegSide::Sell),
        is_leg(legs[2], quotes[at.2], LegSide::Sell),
        is_leg(legs[3], quotes[at.3], LegSide::Buy),
        is_nearest_cent(credit_of(legs), net),
    ensures
        structure_answer(params, symbol, spot, quotes, today) is Some <==> apart(
            quotes[at.2].strike as int,
            quotes[at.1].strike as int,
        ) <= 1 && quotes[at.0].strike < quotes[at.1].strike < quotes[at.3].strike && net
            >= params.min_credit && 0 < max_loss(legs) * 100 <= params.max_risk,
{
    let (a, b, c, d) = at;
    let e = quotes[b].expiry as int;
    lemma_nearest_put(quotes, spot, b);
    lemma_nearest_listed(quotes, Right::Call, e, quotes[b].strike as int, c);
    lemma_nearest_listed(quotes, Right::Put, e, quotes[b].strike - params.wing_points, a);
    lemma_nearest_listed(quotes, Right::Call, e, quotes[b].strike + params.wing_points, d);
    lemma_leg_unique(legs[0], quotes[a], LegSide::Buy);
    lemma_leg_unique(legs[1], quotes[b], LegSide::Sell);
    lemma_leg_unique(legs[2], quotes[c], LegSide::Sell);
    lemma_leg_unique(legs[3], quotes[d], LegSide::Buy);
    assert(legs =~= condor_legs(quotes[a], quotes[b], quotes[c], quotes[d]));
    lemma_is_leg(quotes[a], LegSide::Buy);
    lemma_is_leg(quotes[b], LegSide::Sell);
    lemma_is_leg(quotes[c], LegSide::Sell);
    lemma_is_leg(quotes[d], LegSide::Buy);
    lemma_legs_wf(legs);
    law_nearest_cent(credit_of(legs), net);
    lemma_terms(params, symbol, spot, e, today, legs, leg_of(quotes[b], LegSide::Sell));
}

// --- strangle --------------------------------------------------------------

/// A suggested strangle sells one put and one call, each the nearest to its delta,
/// one lot of them, for their prices together, with the notional of the put as its
/// capital; it is suggested exactly when naked risk is allowed, both are listed and
/// the credit is enough.
#[verifier::rlimit(60)]
#[verifier::spinoff_prover]
pub proof fn law_strangle(
    params: StructureParams,
    symbol: Seq<char>,
    spot: int,
    quotes: Seq<OptionQuote>,
    today: int,
    at: (int, int),
    legs: Seq<StructureLeg>,
    net: int,
)
    requires
        chain_wf(quotes),
        params.kind is ShortStrangle,
        spot > 0,
        nearest_delta(
            quotes,
            Right::Put,
            spot,
            params.short_delta as int,
            params.delta_tol as int,
            today,
            at.0,
        ),
        nearest_delta(
            quotes,
            Right::Call,
            spot,
            call_aim(params),
            params.delta_tol as int,
            today,
            at.1,
        ),
        legs.len() == 2,
        is_leg(legs[0], quotes[at.0], LegSide::Sell),
        is_leg(legs[1], quotes[at.1], LegSide::Sell),
        is_nearest_cent(credit_of(legs), net),
    ensures
        ({
            let r = structure_answer(params, symbol, spot, quotes, today);
            let s = r->0;
            &&& r is Some <==> params.allow_naked && net >= params.min_credit
            &&& r is Some ==> {
                &&& s.symbol == symbol
                &&& s.kind is OpenStructure
                &&& s.kind->kind == params.kind
                &&& s.kind->legs == legs
                &&& s.right is Put
                &&& s.strike == quotes[at.0].strike
                &&& s.expiry == quotes[at.0].expiry
                &&& s.dte == quotes[at.0].expiry - today
                &&& s.underlying_price == spot
                &&& s.quantity == 1
                &&& s.limit_price == net
                &&& s.premium_total == net * 100
                &&& s.capital_required == quotes[at.0].strike * 100
                &&& s.annualized_yield == 0
            }
        }),
{
    let tol = params.delta_tol as int;
    let (a, b) = at;
    lemma_nearest_delta(quotes, Right::Put, spot, params.short_delta as int, tol, today, a);
    lemma_nearest_delta(quotes, Right::Call, spot, call_aim(params), tol, today, b);
    lemma_leg_unique(legs[0], quotes[a], LegSide::Sell);
    lemma_leg_unique(legs[1], quotes[b], LegSide::Sell);
    assert(legs =~= strangle_legs(quotes[a], quotes[b]));
    law_nearest_cent(credit_of(legs), net);
}

/// A suggested strangle has both its shorts in the chain.
#[verifier::rlimit(60)]
#[verifier::spinoff_prover]
pub proof fn law_strangle_legs(
    params: StructureParams,
    symbol: Seq<char>,
    spot: int,
    quotes: Seq<OptionQuote>,
    today: int,
) -> (r: (int, int))
    requires
        chain_wf(quotes),
        params.kind is ShortStrangle,
        structure_answer(params, symbol, spot, quotes, today) is Some,
    ensures
        ({
            let s = structure_answer(params, symbol, spot, quotes, today)->0;
            &&& nearest_delta(
                quotes,
                Right::Put,
                spot,
                params.short_delta as int,
                params.delta_tol as int,
                today,
                r.0,
            )
            &&& nearest_delta(
                quotes,
                Right::Call,
                spot,
                call_aim(params),
                params.delta_tol as int,
                today,
                r.1,
            )
            &&& s.kind->legs.len() == 2
            &&& is_leg(s.kind->legs[0], quotes[r.0], LegSide::Sell)
            &&& is_leg(s.kind->legs[1], quotes[r.1], LegSide::Sell)
        }),
{
    let tol = params.delta_tol as int;
    let a = lemma_delta_index(quotes, Right::Put, spot, params.short_delta as int, tol, today);
    let b = lemma_delta_index(quotes, Right::Call, spot, call_aim(params), tol, today);
    lemma_is_leg(quotes[a], LegSide::Sell);
    lemma_is_leg(quotes[b], LegSide::Sell);
    (a, b)
}

// --- the leg that is shown -------------------------------------------------

/// A suggested structure is shown by one of the legs that it sells: its strike, its right
/// and its delta.
#[verifier::rlimit(60)]
#[verifier::spinoff_prover]
pub proof fn law_shown_leg(
    params: StructureParams,
    symbol: Seq<char>,
    spot: int,
    quotes: Seq<OptionQuote>,
    today: int,
) -> (k: int)
    requires
        structure_answer(params, symbol, spot, quotes, today) is Some,
    ensures
        ({
            let s = structure_answer(params, symbol, spot, quotes, today)->0;
            let legs = s.kind->legs;
            &&& 0 <= k < legs.len()
            &&& legs[k].side is Sell
            &&& s.strike == legs[k].strike
            &&& s.right == legs[k].right
            &&& s.delta is Some <==> legs[k].delta is Some
            &&& s.delta is Some ==> s.delta->0 == legs[k].delta->0
        }),
{
    let s = structure_answer(params, symbol, spot, quotes, today)->0;
    let legs = s.kind->legs;
    if legs[0].side is Sell {
        0
    } else {
        1
    }
}

} // verus!

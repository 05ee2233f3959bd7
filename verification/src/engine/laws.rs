//! What the engine's advice promises, said in bids, asks, strikes and days.

use vstd::prelude::*;
use crate::engine::covered_call::{cc_answer, cc_best, cc_fits, cc_suggestion, lots};
use crate::engine::csp::{
    csp_answer, csp_best, csp_fits, csp_suggestion, hedge_fits, hedge_of, is_hedge, spread_answer,
    spread_best, spread_fits, spread_suggestion,
};
use crate::engine::manage::manage_answer;
use crate::engine::math::{contracts, resolved_delta, units_in, yield_on};
use crate::engine::types::{
    EngineConfig, OpenShortOption, OptionQuote, SharePosition, SuggestionView,
};
use crate::engine::{is_advice, is_plan, law_management_first, SymbolContext};
use crate::fixed::{cents, round_away};

verus! {

// --- the words of the laws -------------------------------------------------

/// Whether `m` is the price of a quote: halfway between bid and ask, to the
/// millionth below; the bid alone where there is no ask; nothing without a bid.
pub open spec fn is_mid(q: OptionQuote, m: int) -> bool {
    &&& q.bid > 0 && q.ask > 0 ==> 2 * m <= q.bid + q.ask <= 2 * m + 1
    &&& q.bid > 0 && q.ask <= 0 ==> m == q.bid
    &&& q.bid <= 0 ==> m == 0
}

/// Whether `c` is `x` to the nearest cent.
pub open spec fn is_nearest_cent(x: int, c: int) -> bool {
    &&& c % 10_000 == 0
    &&& -5_000 <= c - x <= 5_000
    &&& x >= 0 ==> c - x > -5_000
    &&& x <= 0 ==> c - x < 5_000
}

/// Whether `x` is the known size of a quote's delta: the reported one, else the
/// estimate, which needs a volatility, a spot, a strike and time.
pub open spec fn has_delta(q: OptionQuote, spot: int, days: int, x: int) -> bool {
    &&& x >= 0
    &&& match q.delta {
        Some(d) => x == d || x == -d,
        None => {
            &&& q.estimated_delta is Some
            &&& q.implied_volatility is Some
            &&& q.implied_volatility->0 > 0
            &&& spot > 0 && q.strike > 0 && days > 0
            &&& x == q.estimated_delta->0 || x == -q.estimated_delta->0
        },
    }
}

/// Whether `y` is the annualized return in billionths of `premium` on `collateral`
/// over `days`, to the billionth below.
pub open spec fn is_yield(premium: int, collateral: int, days: int, y: int) -> bool {
    if collateral > 0 && days > 0 {
        y * (collateral * days) <= premium * 365_000_000_000 < (y + 1) * (collateral * days)
    } else {
        y == 0
    }
}

/// Whether a quote may be sold at all: expiry, price, open interest and delta are
/// within the configured bounds.
pub open spec fn may_sell(q: OptionQuote, spot: int, today: int, cfg: EngineConfig) -> bool {
    &&& cfg.min_dte <= q.expiry - today <= cfg.max_dte
    &&& exists|m: int| #[trigger] is_mid(q, m) && m >= cfg.min_premium
    &&& (q.open_interest is None || q.open_interest->0 >= cfg.min_open_interest)
    &&& exists|x: int| #[trigger]
        has_delta(q, spot, q.expiry - today, x) && cfg.min_delta <= x <= cfg.max_delta
}

/// How far `x` is from `y`.
pub open spec fn apart(x: int, y: int) -> int {
    if x < y {
        y - x
    } else {
        x - y
    }
}

/// Days to expiry, the last day counting as one.
pub open spec fn at_least_one(days: int) -> int {
    if days < 1 {
        1
    } else {
        days
    }
}

// --- numbers ---------------------------------------------------------------

/// A quote has one price.
pub proof fn law_mid(q: OptionQuote, m: int)
    ensures
        is_mid(q, m) <==> m == q.spec_mid(),
        q.spec_mid() >= 0,
{
}

/// Rounding to the cent gives the nearest cent, a tie going away from zero.
pub proof fn law_nearest_cent(x: int, c: int)
    ensures
        is_nearest_cent(x, c) <==> c == cents(x),
{
    let d = cents(x);
    let k = round_away(x, 10_000);
    assert(d == k * 10_000);
    assert(d % 10_000 == 0);
    assert(is_nearest_cent(x, d));
    if is_nearest_cent(x, c) {
        let j = c / 10_000;
        assert(c == j * 10_000);
        assert(-10_000 < c - d < 10_000);
        assert(j == k);
    }
}

/// A quote has at most one size of its delta.
pub proof fn law_known_delta(q: OptionQuote, spot: int, days: int, x: int)
    ensures
        has_delta(q, spot, days, x) <==> resolved_delta(q, spot, days) == Some(x),
{
}

/// There is one yield.
pub proof fn law_yield(premium: int, collateral: int, days: int, y: int)
    ensures
        is_yield(premium, collateral, days, y) <==> y == yield_on(premium, collateral, days),
{
    if collateral > 0 && days > 0 {
        let b = collateral * days;
        let a = premium * 365_000_000_000;
        assert(b > 0) by (nonlinear_arith)
            requires
                collateral > 0,
                days > 0,
                b == collateral * days,
        ;
        let q = a / b;
        assert(q * b <= a < (q + 1) * b) by (nonlinear_arith)
            requires
                b > 0,
                q == a / b,
        ;
        if y * b <= a < (y + 1) * b {
            assert(y == q) by (nonlinear_arith)
                requires
                    b > 0,
                    q * b <= a < (q + 1) * b,
                    y * b <= a < (y + 1) * b,
            ;
        }
    }
}

/// A budget covers as many units as fit it and no more, within 32 bits.
pub proof fn law_units(budget: int, unit: int)
    requires
        unit > 0,
        budget >= 0,
    ensures
        0 <= units_in(budget, unit) <= i32::MAX,
        units_in(budget, unit) * unit <= budget,
        units_in(budget, unit) < i32::MAX ==> budget < (units_in(budget, unit) + 1) * unit,
{
    let q = budget / unit;
    let n = units_in(budget, unit);
    assert(q >= 0 && q * unit <= budget < (q + 1) * unit) by (nonlinear_arith)
        requires
            unit > 0,
            budget >= 0,
            q == budget / unit,
    ;
    assert(n * unit <= budget) by (nonlinear_arith)
        requires
            unit > 0,
            n <= q,
            q * unit <= budget,
    ;
}

/// Lots are whole hundreds of shares.
pub proof fn law_lots(shares: int)
    ensures
        shares >= 0 ==> lots(shares) * 100 <= shares < (lots(shares) + 1) * 100,
        lots(-shares) == -lots(shares),
{
}

// --- managing a short ------------------------------------------------------

/// A short sold for a credit is bought back exactly when its price is down to the
/// part of the credit that is left after the profit target.
pub proof fn law_take_profit(
    symbol: Seq<char>,
    pos: OpenShortOption,
    current: OptionQuote,
    spot: int,
    cfg: EngineConfig,
    today: int,
    price: int,
)
    requires
        is_mid(current, price),
    ensures
        ({
            let r = manage_answer(symbol, pos, current, spot, cfg, today);
            let closes = r is Some && (r->0).kind is CloseForProfit;
            &&& pos.entry_credit > 0 ==> (closes <==> price * 1_000_000 <= pos.entry_credit * (
            1_000_000 - cfg.take_profit_pct))
            &&& pos.entry_credit <= 0 ==> (closes <==> cfg.take_profit_pct <= 0)
        }),
{
    law_mid(current, price);
    let (c, t) = (pos.entry_credit as int, cfg.take_profit_pct as int);
    assert(((c - price) * 1_000_000 >= t * c) <==> (price * 1_000_000 <= c * (1_000_000 - t)))
        by (nonlinear_arith);
}

/// A short that is not bought back is rolled exactly when its delta is above the
/// limit, or when it is in the money with no more than the configured days left.
pub proof fn law_defend(
    symbol: Seq<char>,
    pos: OpenShortOption,
    current: OptionQuote,
    spot: int,
    cfg: EngineConfig,
    today: int,
)
    ensures
        ({
            let r = manage_answer(symbol, pos, current, spot, cfg, today);
            let closes = r is Some && (r->0).kind is CloseForProfit;
            let rolls = r is Some && (r->0).kind is Roll;
            let left = pos.expiry - today;
            let hot = exists|x: int| #[trigger]
                has_delta(current, spot, at_least_one(left), x) && x > cfg.roll_delta;
            let itm = (pos.right is Put && spot < pos.strike) || (pos.right is Call && spot
                > pos.strike);
            &&& r is None <==> !closes && !rolls
            &&& !closes ==> (rolls <==> hot || (itm && left <= cfg.roll_dte))
        }),
{
    let days = at_least_one(pos.expiry - today);
    match resolved_delta(current, spot, days) {
        Some(x) => {
            law_known_delta(current, spot, days, x);
            assert(has_delta(current, spot, days, x));
        },
        None => {},
    }
    assert forall|x: int| #[trigger] has_delta(current, spot, days, x) implies resolved_delta(
        current,
        spot,
        days,
    ) == Some(x) by {
        law_known_delta(current, spot, days, x);
    }
}

/// What is advised on a short is for all its contracts, at its price now to the
/// cent; a roll keeps the strike and goes as far out as the longest entry.
pub proof fn law_managed_order(
    symbol: Seq<char>,
    pos: OpenShortOption,
    current: OptionQuote,
    spot: int,
    cfg: EngineConfig,
    today: int,
    price: int,
)
    requires
        manage_answer(symbol, pos, current, spot, cfg, today) is Some,
        is_mid(current, price),
    ensures
        ({
            let s = manage_answer(symbol, pos, current, spot, cfg, today)->0;
            &&& s.symbol == symbol
            &&& s.right == pos.right
            &&& s.strike == pos.strike
            &&& s.expiry == pos.expiry
            &&& s.dte + today == pos.expiry
            &&& s.underlying_price == spot
            &&& s.quantity == pos.quantity
            &&& is_nearest_cent(price, s.limit_price)
            &&& s.premium_total == s.limit_price * 100 * s.quantity
            &&& s.capital_required == 0
            &&& s.annualized_yield == 0
            &&& s.kind is Roll ==> s.kind->to_strike == pos.strike && s.kind->to_expiry - today
                == cfg.max_dte
        }),
{
    law_mid(current, price);
    law_nearest_cent(price, cents(price));
}

// --- cash-secured puts -----------------------------------------------------

/// Whether a put can be sold against cash: below spot, within the bounds, one
/// contract within the budget, and with enough yield on its strike.
pub open spec fn may_sell_put(
    q: OptionQuote,
    spot: int,
    budget: int,
    today: int,
    cfg: EngineConfig,
) -> bool {
    &&& q.right is Put
    &&& 0 < q.strike < spot
    &&& may_sell(q, spot, today, cfg)
    &&& q.strike * 100 <= budget
    &&& exists|y: int| #[trigger]
        is_yield(q.spec_mid(), q.strike as int, q.expiry - today, y) && y
            >= cfg.min_annualized_yield * 1_000
}

proof fn lemma_may_sell(q: OptionQuote, spot: int, today: int, cfg: EngineConfig)
    ensures
        may_sell(q, spot, today, cfg) <==> crate::engine::math::short_gates(
            q,
            spot,
            q.expiry - today,
            cfg,
        ),
{
    let d = q.expiry - today;
    law_mid(q, q.spec_mid());
    assert forall|m: int| #[trigger] is_mid(q, m) implies m == q.spec_mid() by {
        law_mid(q, m);
    }
    assert forall|x: int| #[trigger] has_delta(q, spot, d, x) implies resolved_delta(q, spot, d)
        == Some(x) by {
        law_known_delta(q, spot, d, x);
    }
    match resolved_delta(q, spot, d) {
        Some(x) => {
            law_known_delta(q, spot, d, x);
            assert(has_delta(q, spot, d, x));
        },
        None => {},
    }
}

proof fn lemma_enough(premium: int, collateral: int, days: int, least: int)
    ensures
        (exists|y: int| #[trigger] is_yield(premium, collateral, days, y) && y >= least)
            <==> yield_on(premium, collateral, days) >= least,
{
    let y = yield_on(premium, collateral, days);
    law_yield(premium, collateral, days, y);
    assert forall|z: int| #[trigger] is_yield(premium, collateral, days, z) implies z == y by {
        law_yield(premium, collateral, days, z);
    }
}

proof fn lemma_one_fits(budget: int, strike: int)
    requires
        strike > 0,
    ensures
        contracts(budget, strike) >= 1 <==> strike * 100 <= budget,
{
    let u = strike * 100;
    let q = budget / u;
    assert(q >= 1 <==> u <= budget) by (nonlinear_arith)
        requires
            u > 0,
            q == budget / u,
    ;
}

proof fn lemma_may_sell_put(
    q: OptionQuote,
    spot: int,
    budget: int,
    today: int,
    cfg: EngineConfig,
)
    requires
        q.strike > 0,
    ensures
        may_sell_put(q, spot, budget, today, cfg) <==> csp_fits(q, spot, budget, cfg, today),
{
    lemma_may_sell(q, spot, today, cfg);
    lemma_enough(
        q.spec_mid(),
        q.strike as int,
        q.expiry - today,
        cfg.min_annualized_yield * 1_000,
    );
    lemma_one_fits(budget, q.strike as int);
}

/// A put that is suggested is one of the chain that may be sold: at its price to
/// the cent, for as many contracts as the budget secures at its strike and no more,
/// with all of that cash as its collateral, and the yield of its price on its strike.
pub proof fn law_put_sold(
    symbol: Seq<char>,
    spot: int,
    quotes: Seq<OptionQuote>,
    budget: int,
    cfg: EngineConfig,
    today: int,
    s: SuggestionView,
) -> (i: int)
    requires
        csp_answer(symbol, spot, quotes, budget, cfg, today, Some(s)),
        forall|k: int| 0 <= k < quotes.len() ==> (#[trigger] quotes[k]).strike > 0,
    ensures
        0 <= i < quotes.len(),
        may_sell_put(quotes[i], spot, budget, today, cfg),
        s.symbol == symbol,
        s.kind is SellPut,
        s.right is Put,
        s.strike == quotes[i].strike,
        s.expiry == quotes[i].expiry,
        s.dte == quotes[i].expiry - today,
        s.underlying_price == spot,
        s.delta is Some && has_delta(quotes[i], spot, s.dte, s.delta->0),
        is_nearest_cent(quotes[i].spec_mid(), s.limit_price),
        s.quantity >= 1,
        s.strike * 100 * s.quantity <= budget,
        s.quantity < i32::MAX ==> budget < s.strike * 100 * (s.quantity + 1),
        s.premium_total == s.limit_price * 100 * s.quantity,
        s.capital_required == s.strike * 100 * s.quantity,
        is_yield(quotes[i].spec_mid(), s.strike, s.dte, s.annualized_yield),
        forall|j: int|
            0 <= j < quotes.len() && may_sell_put(#[trigger] quotes[j], spot, budget, today, cfg)
                ==> is_outranked(quotes[j], spot, today, cfg, s, j < i),
{
    let i = choose|i: int|
        {
            &&& #[trigger] csp_best(quotes, spot, budget, cfg, today, i)
            &&& s == csp_suggestion(symbol, quotes[i], spot, budget, today)
        };
    let q = quotes[i];
    lemma_may_sell_put(q, spot, budget, today, cfg);
    law_known_delta(q, spot, s.dte, s.delta->0);
    law_nearest_cent(q.spec_mid(), s.limit_price);
    law_yield(q.spec_mid(), s.strike, s.dte, s.annualized_yield);
    let u = s.strike * 100;
    assert(budget >= 0);
    law_units(budget, u);
    assert(u * s.quantity == s.quantity * u) by (nonlinear_arith);
    assert(u * (s.quantity + 1) == (s.quantity + 1) * u) by (nonlinear_arith);
    assert forall|j: int|
        0 <= j < quotes.len() && may_sell_put(
            #[trigger] quotes[j],
            spot,
            budget,
            today,
            cfg,
        ) implies is_outranked(quotes[j], spot, today, cfg, s, j < i) by {
        let p = quotes[j];
        lemma_may_sell_put(p, spot, budget, today, cfg);
        let d = p.expiry - today;
        assert forall|x: int, y: int| #[trigger]
            has_delta(p, spot, d, x) && #[trigger] is_yield(
                p.spec_mid(),
                p.strike as int,
                d,
                y,
            ) implies {
            let ours = s.annualized_yield - apart(s.delta->0, cfg.target_delta as int);
            let theirs = y - apart(x, cfg.target_delta as int);
            theirs < ours || (theirs == ours && !(j < i))
        } by {
            law_known_delta(p, spot, d, x);
            law_yield(p.spec_mid(), p.strike as int, d, y);
        }
    }
    i
}

/// Whether the put `q` ranks below the suggestion `s`: yield counts first, and a
/// whole delta of distance from the target counts a thousandth of yield. Where
/// `earlier`, it does not rank as high either.
pub open spec fn is_outranked(
    q: OptionQuote,
    spot: int,
    today: int,
    cfg: EngineConfig,
    s: SuggestionView,
    earlier: bool,
) -> bool {
    let d = q.expiry - today;
    forall|x: int, y: int| #[trigger]
        has_delta(q, spot, d, x) && #[trigger] is_yield(q.spec_mid(), q.strike as int, d, y) ==> {
            let ours = s.annualized_yield - apart(s.delta->0, cfg.target_delta as int);
            let theirs = y - apart(x, cfg.target_delta as int);
            theirs < ours || (theirs == ours && !earlier)
        }
}

/// No put that may be sold yields more than a thousandth above the one suggested,
/// where deltas are at most one.
pub proof fn law_put_yields_most(
    symbol: Seq<char>,
    spot: int,
    quotes: Seq<OptionQuote>,
    budget: int,
    cfg: EngineConfig,
    today: int,
    s: SuggestionView,
    j: int,
)
    requires
        csp_answer(symbol, spot, quotes, budget, cfg, today, Some(s)),
        forall|k: int| 0 <= k < quotes.len() ==> (#[trigger] quotes[k]).strike > 0,
        0 <= j < quotes.len(),
        may_sell_put(quotes[j], spot, budget, today, cfg),
        quotes[j].expiry > today,
        cfg.max_delta <= 1_000_000,
    ensures
        quotes[j].spec_mid() * 365_000_000_000 < (s.annualized_yield + 1_000_001) * (
        quotes[j].strike * (quotes[j].expiry - today)),
{
    let i = law_put_sold(symbol, spot, quotes, budget, cfg, today, s);
    let q = quotes[j];
    let d = q.expiry - today;
    lemma_may_sell_put(q, spot, budget, today, cfg);
    lemma_may_sell_put(quotes[i], spot, budget, today, cfg);
    let x = resolved_delta(q, spot, d)->0;
    let y = yield_on(q.spec_mid(), q.strike as int, d);
    law_known_delta(q, spot, d, x);
    law_yield(q.spec_mid(), q.strike as int, d, y);
    law_known_delta(quotes[i], spot, s.dte, s.delta->0);
    assert(is_outranked(q, spot, today, cfg, s, j < i));
    let b = q.strike * d;
    assert(b > 0) by (nonlinear_arith)
        requires
            q.strike > 0,
            d > 0,
            b == q.strike * d,
    ;
    let a = q.spec_mid() * 365_000_000_000;
    let z = s.annualized_yield;
    assert(a < (z + 1_000_001) * b) by (nonlinear_arith)
        requires
            b > 0,
            y <= z + 1_000_000,
            a < (y + 1) * b,
    ;
}

/// Where some put may be sold, one is suggested.
pub proof fn law_put_not_missed(
    symbol: Seq<char>,
    spot: int,
    quotes: Seq<OptionQuote>,
    budget: int,
    cfg: EngineConfig,
    today: int,
    r: Option<SuggestionView>,
    j: int,
)
    requires
        csp_answer(symbol, spot, quotes, budget, cfg, today, r),
        0 <= j < quotes.len(),
        may_sell_put(quotes[j], spot, budget, today, cfg),
    ensures
        r is Some,
{
    lemma_may_sell_put(quotes[j], spot, budget, today, cfg);
}

// --- covered calls ---------------------------------------------------------

/// Whether a call can be written on shares: not below their cost basis plus the
/// configured margin, within the bounds, and with enough yield on their value.
pub open spec fn may_write_call(
    q: OptionQuote,
    spot: int,
    basis: int,
    today: int,
    cfg: EngineConfig,
) -> bool {
    &&& q.right is Call
    &&& basis * 1_000_000 + basis * cfg.cc_min_pct_above_basis <= q.strike * 1_000_000
    &&& may_sell(q, spot, today, cfg)
    &&& exists|y: int| #[trigger]
        is_yield(q.spec_mid(), spot, q.expiry - today, y) && y >= cfg.min_annualized_yield * 1_000
}

proof fn lemma_may_write_call(q: OptionQuote, spot: int, basis: int, today: int, cfg: EngineConfig)
    ensures
        may_write_call(q, spot, basis, today, cfg) <==> cc_fits(q, spot, basis, cfg, today),
{
    lemma_may_sell(q, spot, today, cfg);
    lemma_enough(q.spec_mid(), spot, q.expiry - today, cfg.min_annualized_yield * 1_000);
    let pct = cfg.cc_min_pct_above_basis as int;
    assert(basis * (1_000_000 + pct) == basis * 1_000_000 + basis * pct) by (nonlinear_arith);
}

/// Whether the call `q` ranks below the suggestion `s`: as for puts, with the yield
/// on the value of the shares.
pub open spec fn is_call_outranked(
    q: OptionQuote,
    spot: int,
    today: int,
    cfg: EngineConfig,
    s: SuggestionView,
    earlier: bool,
) -> bool {
    let d = q.expiry - today;
    forall|x: int, y: int| #[trigger]
        has_delta(q, spot, d, x) && #[trigger] is_yield(q.spec_mid(), spot, d, y) ==> {
            let ours = s.annualized_yield - apart(s.delta->0, cfg.target_delta as int);
            let theirs = y - apart(x, cfg.target_delta as int);
            theirs < ours || (theirs == ours && !earlier)
        }
}

/// A call that is suggested is one of the chain that may be written, at its price to
/// the cent, on exactly the lots that no call is written on yet: with the calls
/// already written it covers every whole hundred of the shares.
pub proof fn law_call_written(
    symbol: Seq<char>,
    spot: int,
    shares: SharePosition,
    committed: int,
    quotes: Seq<OptionQuote>,
    cfg: EngineConfig,
    today: int,
    s: SuggestionView,
) -> (i: int)
    requires
        cc_answer(symbol, spot, shares, committed, quotes, cfg, today, Some(s)),
    ensures
        0 <= i < quotes.len(),
        may_write_call(quotes[i], spot, shares.cost_basis as int, today, cfg),
        s.symbol == symbol,
        s.kind is SellCall,
        s.right is Call,
        s.strike == quotes[i].strike,
        s.expiry == quotes[i].expiry,
        s.dte == quotes[i].expiry - today,
        s.underlying_price == spot,
        s.delta is Some && has_delta(quotes[i], spot, s.dte, s.delta->0),
        is_nearest_cent(quotes[i].spec_mid(), s.limit_price),
        s.quantity >= 1,
        shares.shares >= 0 ==> (s.quantity + committed) * 100 <= shares.shares < (s.quantity
            + committed + 1) * 100,
        s.quantity + committed == lots(shares.shares as int),
        s.premium_total == s.limit_price * 100 * s.quantity,
        s.capital_required == 0,
        is_yield(quotes[i].spec_mid(), spot, s.dte, s.annualized_yield),
        forall|j: int|
            0 <= j < quotes.len() && may_write_call(
                #[trigger] quotes[j],
                spot,
                shares.cost_basis as int,
                today,
                cfg,
            ) ==> is_call_outranked(quotes[j], spot, today, cfg, s, j < i),
{
    let basis = shares.cost_basis as int;
    let available = lots(shares.shares as int) - committed;
    let i = choose|i: int|
        {
            &&& #[trigger] cc_best(quotes, quotes.len() as int, spot, basis, cfg, today, i)
            &&& s == cc_suggestion(symbol, quotes[i], spot, basis, available, today)
        };
    let q = quotes[i];
    lemma_may_write_call(q, spot, basis, today, cfg);
    law_known_delta(q, spot, s.dte, s.delta->0);
    law_nearest_cent(q.spec_mid(), s.limit_price);
    law_yield(q.spec_mid(), spot, s.dte, s.annualized_yield);
    law_lots(shares.shares as int);
    assert forall|j: int|
        0 <= j < quotes.len() && may_write_call(
            #[trigger] quotes[j],
            spot,
            basis,
            today,
            cfg,
        ) implies is_call_outranked(quotes[j], spot, today, cfg, s, j < i) by {
        let p = quotes[j];
        lemma_may_write_call(p, spot, basis, today, cfg);
        let d = p.expiry - today;
        assert forall|x: int, y: int| #[trigger]
            has_delta(p, spot, d, x) && #[trigger] is_yield(p.spec_mid(), spot, d, y) implies {
            let ours = s.annualized_yield - apart(s.delta->0, cfg.target_delta as int);
            let theirs = y - apart(x, cfg.target_delta as int);
            theirs < ours || (theirs == ours && !(j < i))
        } by {
            law_known_delta(p, spot, d, x);
            law_yield(p.spec_mid(), spot, d, y);
        }
    }
    i
}

/// Where some call may be written and a lot is free, one is suggested; without a
/// free lot none is.
pub proof fn law_call_not_missed(
    symbol: Seq<char>,
    spot: int,
    shares: SharePosition,
    committed: int,
    quotes: Seq<OptionQuote>,
    cfg: EngineConfig,
    today: int,
    r: Option<SuggestionView>,
    j: int,
)
    requires
        cc_answer(symbol, spot, shares, committed, quotes, cfg, today, r),
    ensures
        spot > 0 && shares.shares >= 100 * (committed + 1) && 0 <= j < quotes.len()
            && may_write_call(quotes[j], spot, shares.cost_basis as int, today, cfg)
            && shares.shares >= 0 ==> r is Some,
        shares.shares >= 0 && shares.shares < 100 * (committed + 1) ==> r is None,
{
    law_lots(shares.shares as int);
    if 0 <= j < quotes.len() {
        lemma_may_write_call(quotes[j], spot, shares.cost_basis as int, today, cfg);
    }
}

// --- put credit spreads ----------------------------------------------------

/// Whether `q` can protect the short put: a put of its expiry below it, no further
/// below than the configured part of its strike, that costs something, but less.
pub open spec fn may_protect(q: OptionQuote, short: OptionQuote, cfg: EngineConfig) -> bool {
    &&& q.right is Put
    &&& q.expiry == short.expiry
    &&& q.strike < short.strike
    &&& (short.strike - q.strike) * 1_000_000 <= short.strike * cfg.hedge_pct_below
    &&& 0 < q.spec_mid() < short.spec_mid()
}

proof fn lemma_may_protect(q: OptionQuote, short: OptionQuote, cfg: EngineConfig)
    ensures
        may_protect(q, short, cfg) <==> hedge_fits(q, short, cfg),
{
    let (k, h) = (short.strike as int, cfg.hedge_pct_below as int);
    assert(k * (1_000_000 - h) == k * 1_000_000 - k * h) by (nonlinear_arith);
}

/// Whether the `j`-th quote protects the short put best: the lowest strike that can,
/// and the first of those.
pub open spec fn protects_best(
    quotes: Seq<OptionQuote>,
    short: OptionQuote,
    cfg: EngineConfig,
    j: int,
) -> bool {
    &&& 0 <= j < quotes.len()
    &&& may_protect(quotes[j], short, cfg)
    &&& forall|k: int|
        0 <= k < quotes.len() && may_protect(#[trigger] quotes[k], short, cfg) ==> quotes[j].strike
            < quotes[k].strike || (quotes[j].strike == quotes[k].strike && j <= k)
}

proof fn lemma_protects_best(quotes: Seq<OptionQuote>, short: OptionQuote, cfg: EngineConfig, j: int)
    ensures
        protects_best(quotes, short, cfg, j) <==> is_hedge(quotes, short, cfg, j),
        protects_best(quotes, short, cfg, j) ==> hedge_of(quotes, short, cfg) == j,
{
    assert forall|k: int| 0 <= k < quotes.len() implies may_protect(
        #[trigger] quotes[k],
        short,
        cfg,
    ) == hedge_fits(quotes[k], short, cfg) by {
        lemma_may_protect(quotes[k], short, cfg);
    }
    if 0 <= j < quotes.len() {
        assert(may_protect(quotes[j], short, cfg) == hedge_fits(quotes[j], short, cfg));
    }
    if is_hedge(quotes, short, cfg, j) {
        let k = hedge_of(quotes, short, cfg);
        assert(is_hedge(quotes, short, cfg, k));
        assert(hedge_fits(quotes[k], short, cfg));
        assert(hedge_fits(quotes[j], short, cfg));
        assert forall|m: int|
            0 <= m < quotes.len() && may_protect(#[trigger] quotes[m], short, cfg) implies quotes[j].strike
            < quotes[m].strike || (quotes[j].strike == quotes[m].strike && j <= m) by {
            assert(hedge_fits(quotes[m], short, cfg));
        }
    }
    if protects_best(quotes, short, cfg, j) {
        assert forall|m: int|
            0 <= m < quotes.len() && hedge_fits(#[trigger] quotes[m], short, cfg) implies quotes[j].strike
            <= quotes[m].strike && (m < j ==> quotes[j].strike < quotes[m].strike) by {
            assert(may_protect(quotes[m], short, cfg));
        }
        assert(is_hedge(quotes, short, cfg, j));
        let k = hedge_of(quotes, short, cfg);
        assert(is_hedge(quotes, short, cfg, k));
        assert(hedge_fits(quotes[k], short, cfg));
        assert(hedge_fits(quotes[j], short, cfg));
    }
}

/// Whether the put `short`, protected by `long`, can be sold as a spread: the short
/// one as against cash, with enough credit, and enough yield on the width.
pub open spec fn may_sell_spread(
    short: OptionQuote,
    long: OptionQuote,
    spot: int,
    budget: int,
    today: int,
    cfg: EngineConfig,
) -> bool {
    &&& short.right is Put
    &&& 0 < short.strike < spot
    &&& may_sell(short, spot, today, cfg)
    &&& short.strike * 100 <= budget
    &&& long.spec_mid() + cfg.hedge_min_credit <= short.spec_mid()
    &&& exists|y: int| #[trigger]
        is_yield(
            short.spec_mid() - long.spec_mid(),
            short.strike - long.strike,
            short.expiry - today,
            y,
        ) && y >= cfg.min_annualized_yield * 1_000
}

proof fn lemma_may_sell_spread(
    quotes: Seq<OptionQuote>,
    short: OptionQuote,
    spot: int,
    budget: int,
    today: int,
    cfg: EngineConfig,
    j: int,
)
    requires
        short.strike > 0,
        protects_best(quotes, short, cfg, j),
    ensures
        may_sell_spread(short, quotes[j], spot, budget, today, cfg) <==> spread_fits(
            quotes,
            short,
            spot,
            budget,
            cfg,
            today,
        ),
{
    lemma_protects_best(quotes, short, cfg, j);
    lemma_may_sell(short, spot, today, cfg);
    lemma_one_fits(budget, short.strike as int);
    let long = quotes[j];
    lemma_enough(
        short.spec_mid() - long.spec_mid(),
        short.strike - long.strike,
        short.expiry - today,
        cfg.min_annualized_yield * 1_000,
    );
}

/// Whether the spread of `short` and `long` ranks below the suggestion `s`.
pub open spec fn is_spread_outranked(
    short: OptionQuote,
    long: OptionQuote,
    spot: int,
    today: int,
    cfg: EngineConfig,
    s: SuggestionView,
    earlier: bool,
) -> bool {
    let d = short.expiry - today;
    forall|x: int, y: int| #[trigger]
        has_delta(short, spot, d, x) && #[trigger] is_yield(
            short.spec_mid() - long.spec_mid(),
            short.strike - long.strike,
            d,
            y,
        ) ==> {
            let ours = s.annualized_yield - apart(s.delta->0, cfg.target_delta as int);
            let theirs = y - apart(x, cfg.target_delta as int);
            theirs < ours || (theirs == ours && !earlier)
        }
}

/// A spread that is suggested sells a put that may be sold and buys the lowest that
/// can protect it, for the difference of their prices to the cent; it is sized as if
/// the short put were secured by cash, and holds its width as collateral; no other
/// spread of the chain ranks above it.
pub proof fn law_spread_sold(
    symbol: Seq<char>,
    spot: int,
    quotes: Seq<OptionQuote>,
    budget: int,
    cfg: EngineConfig,
    today: int,
    s: SuggestionView,
) -> (r: (int, int))
    requires
        spread_answer(symbol, spot, quotes, budget, cfg, today, Some(s)),
        forall|k: int| 0 <= k < quotes.len() ==> (#[trigger] quotes[k]).strike > 0,
    ensures
        0 <= r.0 < quotes.len(),
        protects_best(quotes, quotes[r.0], cfg, r.1),
        may_sell_spread(quotes[r.0], quotes[r.1], spot, budget, today, cfg),
        s.symbol == symbol,
        s.kind is SellPutSpread,
        s.kind->long_strike == quotes[r.1].strike,
        is_nearest_cent(quotes[r.1].spec_mid(), s.kind->long_price),
        s.right is Put,
        s.strike == quotes[r.0].strike,
        s.expiry == quotes[r.0].expiry,
        s.dte == quotes[r.0].expiry - today,
        s.underlying_price == spot,
        s.delta is Some && has_delta(quotes[r.0], spot, s.dte, s.delta->0),
        is_nearest_cent(quotes[r.0].spec_mid() - quotes[r.1].spec_mid(), s.limit_price),
        s.quantity >= 1,
        s.strike * 100 * s.quantity <= budget,
        s.quantity < i32::MAX ==> budget < s.strike * 100 * (s.quantity + 1),
        s.premium_total == s.limit_price * 100 * s.quantity,
        s.capital_required == (s.strike - s.kind->long_strike) * 100 * s.quantity,
        is_yield(
            quotes[r.0].spec_mid() - quotes[r.1].spec_mid(),
            s.strike - s.kind->long_strike,
            s.dte,
            s.annualized_yield,
        ),
        forall|j: int, k: int|
            0 <= j < quotes.len() && protects_best(quotes, #[trigger] quotes[j], cfg, k)
                && may_sell_spread(quotes[j], #[trigger] quotes[k], spot, budget, today, cfg)
                ==> is_spread_outranked(quotes[j], quotes[k], spot, today, cfg, s, j < r.0),
{
    let i = choose|i: int|
        {
            &&& #[trigger] spread_best(quotes, quotes.len() as int, spot, budget, cfg, today, i)
            &&& s == spread_suggestion(
                symbol,
                quotes[i],
                quotes[hedge_of(quotes, quotes[i], cfg)],
                spot,
                budget,
                today,
            )
        };
    let short = quotes[i];
    assert(spread_fits(quotes, short, spot, budget, cfg, today));
    let h = choose|h: int| is_hedge(quotes, short, cfg, h);
    lemma_protects_best(quotes, short, cfg, h);
    lemma_may_sell_spread(quotes, short, spot, budget, today, cfg, h);
    let long = quotes[h];
    law_known_delta(short, spot, s.dte, s.delta->0);
    law_nearest_cent(short.spec_mid() - long.spec_mid(), s.limit_price);
    law_nearest_cent(long.spec_mid(), s.kind->long_price);
    law_yield(
        short.spec_mid() - long.spec_mid(),
        short.strike - long.strike,
        s.dte,
        s.annualized_yield,
    );
    let u = s.strike * 100;
    assert(budget >= 0);
    law_units(budget, u);
    assert(u * s.quantity == s.quantity * u) by (nonlinear_arith);
    assert(u * (s.quantity + 1) == (s.quantity + 1) * u) by (nonlinear_arith);
    assert forall|j: int, k: int|
        0 <= j < quotes.len() && protects_best(quotes, #[trigger] quotes[j], cfg, k)
            && may_sell_spread(
            quotes[j],
            #[trigger] quotes[k],
            spot,
            budget,
            today,
            cfg,
        ) implies is_spread_outranked(quotes[j], quotes[k], spot, today, cfg, s, j < i) by {
        let (a, b) = (quotes[j], quotes[k]);
        lemma_protects_best(quotes, a, cfg, k);
        lemma_may_sell_spread(quotes, a, spot, budget, today, cfg, k);
        let d = a.expiry - today;
        assert forall|x: int, y: int| #[trigger]
            has_delta(a, spot, d, x) && #[trigger] is_yield(
                a.spec_mid() - b.spec_mid(),
                a.strike - b.strike,
                d,
                y,
            ) implies {
            let ours = s.annualized_yield - apart(s.delta->0, cfg.target_delta as int);
            let theirs = y - apart(x, cfg.target_delta as int);
            theirs < ours || (theirs == ours && !(j < i))
        } by {
            law_known_delta(a, spot, d, x);
            law_yield(a.spec_mid() - b.spec_mid(), a.strike - b.strike, d, y);
        }
    }
    (i, h)
}

/// Where some put can be sold as a spread, one is suggested.
pub proof fn law_spread_not_missed(
    symbol: Seq<char>,
    spot: int,
    quotes: Seq<OptionQuote>,
    budget: int,
    cfg: EngineConfig,
    today: int,
    r: Option<SuggestionView>,
    i: int,
    j: int,
)
    requires
        spread_answer(symbol, spot, quotes, budget, cfg, today, r),
        0 <= i < quotes.len(),
        protects_best(quotes, quotes[i], cfg, j),
        may_sell_spread(quotes[i], quotes[j], spot, budget, today, cfg),
    ensures
        r is Some,
{
    lemma_may_sell_spread(quotes, quotes[i], spot, budget, today, cfg, j);
}

// --- plans -----------------------------------------------------------------

/// In a plan a close is never listed behind a roll or an entry, a roll never behind an
/// entry, and of two actions of one kind of urgency the better paid is never behind.
pub proof fn law_plan_order(
    contexts: Seq<SymbolContext>,
    cfg: EngineConfig,
    today: int,
    hedged: bool,
    plan: Seq<SuggestionView>,
    i: int,
    j: int,
)
    requires
        is_plan(contexts, cfg, today, hedged, plan),
        0 <= i < j < plan.len(),
    ensures
        plan[j].kind is CloseForProfit ==> plan[i].kind is CloseForProfit,
        plan[j].kind is Roll ==> plan[i].kind is CloseForProfit || plan[i].kind is Roll,
        (plan[i].kind is CloseForProfit && plan[j].kind is CloseForProfit) || (plan[i].kind is Roll
            && plan[j].kind is Roll) || !(plan[i].kind is CloseForProfit || plan[i].kind is Roll
            || plan[j].kind is CloseForProfit || plan[j].kind is Roll)
            ==> plan[i].annualized_yield >= plan[j].annualized_yield,
{
    law_management_first(contexts, cfg, today, hedged, plan);
}

/// What is advised on a symbol follows from its wheel leg: a put (or, hedged, a put
/// spread) within its budget where nothing is held, the care of its open short where
/// one is, a call on its free lots where shares are held.
pub proof fn law_advice_follows_leg(
    ctx: SymbolContext,
    cfg: EngineConfig,
    today: int,
    hedged: bool,
    r: Option<SuggestionView>,
)
    requires
        is_advice(ctx, cfg, today, hedged, r),
    ensures
        ctx.state is Idle && hedged ==> spread_answer(
            ctx.symbol@,
            ctx.underlying.last as int,
            ctx.option_quotes@,
            ctx.max_collateral as int,
            cfg,
            today,
            r,
        ),
        ctx.state is Idle && !hedged ==> csp_answer(
            ctx.symbol@,
            ctx.underlying.last as int,
            ctx.option_quotes@,
            ctx.max_collateral as int,
            cfg,
            today,
            r,
        ),
        ctx.state is ShortPut || ctx.state is HedgedShortPut || ctx.state is ShortCall ==> {
            &&& ctx.open_short is None ==> r is None
            &&& ctx.open_short is Some ==> r == manage_answer(
                ctx.symbol@,
                (ctx.open_short->0).0,
                (ctx.open_short->0).1,
                ctx.underlying.last as int,
                cfg,
                today,
            )
        },
        ctx.state is LongShares ==> {
            &&& ctx.shares is None ==> r is None
            &&& ctx.shares is Some ==> cc_answer(
                ctx.symbol@,
                ctx.underlying.last as int,
                ctx.shares->0,
                ctx.committed_call_contracts as int,
                ctx.option_quotes@,
                cfg,
                today,
                r,
            )
        },
        r is Some && ctx.state is Idle ==> ((r->0).kind is SellPut || (r->0).kind is SellPutSpread),
        r is Some && ctx.state is LongShares ==> (r->0).kind is SellCall,
        r is Some && (ctx.state is ShortPut || ctx.state is HedgedShortPut
            || ctx.state is ShortCall) ==> ((r->0).kind is CloseForProfit || (r->0).kind is Roll),
        r is Some ==> (r->0).symbol == ctx.symbol@,
{
}

} // verus!

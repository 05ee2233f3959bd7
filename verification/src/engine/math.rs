//! Yields, gates and profit-and-loss arithmetic.

use vstd::prelude::*;
use crate::engine::types::{abs_i32, opt_int, EngineConfig, OptionQuote};
use crate::fixed::{abs, floor_div, floor_of, is_price, max, MAX_PART, MAX_PRICE};

verus! {

/// Annualized return on collateral in billionths, rounded down; 0 where there is
/// no collateral or no time.
pub open spec fn yield_on(premium: int, collateral: int, dte: int) -> int {
    if collateral <= 0 || dte <= 0 {
        0
    } else {
        floor_div(premium * 365_000_000_000, collateral * dte)
    }
}

/// Annualized return on collateral in billionths.
pub fn annualized_yield(premium_per_share: i64, collateral_per_share: i64, dte: i64) -> (r: i128)
    ensures
        r == yield_on(premium_per_share as int, collateral_per_share as int, dte as int),
        -MAX_PART <= r <= MAX_PART,
        premium_per_share >= 0 ==> r >= 0,
{
    if collateral_per_share <= 0 || dte <= 0 {
        return 0;
    }
    let c: i128 = collateral_per_share as i128;
    let d: i128 = dte as i128;
    proof {
        assert(1 <= c * d <= 0x4000_0000_0000_0000_0000_0000_0000_0000) by (nonlinear_arith)
            requires
                1 <= c <= 0x7fff_ffff_ffff_ffff,
                1 <= d <= 0x7fff_ffff_ffff_ffff,
        ;
    }
    let n: i128 = premium_per_share as i128 * 365_000_000_000;
    let m: i128 = c * d;
    let r: i128 = floor_of(n, m);
    proof {
        lemma_floor_size(n as int, m as int, 4_000_000_000_000_000_000_000_000_000_000);
    }
    r
}

proof fn lemma_floor_size(n: int, m: int, bound: int)
    requires
        m >= 1,
        -bound <= n <= bound,
    ensures
        -bound <= n / m <= bound,
        n >= 0 ==> n / m >= 0,
{
    assert(-bound <= n / m <= bound && (n >= 0 ==> n / m >= 0)) by (nonlinear_arith)
        requires
            m >= 1,
            -bound <= n <= bound,
    ;
}

/// A whole number held within 32 bits.
pub open spec fn to_i32(x: int) -> int {
    if x > i32::MAX {
        i32::MAX as int
    } else if x < i32::MIN {
        i32::MIN as int
    } else {
        x
    }
}

/// How many units of the size `unit` a budget covers, within 32 bits. Over a
/// unit of size 0 any budget is past every number.
pub open spec fn units_in(budget: int, unit: int) -> int {
    if unit == 0 {
        if budget > 0 {
            i32::MAX as int
        } else if budget < 0 {
            i32::MIN as int
        } else {
            0
        }
    } else {
        to_i32(floor_div(budget, unit))
    }
}

/// How many units of the size `unit` a budget covers.
pub fn count_units(budget: i128, unit: i128) -> (r: i32)
    requires
        budget > i128::MIN,
        unit > i128::MIN,
    ensures
        r == units_in(budget as int, unit as int),
{
    if unit == 0 {
        if budget > 0 {
            i32::MAX
        } else if budget < 0 {
            i32::MIN
        } else {
            0
        }
    } else {
        let q: i128 = if unit > 0 {
            floor_of(budget, unit)
        } else {
            floor_of(-budget, -unit)
        };
        if q > 2_147_483_647 {
            i32::MAX
        } else if q < -2_147_483_648 {
            i32::MIN
        } else {
            q as i32
        }
    }
}

/// How many contracts of 100 shares at `strike` a budget secures.
pub open spec fn contracts(budget: int, strike: int) -> int {
    units_in(budget, strike * 100)
}

/// How many contracts of 100 shares at `strike` a budget secures.
pub fn contracts_for(budget: i64, strike: i64) -> (r: i32)
    ensures
        r == contracts(budget as int, strike as int),
{
    count_units(budget as i128, strike as i128 * 100)
}

/// A positive number of contracts never costs more than the budget.
pub proof fn law_contracts_within_budget(budget: int, strike: int)
    requires
        strike > 0,
        contracts(budget, strike) >= 1,
    ensures
        strike * 100 * contracts(budget, strike) <= budget,
{
    let q = floor_div(budget, strike * 100);
    let n = contracts(budget, strike);
    assert(n <= q);
    assert(strike * 100 * n <= budget) by (nonlinear_arith)
        requires
            strike > 0,
            1 <= n <= q,
            q == budget / (strike * 100),
    ;
}

/// Profit or loss at expiry of a short put, hedged where there is a long put, if
/// the underlying settles at `spot`.
pub open spec fn short_put_pnl(
    spot: int,
    short_strike: int,
    credit: int,
    long_strike: Option<int>,
    shares: int,
) -> int {
    let owed = max(short_strike - spot, 0);
    let covered = match long_strike {
        Some(k) => max(k - spot, 0),
        None => 0,
    };
    (credit - (owed - covered)) * shares
}

/// Profit or loss at expiry of a short put, optionally hedged by a long put at
/// `long_strike`, if the underlying settles at `spot`. `credit` is the premium
/// per share that is kept.
pub fn short_put_pnl_at(
    spot: i64,
    short_strike: i64,
    credit: i64,
    long_strike: Option<i64>,
    shares: i64,
) -> (r: i128)
    requires
        is_price(spot as int),
        is_price(short_strike as int),
        -5 * MAX_PRICE <= credit <= 5 * MAX_PRICE,
        long_strike is Some ==> is_price(long_strike->0 as int),
    ensures
        r == short_put_pnl(
            spot as int,
            short_strike as int,
            credit as int,
            opt_int(long_strike),
            shares as int,
        ),
{
    let owed: i128 = if short_strike > spot {
        short_strike as i128 - spot as i128
    } else {
        0
    };
    let covered: i128 = match long_strike {
        Some(k) => if k > spot {
            k as i128 - spot as i128
        } else {
            0
        },
        None => 0,
    };
    let per_share: i128 = credit as i128 - (owed - covered);
    let n: i128 = shares as i128;
    proof {
        assert(-0x7000_0000_0000_0000_0000_0000_0000_0000 <= per_share * n
            <= 0x7000_0000_0000_0000_0000_0000_0000_0000) by (nonlinear_arith)
            requires
                -9_000_000_000_000_000_000 <= per_share <= 9_000_000_000_000_000_000,
                -0x8000_0000_0000_0000 <= n <= 0x7fff_ffff_ffff_ffff,
        ;
    }
    per_share * n
}

/// A long put below the short one caps the loss at the width less the credit,
/// wherever the underlying settles; from the long strike down the loss is that
/// cap; above the short strike the whole credit is kept.
pub proof fn law_spread_caps_loss(
    spot: int,
    short_strike: int,
    credit: int,
    long_strike: int,
    shares: int,
)
    requires
        long_strike <= short_strike,
        shares >= 0,
    ensures
        short_put_pnl(spot, short_strike, credit, Some(long_strike), shares) >= -((short_strike
            - long_strike - credit) * shares),
        spot <= long_strike ==> short_put_pnl(spot, short_strike, credit, Some(long_strike), shares)
            == -((short_strike - long_strike - credit) * shares),
        spot >= short_strike ==> short_put_pnl(
            spot,
            short_strike,
            credit,
            Some(long_strike),
            shares,
        ) == credit * shares,
        short_put_pnl(spot, short_strike, credit, Some(long_strike), shares) >= short_put_pnl(
            spot,
            short_strike,
            credit,
            None,
            shares,
        ),
{
    let owed = max(short_strike - spot, 0);
    let covered = max(long_strike - spot, 0);
    let width = short_strike - long_strike;
    assert(owed - covered <= width);
    assert(owed - covered <= owed);
    assert((credit - (owed - covered)) * shares >= -((width - credit) * shares)) by (nonlinear_arith)
        requires
            owed - covered <= width,
            shares >= 0,
    ;
    assert((credit - (owed - covered)) * shares >= (credit - (owed - 0)) * shares)
        by (nonlinear_arith)
        requires
            owed - covered <= owed,
            shares >= 0,
    ;
    if spot <= long_strike {
        assert((credit - width) * shares == -((width - credit) * shares)) by (nonlinear_arith);
    }
}

/// Without a hedge a put that settles in the money loses one for one.
pub proof fn law_unhedged_loss_grows(spot: int, strike: int, credit: int, shares: int)
    requires
        spot <= strike,
    ensures
        short_put_pnl(spot, strike, credit, None, shares) == (credit - (strike - spot)) * shares,
{
}

// --- deltas ----------------------------------------------------------------

/// Whether the Black-Scholes delta of a quote is defined: an implied volatility,
/// a spot, a strike and a time to expiration that are all positive.
pub open spec fn estimable(q: OptionQuote, spot: int, dte: int) -> bool {
    q.implied_volatility is Some && q.implied_volatility->0 > 0 && spot > 0 && q.strike > 0 && dte
        > 0
}

/// The size of a quote's delta: the reported greek, else the Black-Scholes
/// estimate where one is defined.
pub open spec fn resolved_delta(q: OptionQuote, spot: int, dte: int) -> Option<int> {
    match q.delta {
        Some(d) => Some(abs(d as int)),
        None => if estimable(q, spot, dte) && q.estimated_delta is Some {
            Some(abs(q.estimated_delta->0 as int))
        } else {
            None
        },
    }
}

/// Whether a quote lacks the greek and a Black-Scholes estimate can be made.
pub fn needs_estimate(q: &OptionQuote, spot: i64, dte_days: i64) -> (r: bool)
    ensures
        r == (q.delta is None && estimable(*q, spot as int, dte_days as int)),
{
    match (q.delta, q.implied_volatility) {
        (None, Some(iv)) => iv > 0 && spot > 0 && q.strike > 0 && dte_days > 0,
        _ => false,
    }
}

/// The size of a quote's delta: the reported greek where present, else the
/// Black-Scholes estimate.
pub fn resolve_abs_delta(q: &OptionQuote, spot: i64, dte_days: i64) -> (r: Option<i64>)
    ensures
        opt_int(r) == resolved_delta(*q, spot as int, dte_days as int),
        r is Some ==> 0 <= r->0 <= 2_147_483_648,
{
    if let Some(d) = q.abs_delta() {
        return Some(d);
    }
    if !needs_estimate(q, spot, dte_days) {
        return None;
    }
    match q.estimated_delta {
        Some(d) => Some(abs_i32(d)),
        None => None,
    }
}

// --- gates and scores ------------------------------------------------------

/// What every new short option has to meet: expiry, premium, open interest and
/// delta within the configured bounds.
pub open spec fn short_gates(q: OptionQuote, spot: int, d: int, cfg: EngineConfig) -> bool {
    &&& cfg.min_dte <= d <= cfg.max_dte
    &&& q.spec_mid() >= cfg.min_premium
    &&& (q.open_interest is Some ==> q.open_interest->0 >= cfg.min_open_interest)
    &&& resolved_delta(q, spot, d) is Some
    &&& cfg.min_delta <= resolved_delta(q, spot, d)->0 <= cfg.max_delta
}

/// Checks the bounds on a new short option; hands back the size of its delta.
pub fn passes_short_gates(q: &OptionQuote, spot: i64, d: i64, cfg: &EngineConfig) -> (r: Option<
    i64,
>)
    ensures
        r is Some <==> short_gates(*q, spot as int, d as int, *cfg),
        r is Some ==> r->0 == resolved_delta(*q, spot as int, d as int)->0,
        r is Some ==> 0 <= r->0 <= 2_147_483_648,
{
    if d < cfg.min_dte || d > cfg.max_dte {
        return None;
    }
    if q.mid() < cfg.min_premium {
        return None;
    }
    if let Some(oi) = q.open_interest {
        if oi < cfg.min_open_interest {
            return None;
        }
    }
    match resolve_abs_delta(q, spot, d) {
        Some(ad) => if ad < cfg.min_delta || ad > cfg.max_delta {
            None
        } else {
            Some(ad)
        },
        None => None,
    }
}

/// The rank of an entry: its yield in billionths, less a thousandth of the
/// distance of its delta from the target.
pub open spec fn score_of(ann: int, abs_delta: int, cfg: EngineConfig) -> int {
    ann - abs(abs_delta - cfg.target_delta)
}

/// The rank of an entry.
pub fn entry_score(ann: i128, abs_delta: i64, cfg: &EngineConfig) -> (r: i128)
    requires
        -MAX_PART <= ann <= MAX_PART,
    ensures
        r == score_of(ann as int, abs_delta as int, *cfg),
{
    let off: i128 = abs_delta as i128 - cfg.target_delta as i128;
    if off < 0 {
        ann + off
    } else {
        ann - off
    }
}

} // verus!

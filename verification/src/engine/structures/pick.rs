//! Choosing the quotes for the legs of a structure.

use vstd::prelude::*;
use crate::dates::{dte, opt_day};
use crate::engine::math::{resolve_abs_delta, resolved_delta};
use crate::engine::types::{chain_wf, LegSide, OptionQuote, Right, StructureLeg};
use crate::fixed::{abs, cents, max, round_cents};

verus! {

/// Whether a strike is out of the money.
pub open spec fn otm(right: Right, strike: int, spot: int) -> bool {
    match right {
        Right::Put => strike < spot,
        Right::Call => strike > spot,
    }
}

/// Whether `strike` is out of the money for `right` at `spot`.
pub fn is_otm(right: Right, strike: i64, spot: i64) -> (r: bool)
    ensures
        r == otm(right, strike as int, spot as int),
{
    match right {
        Right::Put => strike < spot,
        Right::Call => strike > spot,
    }
}

/// The delta by which a quote is picked; past its expiry a quote counts as
/// expiring today.
pub open spec fn pick_delta(q: OptionQuote, spot: int, today: int) -> Option<int> {
    resolved_delta(q, spot, max(q.expiry - today, 0))
}

/// How far a quote's delta is from the target.
pub open spec fn delta_gap(q: OptionQuote, spot: int, target: int, today: int) -> int {
    abs(pick_delta(q, spot, today)->0 - target)
}

/// Whether a quote may be picked by its delta: of the given right, out of the
/// money, priced, and with a delta within `tol` of the target.
pub open spec fn delta_ok(
    q: OptionQuote,
    right: Right,
    spot: int,
    target: int,
    tol: int,
    today: int,
) -> bool {
    &&& q.right == right
    &&& otm(right, q.strike as int, spot)
    &&& q.spec_mid() > 0
    &&& pick_delta(q, spot, today) is Some
    &&& delta_gap(q, spot, target, today) <= tol
}

/// Whether the `i`-th quote is the first of those nearest to the target delta.
pub open spec fn is_delta_pick(
    quotes: Seq<OptionQuote>,
    upto: int,
    right: Right,
    spot: int,
    target: int,
    tol: int,
    today: int,
    i: int,
) -> bool {
    &&& 0 <= i < upto
    &&& delta_ok(quotes[i], right, spot, target, tol, today)
    &&& forall|j: int|
        0 <= j < upto && delta_ok(#[trigger] quotes[j], right, spot, target, tol, today)
            ==> delta_gap(quotes[i], spot, target, today) <= delta_gap(
            quotes[j],
            spot,
            target,
            today,
        ) && (j < i ==> delta_gap(quotes[i], spot, target, today) < delta_gap(
            quotes[j],
            spot,
            target,
            today,
        ))
}

/// The quote nearest to a target delta, where one is within the tolerance.
pub open spec fn delta_pick(
    quotes: Seq<OptionQuote>,
    right: Right,
    spot: int,
    target: int,
    tol: int,
    today: int,
) -> Option<OptionQuote> {
    if exists|i: int|
        is_delta_pick(quotes, quotes.len() as int, right, spot, target, tol, today, i) {
        let i = choose|i: int|
            is_delta_pick(quotes, quotes.len() as int, right, spot, target, tol, today, i);
        Some(quotes[i])
    } else {
        None
    }
}

/// The out-of-the-money quote of a right whose delta is nearest to `target` and
/// within `tol` of it.
pub fn nearest_by_delta(
    quotes: &[OptionQuote],
    right: Right,
    spot: i64,
    target: i64,
    tol: i64,
    today: i32,
) -> (r: Option<OptionQuote>)
    requires
        chain_wf(quotes@),
    ensures
        r == delta_pick(
            quotes@,
            right,
            spot as int,
            target as int,
            tol as int,
            today as int,
        ),
        r is Some ==> (r->0).wf() && delta_ok(
            r->0,
            right,
            spot as int,
            target as int,
            tol as int,
            today as int,
        ),
{
    let mut best: Option<(i128, usize)> = None;
    let mut i: usize = 0;
    while i < quotes.len()
        invariant
            i <= quotes@.len(),
            best is None ==> forall|j: int|
                0 <= j < i ==> !delta_ok(
                    #[trigger] quotes@[j],
                    right,
                    spot as int,
                    target as int,
                    tol as int,
                    today as int,
                ),
            best is Some ==> (best->0).1 < i && is_delta_pick(
                quotes@,
                i as int,
                right,
                spot as int,
                target as int,
                tol as int,
                today as int,
                (best->0).1 as int,
            ) && (best->0).0 == delta_gap(
                quotes@[(best->0).1 as int],
                spot as int,
                target as int,
                today as int,
            ),
        decreases quotes@.len() - i,
    {
        let q = quotes[i];
        if q.right == right && is_otm(right, q.strike, spot) && q.mid() > 0 {
            let left: i64 = dte(today, q.expiry);
            let days: i64 = if left > 0 {
                left
            } else {
                0
            };
            if let Some(d) = resolve_abs_delta(&q, spot, days) {
                let off: i128 = d as i128 - target as i128;
                let gap: i128 = if off < 0 {
                    -off
                } else {
                    off
                };
                if gap <= tol as i128 {
                    let nearer = match best {
                        None => true,
                        Some((b, _)) => gap < b,
                    };
                    if nearer {
                        best = Some((gap, i));
                    }
                }
            }
        }
        i = i + 1;
    }
    match best {
        None => {
            proof {
                assert forall|k: int|
                    !is_delta_pick(
                        quotes@,
                        quotes@.len() as int,
                        right,
                        spot as int,
                        target as int,
                        tol as int,
                        today as int,
                        k,
                    ) by {
                    if 0 <= k < quotes@.len() {
                        assert(!delta_ok(
                            quotes@[k],
                            right,
                            spot as int,
                            target as int,
                            tol as int,
                            today as int,
                        ));
                    }
                }
            }
            None
        },
        Some((_, k)) => {
            proof {
                let n = quotes@.len() as int;
                let (s, t, u, d) = (spot as int, target as int, tol as int, today as int);
                assert(is_delta_pick(quotes@, n, right, s, t, u, d, k as int));
                let c = choose|c: int| is_delta_pick(quotes@, n, right, s, t, u, d, c);
                assert(is_delta_pick(quotes@, n, right, s, t, u, d, c));
                assert(delta_ok(quotes@[c], right, s, t, u, d));
                assert(delta_ok(quotes@[k as int], right, s, t, u, d));
                assert(c == k);
            }
            Some(quotes[k])
        },
    }
}

/// Whether a quote may be picked by its strike: of the given right and expiry
/// (any where `expiry` is `None`), and priced.
pub open spec fn strike_ok(q: OptionQuote, right: Right, expiry: Option<int>) -> bool {
    &&& q.right == right
    &&& (expiry is Some ==> q.expiry == expiry->0)
    &&& q.spec_mid() > 0
}

/// Whether the `i`-th quote is the first of those nearest to the target strike.
pub open spec fn is_strike_pick(
    quotes: Seq<OptionQuote>,
    upto: int,
    right: Right,
    expiry: Option<int>,
    target: int,
    i: int,
) -> bool {
    &&& 0 <= i < upto
    &&& strike_ok(quotes[i], right, expiry)
    &&& forall|j: int|
        0 <= j < upto && strike_ok(#[trigger] quotes[j], right, expiry) ==> abs(
            quotes[i].strike - target,
        ) <= abs(quotes[j].strike - target) && (j < i ==> abs(quotes[i].strike - target) < abs(
            quotes[j].strike - target,
        ))
}

/// The priced quote nearest to a target strike.
pub open spec fn strike_pick(
    quotes: Seq<OptionQuote>,
    right: Right,
    expiry: Option<int>,
    target: int,
) -> Option<OptionQuote> {
    if exists|i: int| is_strike_pick(quotes, quotes.len() as int, right, expiry, target, i) {
        let i = choose|i: int|
            is_strike_pick(quotes, quotes.len() as int, right, expiry, target, i);
        Some(quotes[i])
    } else {
        None
    }
}

/// The priced quote of a right, of the given expiry where there is one, whose
/// strike is nearest to `target`.
pub fn nearest_by_strike(
    quotes: &[OptionQuote],
    right: Right,
    expiry: Option<i32>,
    target: i128,
) -> (r: Option<OptionQuote>)
    requires
        chain_wf(quotes@),
        -100_000_000_000_000_000_000 <= target <= 100_000_000_000_000_000_000,
    ensures
        r == strike_pick(quotes@, right, opt_day(expiry), target as int),
        r is Some ==> (r->0).wf() && strike_ok(r->0, right, opt_day(expiry)),
{
    let ghost e = opt_day(expiry);
    let mut best: Option<(i128, usize)> = None;
    let mut i: usize = 0;
    while i < quotes.len()
        invariant
            i <= quotes@.len(),
            e == opt_day(expiry),
            -100_000_000_000_000_000_000 <= target <= 100_000_000_000_000_000_000,
            best is None ==> forall|j: int|
                0 <= j < i ==> !strike_ok(#[trigger] quotes@[j], right, e),
            best is Some ==> (best->0).1 < i && is_strike_pick(
                quotes@,
                i as int,
                right,
                e,
                target as int,
                (best->0).1 as int,
            ) && (best->0).0 == abs(quotes@[(best->0).1 as int].strike - target),
        decreases quotes@.len() - i,
    {
        let q = quotes[i];
        let dated = match expiry {
            Some(x) => q.expiry == x,
            None => true,
        };
        if q.right == right && dated && q.mid() > 0 {
            let off: i128 = q.strike as i128 - target;
            let gap: i128 = if off < 0 {
                -off
            } else {
                off
            };
            let nearer = match best {
                None => true,
                Some((b, _)) => gap < b,
            };
            if nearer {
                best = Some((gap, i));
            }
        }
        i = i + 1;
    }
    match best {
        None => {
            proof {
                assert forall|k: int|
                    !is_strike_pick(quotes@, quotes@.len() as int, right, e, target as int, k) by {
                    if 0 <= k < quotes@.len() {
                        assert(!strike_ok(quotes@[k], right, e));
                    }
                }
            }
            None
        },
        Some((_, k)) => {
            proof {
                let n = quotes@.len() as int;
                assert(is_strike_pick(quotes@, n, right, e, target as int, k as int));
                let c = choose|c: int| is_strike_pick(quotes@, n, right, e, target as int, c);
                assert(is_strike_pick(quotes@, n, right, e, target as int, c));
                assert(strike_ok(quotes@[c], right, e));
                assert(strike_ok(quotes@[k as int], right, e));
                assert(c == k);
            }
            Some(quotes[k])
        },
    }
}

/// The leg made of a quote: its mid to the cent, and the size of its delta.
pub open spec fn leg_of(q: OptionQuote, side: LegSide) -> StructureLeg {
    StructureLeg {
        right: q.right,
        strike: q.strike,
        side,
        price: cents(q.spec_mid()) as i64,
        delta: match q.spec_abs_delta() {
            Some(d) => Some(d as i64),
            None => None,
        },
    }
}

/// Makes a leg from a chosen quote.
pub fn leg(q: &OptionQuote, side: LegSide) -> (r: StructureLeg)
    requires
        q.wf(),
    ensures
        r == leg_of(*q, side),
        r.wf(),
        r.price == cents(q.spec_mid()),
{
    let price: i64 = round_cents(q.mid());
    let delta = q.abs_delta();
    StructureLeg { right: q.right, strike: q.strike, side, price, delta }
}

} // verus!

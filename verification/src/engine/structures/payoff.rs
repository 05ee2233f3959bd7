//! Profit and loss of a set of legs at expiry.

use vstd::prelude::*;
use crate::engine::types::{LegSide, Right, StructureLeg};
use crate::fixed::{abs, clamp, max, round_away, CENT, MAX_PRICE, SCALE};

verus! {

/// The most legs that are added up.
pub const MAX_LEGS: usize = 1_000_000;

/// Whether there are not too many legs, all in range.
pub open spec fn legs_wf(legs: Seq<StructureLeg>) -> bool {
    legs.len() <= MAX_LEGS && forall|i: int| 0 <= i < legs.len() ==> (#[trigger] legs[i]).wf()
}

/// What a leg brings in when the structure is opened.
pub open spec fn leg_credit(l: StructureLeg) -> int {
    match l.side {
        LegSide::Sell => l.price as int,
        LegSide::Buy => -(l.price as int),
    }
}

/// Net credit per share: premium sold less premium bought.
pub open spec fn credit_of(legs: Seq<StructureLeg>) -> int
    decreases legs.len(),
{
    if legs.len() == 0 {
        0
    } else {
        credit_of(legs.drop_last()) + leg_credit(legs.last())
    }
}

/// What an option is worth at expiry.
pub open spec fn intrinsic(right: Right, strike: int, spot: int) -> int {
    match right {
        Right::Put => max(strike - spot, 0),
        Right::Call => max(spot - strike, 0),
    }
}

/// What a leg earns per share if the underlying settles at `spot`.
pub open spec fn leg_payoff(l: StructureLeg, spot: int) -> int {
    match l.side {
        LegSide::Buy => intrinsic(l.right, l.strike as int, spot) - l.price,
        LegSide::Sell => l.price - intrinsic(l.right, l.strike as int, spot),
    }
}

/// What the legs earn per share if the underlying settles at `spot`.
pub open spec fn payoff(legs: Seq<StructureLeg>, spot: int) -> int
    decreases legs.len(),
{
    if legs.len() == 0 {
        0
    } else {
        payoff(legs.drop_last(), spot) + leg_payoff(legs.last(), spot)
    }
}

/// The highest strike, at least 0.
pub open spec fn top_strike(legs: Seq<StructureLeg>) -> int
    decreases legs.len(),
{
    if legs.len() == 0 {
        0
    } else {
        max(top_strike(legs.drop_last()), legs.last().strike as int)
    }
}

/// Whether `x` is a price at which the profit can bend or be extreme: zero, a
/// strike, or twice the highest strike.
pub open spec fn is_candidate(legs: Seq<StructureLeg>, x: int) -> bool {
    ||| x == 0
    ||| x == 2 * top_strike(legs)
    ||| exists|i: int| 0 <= i < legs.len() && (#[trigger] legs[i]).strike == x
}

/// Whether numbers stand in strictly rising order.
pub open spec fn rising(s: Seq<i64>) -> bool {
    forall|i: int, j: int| 0 <= i < j < s.len() ==> s[i] < s[j]
}

/// Whether `s` lists the candidate prices of `legs` in rising order.
pub open spec fn lists_candidates(legs: Seq<StructureLeg>, s: Seq<i64>) -> bool {
    &&& rising(s)
    &&& forall|x: i64| s.contains(x) <==> is_candidate(legs, x as int)
}

/// The candidate prices of `legs` in rising order.
pub open spec fn spots_of(legs: Seq<StructureLeg>) -> Seq<i64> {
    choose|s: Seq<i64>| lists_candidates(legs, s)
}

/// Two rising lists of the same numbers are the same list.
pub proof fn lemma_rising_unique(a: Seq<i64>, b: Seq<i64>)
    requires
        rising(a),
        rising(b),
        forall|x: i64| a.contains(x) <==> b.contains(x),
    ensures
        a == b,
    decreases a.len(),
{
    if a.len() == 0 {
        if b.len() > 0 {
            assert(b.contains(b[0]));
        }
        assert(a =~= b);
    } else {
        assert(a.contains(a[0]));
        let (la, lb) = (a.last(), b.last());
        assert(a.contains(la));
        let i = choose|i: int| 0 <= i < b.len() && b[i] == la;
        assert(b.contains(lb));
        let j = choose|j: int| 0 <= j < a.len() && a[j] == lb;
        assert(la == lb);
        let (c, d) = (a.drop_last(), b.drop_last());
        assert forall|x: i64| c.contains(x) <==> d.contains(x) by {
            if c.contains(x) {
                let k = choose|k: int| 0 <= k < c.len() && c[k] == x;
                assert(a[k] == x && x < la);
                assert(a.contains(x));
                let m = choose|m: int| 0 <= m < b.len() && b[m] == x;
                assert(d[m] == x);
            }
            if d.contains(x) {
                let k = choose|k: int| 0 <= k < d.len() && d[k] == x;
                assert(b[k] == x && x < lb);
                assert(b.contains(x));
                let m = choose|m: int| 0 <= m < a.len() && a[m] == x;
                assert(c[m] == x);
            }
        }
        lemma_rising_unique(c, d);
        assert(a =~= c.push(la));
        assert(b =~= d.push(lb));
    }
}

/// Net credit per share of a set of legs: positive where a credit is received.
pub fn net_credit(legs: &[StructureLeg]) -> (r: i128)
    requires
        legs_wf(legs@),
    ensures
        r == credit_of(legs@),
        -(MAX_PRICE * legs@.len()) <= r <= MAX_PRICE * legs@.len(),
{
    let mut sum: i128 = 0;
    let mut i: usize = 0;
    assert(legs@.take(0) =~= Seq::empty());
    while i < legs.len()
        invariant
            i <= legs@.len(),
            legs_wf(legs@),
            sum == credit_of(legs@.take(i as int)),
            -(MAX_PRICE * i) <= sum <= MAX_PRICE * i,
        decreases legs@.len() - i,
    {
        let l = legs[i];
        assert(legs@.take(i + 1).drop_last() =~= legs@.take(i as int));
        match l.side {
            LegSide::Sell => {
                sum = sum + l.price as i128;
            },
            LegSide::Buy => {
                sum = sum - l.price as i128;
            },
        }
        i = i + 1;
    }
    assert(legs@.take(i as int) =~= legs@);
    sum
}

/// Profit or loss per share at expiry if the underlying settles at `spot`.
pub fn payoff_at(legs: &[StructureLeg], spot: i64) -> (r: i128)
    requires
        legs_wf(legs@),
        -4 * MAX_PRICE <= spot <= 4 * MAX_PRICE,
    ensures
        r == payoff(legs@, spot as int),
        -(6_000_000_000_000_000 * legs@.len()) <= r <= 6_000_000_000_000_000 * legs@.len(),
{
    let mut sum: i128 = 0;
    let mut i: usize = 0;
    assert(legs@.take(0) =~= Seq::empty());
    while i < legs.len()
        invariant
            i <= legs@.len(),
            legs_wf(legs@),
            -4 * MAX_PRICE <= spot <= 4 * MAX_PRICE,
            sum == payoff(legs@.take(i as int), spot as int),
            -(6_000_000_000_000_000 * i) <= sum <= 6_000_000_000_000_000 * i,
        decreases legs@.len() - i,
    {
        let l = legs[i];
        assert(legs@.take(i + 1).drop_last() =~= legs@.take(i as int));
        let apart: i64 = match l.right {
            Right::Put => l.strike - spot,
            Right::Call => spot - l.strike,
        };
        let worth: i64 = if apart > 0 {
            apart
        } else {
            0
        };
        match l.side {
            LegSide::Buy => {
                sum = sum + (worth - l.price) as i128;
            },
            LegSide::Sell => {
                sum = sum + (l.price - worth) as i128;
            },
        }
        i = i + 1;
    }
    assert(legs@.take(i as int) =~= legs@);
    sum
}

/// Puts `x` into a rising list, unless it is there already.
fn add_rising(list: &mut Vec<i64>, x: i64)
    requires
        rising(old(list)@),
    ensures
        rising(final(list)@),
        forall|y: i64| final(list)@.contains(y) <==> old(list)@.contains(y) || y == x,
{
    let mut p: usize = 0;
    while p < list.len() && list[p] < x
        invariant
            p <= list@.len(),
            list@ == old(list)@,
            rising(list@),
            forall|i: int| 0 <= i < p ==> list@[i] < x,
        decreases list@.len() - p,
    {
        p = p + 1;
    }
    if p < list.len() && list[p] == x {
        assert(list@[p as int] == x);
        return;
    }
    let ghost before = list@;
    list.insert(p, x);
    proof {
        let after = list@;
        assert(after == before.insert(p as int, x));
        assert forall|y: i64| after.contains(y) <==> before.contains(y) || y == x by {
            if before.contains(y) {
                let k = choose|k: int| 0 <= k < before.len() && before[k] == y;
                if k < p {
                    assert(after[k] == y);
                } else {
                    assert(after[k + 1] == y);
                }
            }
            if y == x {
                assert(after[p as int] == x);
            }
            if after.contains(y) && y != x {
                let k = choose|k: int| 0 <= k < after.len() && after[k] == y;
                if k < p {
                    assert(before[k] == y);
                } else {
                    assert(before[k - 1] == y);
                }
            }
        }
        assert forall|i: int, j: int| 0 <= i < j < after.len() implies after[i] < after[j] by {
            if p < before.len() {
                assert(x < before[p as int]);
            }
        }
    }
}

/// The prices at which the profit of `legs` can bend or be extreme, rising.
pub fn candidate_spots(legs: &[StructureLeg]) -> (r: Vec<i64>)
    requires
        legs_wf(legs@),
    ensures
        lists_candidates(legs@, r@),
        r@ == spots_of(legs@),
        forall|i: int| 0 <= i < r@.len() ==> -MAX_PRICE <= #[trigger] r@[i] <= 2 * MAX_PRICE,
{
    let mut spots: Vec<i64> = Vec::new();
    spots.push(0);
    assert(spots@[0] == 0);
    let mut top: i64 = 0;
    let mut i: usize = 0;
    assert(legs@.take(0) =~= Seq::empty());
    while i < legs.len()
        invariant
            i <= legs@.len(),
            legs_wf(legs@),
            0 <= top <= MAX_PRICE,
            top == top_strike(legs@.take(i as int)),
            rising(spots@),
            forall|x: i64|
                spots@.contains(x) <==> x == 0 || (exists|k: int|
                    0 <= k < i && (#[trigger] legs@[k]).strike == x),
        decreases legs@.len() - i,
    {
        let k: i64 = legs[i].strike;
        assert(legs@.take(i + 1).drop_last() =~= legs@.take(i as int));
        let ghost before = spots@;
        add_rising(&mut spots, k);
        proof {
            assert forall|x: i64|
                spots@.contains(x) <==> x == 0 || (exists|m: int|
                    0 <= m < i + 1 && (#[trigger] legs@[m]).strike == x) by {
                if x == k {
                    assert(legs@[i as int].strike == x);
                }
                if before.contains(x) && x != 0 {
                    let m = choose|m: int| 0 <= m < i && (#[trigger] legs@[m]).strike == x;
                    assert(legs@[m].strike == x);
                }
            }
        }
        if k > top {
            top = k;
        }
        i = i + 1;
    }
    assert(legs@.take(i as int) =~= legs@);
    add_rising(&mut spots, 2 * top);
    proof {
        assert forall|j: int| 0 <= j < spots@.len() implies -MAX_PRICE <= #[trigger] spots@[j] <= 2
            * MAX_PRICE by {
            assert(spots@.contains(spots@[j]));
            assert(is_candidate(legs@, spots@[j] as int));
        }
        assert(lists_candidates(legs@, spots@));
        assert(lists_candidates(legs@, spots_of(legs@)));
        lemma_rising_unique(spots@, spots_of(legs@));
    }
    spots
}

/// Whether `m` is the greatest loss per share over the candidate prices, 0 where
/// none of them loses.
pub open spec fn is_max_loss(legs: Seq<StructureLeg>, m: int) -> bool {
    &&& m >= 0
    &&& forall|x: int| is_candidate(legs, x) ==> #[trigger] payoff(legs, x) >= -m
    &&& m > 0 ==> exists|x: int| is_candidate(legs, x) && #[trigger] payoff(legs, x) == -m
}

/// The greatest loss per share over the candidate prices.
pub open spec fn max_loss(legs: Seq<StructureLeg>) -> int {
    choose|m: int| is_max_loss(legs, m)
}

pub proof fn lemma_max_loss_unique(legs: Seq<StructureLeg>, m: int)
    requires
        is_max_loss(legs, m),
    ensures
        max_loss(legs) == m,
{
    let n = max_loss(legs);
    assert(is_max_loss(legs, n));
    if m > n {
        let x = choose|x: int| is_candidate(legs, x) && #[trigger] payoff(legs, x) == -m;
        assert(payoff(legs, x) >= -n);
    } else if n > m {
        let x = choose|x: int| is_candidate(legs, x) && #[trigger] payoff(legs, x) == -n;
        assert(payoff(legs, x) >= -m);
    }
}

/// Worst-case loss per share, 0 where the structure can never lose.
pub fn max_loss_per_share(legs: &[StructureLeg]) -> (r: i128)
    requires
        legs_wf(legs@),
    ensures
        r == max_loss(legs@),
        is_max_loss(legs@, r as int),
        0 <= r <= 6_000_000_000_000_000 * legs@.len(),
{
    let spots = candidate_spots(legs);
    let mut worst: i128 = 0;
    let mut i: usize = 0;
    while i < spots.len()
        invariant
            i <= spots@.len(),
            legs_wf(legs@),
            lists_candidates(legs@, spots@),
            forall|j: int| 0 <= j < spots@.len() ==> -MAX_PRICE <= #[trigger] spots@[j] <= 2
                * MAX_PRICE,
            0 <= worst <= 6_000_000_000_000_000 * legs@.len(),
            forall|j: int| 0 <= j < i ==> payoff(legs@, #[trigger] spots@[j] as int) >= -worst,
            worst > 0 ==> exists|x: int|
                is_candidate(legs@, x) && #[trigger] payoff(legs@, x) == -worst,
        decreases spots@.len() - i,
    {
        let p: i128 = payoff_at(legs, spots[i]);
        if p < 0 && -p > worst {
            worst = -p;
            assert(spots@.contains(spots@[i as int]));
            assert(is_candidate(legs@, spots@[i as int] as int));
            assert(payoff(legs@, spots@[i as int] as int) == -worst);
        }
        i = i + 1;
    }
    proof {
        lemma_top_bound(legs@);
        assert forall|x: int| is_candidate(legs@, x) implies #[trigger] payoff(legs@, x)
            >= -worst by {
            assert(i64::MIN <= x <= i64::MAX);
            assert(is_candidate(legs@, x as i64 as int));
            assert(spots@.contains(x as i64));
            let j = choose|j: int| 0 <= j < spots@.len() && spots@[j] == x as i64;
            assert(payoff(legs@, spots@[j] as int) >= -worst);
        }
        lemma_max_loss_unique(legs@, worst as int);
    }
    worst
}

proof fn lemma_top_bound(legs: Seq<StructureLeg>)
    requires
        forall|i: int| 0 <= i < legs.len() ==> (#[trigger] legs[i]).wf(),
    ensures
        0 <= top_strike(legs) <= MAX_PRICE,
        forall|i: int| 0 <= i < legs.len() ==> (#[trigger] legs[i]).strike <= top_strike(legs),
    decreases legs.len(),
{
    if legs.len() > 0 {
        let t = legs.drop_last();
        assert forall|i: int| 0 <= i < t.len() implies (#[trigger] t[i]).wf() by {
            assert(t[i] == legs[i]);
        }
        lemma_top_bound(t);
        assert(legs[legs.len() - 1].wf());
        assert forall|i: int| 0 <= i < legs.len() implies (#[trigger] legs[i]).strike <= top_strike(
            legs,
        ) by {
            if i < t.len() {
                assert(t[i] == legs[i]);
            }
        }
    }
}

// --- what the candidates say of every settle price -------------------------

/// Calls bought less calls sold: what the structure gains per point far above
/// all strikes.
pub open spec fn upside_slope(legs: Seq<StructureLeg>) -> int
    decreases legs.len(),
{
    if legs.len() == 0 {
        0
    } else {
        upside_slope(legs.drop_last()) + match (legs.last().right, legs.last().side) {
            (Right::Call, LegSide::Buy) => 1int,
            (Right::Call, LegSide::Sell) => -1,
            _ => 0,
        }
    }
}

/// Whether no strike lies strictly between `a` and `b`.
pub open spec fn no_kink(legs: Seq<StructureLeg>, a: int, b: int) -> bool {
    forall|i: int| 0 <= i < legs.len() ==> (#[trigger] legs[i]).strike <= a || legs[i].strike >= b
}

/// Between two prices with no strike in between the profit is linear.
pub proof fn lemma_linear(legs: Seq<StructureLeg>, a: int, b: int, x: int)
    requires
        a <= x <= b,
        no_kink(legs, a, b),
    ensures
        payoff(legs, x) * (b - a) == payoff(legs, a) * (b - x) + payoff(legs, b) * (x - a),
    decreases legs.len(),
{
    if legs.len() == 0 {
        assert(payoff(legs, x) == 0 && payoff(legs, a) == 0 && payoff(legs, b) == 0);
        assert(0 * (b - a) == 0 * (b - x) + 0 * (x - a)) by (nonlinear_arith);
    } else {
        let t = legs.drop_last();
        let l = legs.last();
        assert(l == legs[legs.len() - 1]);
        assert forall|i: int| 0 <= i < t.len() implies (#[trigger] t[i]).strike <= a
            || t[i].strike >= b by {
            assert(t[i] == legs[i]);
        }
        lemma_linear(t, a, b, x);
        let (px, pa, pb) = (leg_payoff(l, x), leg_payoff(l, a), leg_payoff(l, b));
        let (qx, qa, qb) = (payoff(t, x), payoff(t, a), payoff(t, b));
        assert(px * (b - a) == pa * (b - x) + pb * (x - a)) by {
            lemma_leg_linear(l, a, b, x);
        }
        assert((qx + px) * (b - a) == (qa + pa) * (b - x) + (qb + pb) * (x - a))
            by (nonlinear_arith)
            requires
                px * (b - a) == pa * (b - x) + pb * (x - a),
                qx * (b - a) == qa * (b - x) + qb * (x - a),
        ;
    }
}

proof fn lemma_leg_linear(l: StructureLeg, a: int, b: int, x: int)
    requires
        a <= x <= b,
        l.strike <= a || l.strike >= b,
    ensures
        leg_payoff(l, x) * (b - a) == leg_payoff(l, a) * (b - x) + leg_payoff(l, b) * (x - a),
{
    let k = l.strike as int;
    let p = l.price as int;
    let (px, pa, pb) = (leg_payoff(l, x), leg_payoff(l, a), leg_payoff(l, b));
    // On one side of its strike a leg is flat or moves one for one.
    let m = if l.right == Right::Put && k >= b {
        if l.side == LegSide::Buy {
            -1int
        } else {
            1
        }
    } else if l.right == Right::Call && k <= a {
        if l.side == LegSide::Buy {
            1int
        } else {
            -1
        }
    } else {
        0
    };
    assert(px == pa + m * (x - a) && pb == pa + m * (b - a)) by {
        if m == 0 {
            assert(m * (x - a) == 0 && m * (b - a) == 0) by (nonlinear_arith)
                requires
                    m == 0,
            ;
        } else if m == 1 {
            assert(m * (x - a) == x - a && m * (b - a) == b - a) by (nonlinear_arith)
                requires
                    m == 1,
            ;
        } else {
            assert(m * (x - a) == a - x && m * (b - a) == a - b) by (nonlinear_arith)
                requires
                    m == -1,
            ;
        }
    }
    assert(px * (b - a) == pa * (b - x) + pb * (x - a)) by (nonlinear_arith)
        requires
            px == pa + m * (x - a),
            pb == pa + m * (b - a),
    ;
}

/// Above all strikes the profit moves with the upside slope.
proof fn lemma_tail(legs: Seq<StructureLeg>, a: int, x: int)
    requires
        a <= x,
        forall|i: int| 0 <= i < legs.len() ==> (#[trigger] legs[i]).strike <= a,
    ensures
        payoff(legs, x) == payoff(legs, a) + upside_slope(legs) * (x - a),
    decreases legs.len(),
{
    if legs.len() == 0 {
        assert(upside_slope(legs) * (x - a) == 0) by (nonlinear_arith)
            requires
                upside_slope(legs) == 0,
        ;
    } else {
        let t = legs.drop_last();
        let l = legs.last();
        assert(l == legs[legs.len() - 1]);
        assert forall|i: int| 0 <= i < t.len() implies (#[trigger] t[i]).strike <= a by {
            assert(t[i] == legs[i]);
        }
        lemma_tail(t, a, x);
        let m = upside_slope(legs) - upside_slope(t);
        assert(leg_payoff(l, x) == leg_payoff(l, a) + m * (x - a)) by {
            if m == 1 {
                assert(m * (x - a) == x - a) by (nonlinear_arith)
                    requires
                        m == 1,
                ;
            } else if m == -1 {
                assert(m * (x - a) == a - x) by (nonlinear_arith)
                    requires
                        m == -1,
                ;
            } else {
                assert(m * (x - a) == 0) by (nonlinear_arith)
                    requires
                        m == 0,
                ;
            }
        }
        assert((upside_slope(t) + m) * (x - a) == upside_slope(t) * (x - a) + m * (x - a))
            by (nonlinear_arith);
    }
}

/// The largest of zero and the strikes that is not above `x`.
spec fn floor_strike(legs: Seq<StructureLeg>, x: int) -> int
    decreases legs.len(),
{
    if legs.len() == 0 {
        0
    } else {
        let k = legs.last().strike as int;
        let f = floor_strike(legs.drop_last(), x);
        if f < k <= x {
            k
        } else {
            f
        }
    }
}

/// The smallest strike that is above `x`, or `cap` where there is none below it.
spec fn ceil_strike(legs: Seq<StructureLeg>, x: int, cap: int) -> int
    decreases legs.len(),
{
    if legs.len() == 0 {
        cap
    } else {
        let k = legs.last().strike as int;
        let c = ceil_strike(legs.drop_last(), x, cap);
        if x < k < c {
            k
        } else {
            c
        }
    }
}

proof fn lemma_neighbours(legs: Seq<StructureLeg>, x: int, cap: int)
    requires
        0 <= x < cap,
    ensures
        0 <= floor_strike(legs, x) <= x < ceil_strike(legs, x, cap) <= cap,
        floor_strike(legs, x) == 0 || exists|i: int|
            0 <= i < legs.len() && (#[trigger] legs[i]).strike == floor_strike(legs, x),
        ceil_strike(legs, x, cap) == cap || exists|i: int|
            0 <= i < legs.len() && (#[trigger] legs[i]).strike == ceil_strike(legs, x, cap),
        no_kink(legs, floor_strike(legs, x), ceil_strike(legs, x, cap)),
    decreases legs.len(),
{
    if legs.len() > 0 {
        let t = legs.drop_last();
        lemma_neighbours(t, x, cap);
        let f = floor_strike(t, x);
        let c = ceil_strike(t, x, cap);
        if f != 0 {
            let i = choose|i: int| 0 <= i < t.len() && (#[trigger] t[i]).strike == f;
            assert(legs[i].strike == f);
        }
        if c != cap {
            let i = choose|i: int| 0 <= i < t.len() && (#[trigger] t[i]).strike == c;
            assert(legs[i].strike == c);
        }
        let last = legs[legs.len() - 1];
        assert(last == legs.last());
        assert forall|i: int| 0 <= i < legs.len() implies (#[trigger] legs[i]).strike
            <= floor_strike(legs, x) || legs[i].strike >= ceil_strike(legs, x, cap) by {
            if i < t.len() {
                assert(t[i] == legs[i]);
                assert(t[i].strike <= f || t[i].strike >= c);
            }
        }
    }
}

/// Where a structure does not lose without end on the upside, no settle price
/// loses more than the greatest loss over the candidate prices: the risk is
/// capped.
pub proof fn law_loss_capped(legs: Seq<StructureLeg>, x: int)
    requires
        legs_wf(legs),
        upside_slope(legs) >= 0,
        x >= 0,
    ensures
        payoff(legs, x) >= -max_loss(legs),
{
    lemma_max_loss_exists(legs);
    let m = max_loss(legs);
    lemma_top_bound(legs);
    let top = 2 * top_strike(legs);
    assert(is_candidate(legs, top));
    if x >= top {
        assert forall|i: int| 0 <= i < legs.len() implies (#[trigger] legs[i]).strike <= top by {}
        lemma_tail(legs, top, x);
        assert(upside_slope(legs) * (x - top) >= 0) by (nonlinear_arith)
            requires
                upside_slope(legs) >= 0,
                x >= top,
        ;
        assert(payoff(legs, top) >= -m);
    } else {
        lemma_neighbours(legs, x, top);
        let a = floor_strike(legs, x);
        let b = ceil_strike(legs, x, top);
        assert(is_candidate(legs, a));
        assert(is_candidate(legs, b));
        lemma_linear(legs, a, b, x);
        let (px, pa, pb) = (payoff(legs, x), payoff(legs, a), payoff(legs, b));
        assert(pa >= -m && pb >= -m);
        assert(px >= -m) by (nonlinear_arith)
            requires
                px * (b - a) == pa * (b - x) + pb * (x - a),
                pa >= -m,
                pb >= -m,
                a <= x,
                x < b,
        ;
    }
}

spec fn worst_of(legs: Seq<StructureLeg>, n: nat) -> int
    decreases n,
{
    if n == 0 {
        max(max(-payoff(legs, 0), -payoff(legs, 2 * top_strike(legs))), 0)
    } else {
        max(worst_of(legs, (n - 1) as nat), -payoff(legs, legs[n - 1].strike as int))
    }
}

proof fn lemma_worst_of(legs: Seq<StructureLeg>, n: nat)
    requires
        n <= legs.len(),
    ensures
        worst_of(legs, n) >= 0,
        payoff(legs, 0) >= -worst_of(legs, n),
        payoff(legs, 2 * top_strike(legs)) >= -worst_of(legs, n),
        forall|i: int|
            0 <= i < n ==> payoff(legs, (#[trigger] legs[i]).strike as int) >= -worst_of(legs, n),
        worst_of(legs, n) > 0 ==> exists|x: int|
            is_candidate(legs, x) && #[trigger] payoff(legs, x) == -worst_of(legs, n),
    decreases n,
{
    if n == 0 {
        let w = worst_of(legs, n);
        if w > 0 {
            if w == -payoff(legs, 0) {
                assert(is_candidate(legs, 0) && payoff(legs, 0) == -w);
            } else {
                assert(is_candidate(legs, 2 * top_strike(legs)));
                assert(payoff(legs, 2 * top_strike(legs)) == -w);
            }
        }
    } else {
        lemma_worst_of(legs, (n - 1) as nat);
        let k = legs[n - 1].strike as int;
        assert(is_candidate(legs, k));
        if worst_of(legs, n) == -payoff(legs, k) {
            assert(is_candidate(legs, k) && payoff(legs, k) == -worst_of(legs, n));
        }
    }
}

pub proof fn lemma_max_loss_exists(legs: Seq<StructureLeg>)
    ensures
        is_max_loss(legs, max_loss(legs)),
{
    let n = legs.len();
    lemma_worst_of(legs, n);
    let m = worst_of(legs, n);
    assert forall|x: int| is_candidate(legs, x) implies #[trigger] payoff(legs, x) >= -m by {
        if x != 0 && x != 2 * top_strike(legs) {
            let i = choose|i: int| 0 <= i < legs.len() && (#[trigger] legs[i]).strike == x;
            assert(payoff(legs, legs[i].strike as int) >= -m);
        }
    }
    assert(is_max_loss(legs, m));
}

// --- breakevens ------------------------------------------------------------

/// Whether the profit crosses zero between two prices at which it is `pa` and `pb`.
pub open spec fn crosses(pa: int, pb: int) -> bool {
    (pa <= 0 && pb > 0) || (pa >= 0 && pb < 0)
}

/// Where a line through `(a, pa)` and `(b, pb)` crosses zero, to the nearest cent.
pub open spec fn zero_point(a: int, pa: int, b: int, pb: int) -> int {
    if pb > pa {
        round_away(a * (pb - pa) - pa * (b - a), (pb - pa) * CENT) * CENT
    } else {
        round_away(pa * (b - a) - a * (pb - pa), (pa - pb) * CENT) * CENT
    }
}

/// The zero crossings between the first `n` neighbouring pairs of prices.
pub open spec fn zero_points(legs: Seq<StructureLeg>, s: Seq<i64>, n: int) -> Seq<int>
    decreases n,
{
    if n <= 0 {
        Seq::empty()
    } else {
        let (a, b) = (s[n - 1] as int, s[n] as int);
        let (pa, pb) = (payoff(legs, a), payoff(legs, b));
        let rest = zero_points(legs, s, n - 1);
        if crosses(pa, pb) {
            rest.push(zero_point(a, pa, b, pb))
        } else {
            rest
        }
    }
}

/// The settle prices at which the structure neither earns nor loses: the zero
/// crossings between neighbouring candidate prices, each to the nearest cent.
pub open spec fn breakevens_of(legs: Seq<StructureLeg>) -> Seq<int> {
    zero_points(legs, spots_of(legs), spots_of(legs).len() - 1)
}

/// A list of prices as numbers.
pub open spec fn ints(s: Seq<i64>) -> Seq<int> {
    s.map_values(|x: i64| x as int)
}

proof fn lemma_round_between(num: int, den: int, lo: int, hi: int)
    requires
        den > 0,
        lo * den <= num <= hi * den,
    ensures
        lo - 1 <= round_away(num, den) <= hi + 1,
{
    let q = if num >= 0 {
        (2 * num + den) / (2 * den)
    } else {
        (2 * (-num) + den) / (2 * den)
    };
    if num >= 0 {
        assert(lo - 1 <= q <= hi + 1) by (nonlinear_arith)
            requires
                den > 0,
                num >= 0,
                q == (2 * num + den) / (2 * den),
                lo * den <= num <= hi * den,
        ;
    } else {
        assert(lo - 1 <= -q <= hi + 1) by (nonlinear_arith)
            requires
                den > 0,
                num < 0,
                q == (2 * (-num) + den) / (2 * den),
                lo * den <= num <= hi * den,
        ;
    }
}

fn round_ratio(num: i128, den: i128) -> (r: i128)
    requires
        den > 0,
        den <= 40_000_000_000_000_000_000_000_000_000_000_000_000,
        -40_000_000_000_000_000_000_000_000_000_000_000_000 <= num
            <= 40_000_000_000_000_000_000_000_000_000_000_000_000,
    ensures
        r == round_away(num as int, den as int),
{
    if num >= 0 {
        (2 * num + den) / (2 * den)
    } else {
        let q: i128 = (2 * (-num) + den) / (2 * den);
        proof {
            assert(0 <= q <= 2 * (-num) + den) by (nonlinear_arith)
                requires
                    q == (2 * (-num) + den) / (2 * den as int),
                    den > 0,
                    num < 0,
            ;
        }
        -q
    }
}

fn cross_at(a: i64, pa: i128, b: i64, pb: i128) -> (r: i64)
    requires
        -MAX_PRICE <= a < b <= 2 * MAX_PRICE,
        -6_000_000_000_000_000_000_000 <= pa <= 6_000_000_000_000_000_000_000,
        -6_000_000_000_000_000_000_000 <= pb <= 6_000_000_000_000_000_000_000,
        crosses(pa as int, pb as int),
    ensures
        r == zero_point(a as int, pa as int, b as int, pb as int),
        a - 3 * CENT <= r <= b + 3 * CENT,
{
    let (a1, b1): (i128, i128) = (a as i128, b as i128);
    let (num, den): (i128, i128) = {
        let rise: i128 = pb - pa;
        let run: i128 = b1 - a1;
        proof {
            assert(-24_000_000_000_000_000_000_000_000_000_000_000_000 <= a1 * rise
                <= 24_000_000_000_000_000_000_000_000_000_000_000_000) by (nonlinear_arith)
                requires
                    -2_000_000_000_000_000 <= a1 <= 2_000_000_000_000_000,
                    -12_000_000_000_000_000_000_000 <= rise <= 12_000_000_000_000_000_000_000,
            ;
            assert(-18_000_000_000_000_000_000_000_000_000_000_000_000 <= pa * run
                <= 18_000_000_000_000_000_000_000_000_000_000_000_000) by (nonlinear_arith)
                requires
                    0 <= run <= 3_000_000_000_000_000,
                    -6_000_000_000_000_000_000_000 <= pa <= 6_000_000_000_000_000_000_000,
            ;
            lemma_cross_between(a1 as int, pa as int, b1 as int, pb as int);
        }
        if pb > pa {
            (a1 * rise - pa * run, rise * 10_000)
        } else {
            (pa * run - a1 * rise, (pa - pb) * 10_000)
        }
    };
    proof {
        // The crossing lies between the two prices.
        let rise = pb - pa;
        let size = if pb > pa {
            rise as int
        } else {
            -rise as int
        };
        assert(a * size <= num <= b * size);
        let lo = a as int / CENT as int - 1;
        let hi = b as int / CENT as int + 1;
        assert(lo * (size * 10_000) <= num <= hi * (size * 10_000)) by (nonlinear_arith)
            requires
                a * size <= num <= b * size,
                size > 0,
                lo * 10_000 <= a,
                b <= hi * 10_000,
        ;
        assert(den == size * 10_000);
        lemma_round_between(num as int, den as int, lo, hi);
        assert(num <= 2_000_000_000_000_000 * size && num >= -2_000_000_000_000_000 * size)
            by (nonlinear_arith)
            requires
                a * size <= num <= b * size,
                size > 0,
                -1_000_000_000_000_000 <= a,
                b <= 2_000_000_000_000_000,
        ;
    }
    let q: i128 = round_ratio(num, den);
    (q * 10_000) as i64
}

proof fn lemma_cross_between(a: int, pa: int, b: int, pb: int)
    requires
        a < b,
        crosses(pa, pb),
    ensures
        pb > pa ==> a * (pb - pa) <= a * (pb - pa) - pa * (b - a) <= b * (pb - pa),
        pb < pa ==> a * (pa - pb) <= pa * (b - a) - a * (pb - pa) <= b * (pa - pb),
        pb != pa,
{
    if pb > pa {
        assert(a * (pb - pa) <= a * (pb - pa) - pa * (b - a) <= b * (pb - pa)) by (nonlinear_arith)
            requires
                a < b,
                pa <= 0,
                pb > 0,
        ;
    } else {
        assert(a * (pa - pb) <= pa * (b - a) - a * (pb - pa) <= b * (pa - pb)) by (nonlinear_arith)
            requires
                a < b,
                pa >= 0,
                pb < 0,
        ;
    }
}

/// Settle prices where the structure breaks even.
pub fn breakevens(legs: &[StructureLeg]) -> (r: Vec<i64>)
    requires
        legs_wf(legs@),
    ensures
        ints(r@) == breakevens_of(legs@),
        forall|i: int|
            0 <= i < r@.len() ==> -2 * MAX_PRICE <= #[trigger] r@[i] <= 3 * MAX_PRICE,
{
    let spots = candidate_spots(legs);
    let mut out: Vec<i64> = Vec::new();
    proof {
        assert(is_candidate(legs@, 0));
        assert(spots@.contains(0));
        assert(ints(out@) =~= Seq::empty());
    }
    let last: usize = spots.len() - 1;
    let mut i: usize = 0;
    while i < last
        invariant
            i <= last,
            last + 1 == spots@.len(),
            legs_wf(legs@),
            rising(spots@),
            forall|j: int| 0 <= j < spots@.len() ==> -MAX_PRICE <= #[trigger] spots@[j] <= 2
                * MAX_PRICE,
            ints(out@) == zero_points(legs@, spots@, i as int),
            forall|j: int|
                0 <= j < out@.len() ==> -2 * MAX_PRICE <= #[trigger] out@[j] <= 3 * MAX_PRICE,
        decreases last - i,
    {
        let (a, b): (i64, i64) = (spots[i], spots[i + 1]);
        let (pa, pb): (i128, i128) = (payoff_at(legs, a), payoff_at(legs, b));
        if (pa <= 0 && pb > 0) || (pa >= 0 && pb < 0) {
            let z: i64 = cross_at(a, pa, b, pb);
            let ghost before = out@;
            out.push(z);
            assert(ints(out@) =~= ints(before).push(z as int));
        }
        i = i + 1;
    }
    out
}

// --- probability of profit -------------------------------------------------

/// Whether the `i`-th leg is a short one and the first with its strike and right.
pub open spec fn first_short(legs: Seq<StructureLeg>, i: int) -> bool {
    &&& 0 <= i < legs.len()
    &&& legs[i].side == LegSide::Sell
    &&& forall|j: int|
        0 <= j < i && (#[trigger] legs[j]).side == LegSide::Sell ==> legs[j].strike
            != legs[i].strike || legs[j].right != legs[i].right
}

/// The sizes of the deltas of the distinct short legs among the first `n`, added
/// up.
pub open spec fn short_deltas(legs: Seq<StructureLeg>, n: int) -> int
    decreases n,
{
    if n <= 0 {
        0
    } else {
        short_deltas(legs, n - 1) + if first_short(legs, n - 1) && legs[n - 1].delta is Some {
            abs(legs[n - 1].delta->0 as int)
        } else {
            0
        }
    }
}

/// The rough probability of profit in millionths: one less the deltas of the
/// distinct short legs, or `None` where none of them has a delta.
pub open spec fn pop_of(legs: Seq<StructureLeg>) -> Option<int> {
    if exists|i: int| first_short(legs, i) && legs[i].delta is Some {
        Some(clamp(SCALE - short_deltas(legs, legs.len() as int), 0, SCALE as int))
    } else {
        None
    }
}

/// A rough probability of profit from the deltas of the short legs.
pub fn estimate_pop(legs: &[StructureLeg]) -> (r: Option<i64>)
    requires
        legs_wf(legs@),
    ensures
        r is Some <==> pop_of(legs@) is Some,
        r is Some ==> r->0 == pop_of(legs@)->0,
{
    let mut sum: i128 = 0;
    let mut any = false;
    let mut i: usize = 0;
    while i < legs.len()
        invariant
            i <= legs@.len() <= MAX_LEGS,
            sum == short_deltas(legs@, i as int),
            0 <= sum <= i * 0x8000_0000_0000_0000,
            any <==> exists|k: int|
                0 <= k < i && #[trigger] first_short(legs@, k) && legs@[k].delta is Some,
        decreases legs@.len() - i,
    {
        let fresh = is_first_short(legs, i);
        if fresh {
            if let Some(d) = legs[i].delta {
                let size: i128 = if d < 0 {
                    -(d as i128)
                } else {
                    d as i128
                };
                sum = sum + size;
                any = true;
                assert(first_short(legs@, i as int) && legs@[i as int].delta is Some);
            }
        }
        i = i + 1;
    }
    if any {
        let p: i128 = 1_000_000 - sum;
        if p < 0 {
            Some(0)
        } else {
            Some(p as i64)
        }
    } else {
        assert forall|k: int| !(first_short(legs@, k) && legs@[k].delta is Some) by {
            if first_short(legs@, k) && legs@[k].delta is Some {
                assert(0 <= k < i);
            }
        }
        None
    }
}

fn is_first_short(legs: &[StructureLeg], i: usize) -> (r: bool)
    requires
        i < legs@.len(),
    ensures
        r == first_short(legs@, i as int),
{
    if legs[i].side != LegSide::Sell {
        return false;
    }
    let mut j: usize = 0;
    while j < i
        invariant
            j <= i < legs@.len(),
            forall|k: int|
                0 <= k < j && (#[trigger] legs@[k]).side == LegSide::Sell ==> legs@[k].strike
                    != legs@[i as int].strike || legs@[k].right != legs@[i as int].right,
        decreases i - j,
    {
        if legs[j].side == LegSide::Sell && legs[j].strike == legs[i].strike && legs[j].right
            == legs[i].right {
            return false;
        }
        j = j + 1;
    }
    true
}

} // verus!

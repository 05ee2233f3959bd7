//! What a structure can lose, where it breaks even and what is drawn of it, in its
//! strikes and its profit at a price.

use vstd::prelude::*;
use crate::desktop::{
    curve_pad, curve_price, draws, high_strike, is_curve, low_strike, open_rows, SlotView,
};
use crate::config::ZeroDteConfig;
use crate::engine::laws::{is_nearest_cent, law_nearest_cent};
use crate::engine::math::short_put_pnl;
use crate::engine::structures::payoff::{
    breakevens_of, crosses, first_short, ints, is_candidate, is_max_loss, legs_wf,
    lemma_max_loss_exists, lemma_rising_unique, lists_candidates, max_loss, payoff, pop_of, rising,
    short_deltas, spots_of, top_strike, zero_point, zero_points,
};
use crate::engine::types::{LegSide, StructureLeg, SuggestionView};
use crate::fixed::{cents, int_text, max, round_away};
use crate::store::models::WheelPositionRow;
use crate::tui::ui::{fallen, moved};

verus! {

// --- the worst loss --------------------------------------------------------

/// Whether `top` is the highest strike, or 0 where none is above it.
pub open spec fn is_top(legs: Seq<StructureLeg>, top: int) -> bool {
    &&& top >= 0
    &&& forall|i: int| 0 <= i < legs.len() ==> (#[trigger] legs[i]).strike <= top
    &&& top > 0 ==> exists|i: int| 0 <= i < legs.len() && (#[trigger] legs[i]).strike == top
}

proof fn lemma_top(legs: Seq<StructureLeg>, top: int)
    requires
        is_top(legs, top),
    ensures
        top_strike(legs) == top,
    decreases legs.len(),
{
    lemma_is_top(legs);
    let t = top_strike(legs);
    if top > 0 {
        let i = choose|i: int| 0 <= i < legs.len() && (#[trigger] legs[i]).strike == top;
        assert(legs[i].strike <= t);
    }
    if t > 0 {
        let i = choose|i: int| 0 <= i < legs.len() && (#[trigger] legs[i]).strike == t;
        assert(legs[i].strike <= top);
    }
}

proof fn lemma_is_top(legs: Seq<StructureLeg>)
    ensures
        is_top(legs, top_strike(legs)),
    decreases legs.len(),
{
    if legs.len() > 0 {
        let rest = legs.drop_last();
        lemma_is_top(rest);
        let t = top_strike(legs);
        assert forall|i: int| 0 <= i < legs.len() implies (#[trigger] legs[i]).strike <= t by {
            if i < rest.len() {
                assert(rest[i].strike <= top_strike(rest));
            }
        }
        if t > 0 {
            if t == top_strike(rest) {
                let i = choose|i: int| 0 <= i < rest.len() && (#[trigger] rest[i]).strike == t;
                assert(legs[i].strike == t);
            } else {
                assert(legs[legs.len() - 1].strike == t);
            }
        }
    }
}

/// The worst loss is that at one of the prices that matter (zero, a strike, twice the
/// highest strike), and at none of them is more lost; it is 0 where none of them loses.
pub proof fn law_worst_loss(legs: Seq<StructureLeg>, top: int) -> (at: int)
    requires
        legs_wf(legs),
        is_top(legs, top),
    ensures
        max_loss(legs) >= 0,
        payoff(legs, 0) >= -max_loss(legs),
        payoff(legs, 2 * top) >= -max_loss(legs),
        forall|i: int|
            0 <= i < legs.len() ==> payoff(legs, (#[trigger] legs[i]).strike as int) >= -max_loss(
                legs,
            ),
        max_loss(legs) > 0 ==> payoff(legs, at) == -max_loss(legs) && (at == 0 || at == 2 * top
            || exists|i: int| 0 <= i < legs.len() && (#[trigger] legs[i]).strike == at),
{
    lemma_max_loss_exists(legs);
    lemma_top(legs, top);
    let m = max_loss(legs);
    assert(is_max_loss(legs, m));
    assert(is_candidate(legs, 0) && is_candidate(legs, 2 * top));
    assert forall|i: int| 0 <= i < legs.len() implies payoff(
        legs,
        (#[trigger] legs[i]).strike as int,
    ) >= -m by {
        assert(is_candidate(legs, legs[i].strike as int));
    }
    if m > 0 {
        choose|x: int| is_candidate(legs, x) && #[trigger] payoff(legs, x) == -m
    } else {
        0
    }
}

// --- breakevens ------------------------------------------------------------

/// Whether `spots` lists the prices that matter in rising order, each once.
pub open spec fn are_spots(legs: Seq<StructureLeg>, top: int, spots: Seq<i64>) -> bool {
    &&& forall|i: int, j: int| 0 <= i < j < spots.len() ==> spots[i] < spots[j]
    &&& forall|x: i64| #[trigger]
        spots.contains(x) <==> x == 0 || x == 2 * top || exists|i: int|
            0 <= i < legs.len() && (#[trigger] legs[i]).strike == x
}

/// Whether `z` is a price in whole cents, no more than half a cent from where the line
/// through `(a, pa)` and `(b, pb)` is zero.
pub open spec fn is_zero_of_line(a: int, pa: int, b: int, pb: int, z: int) -> bool {
    let rise = pb - pa;
    let off = z * rise - (a * rise - pa * (b - a));
    &&& z % 10_000 == 0
    &&& rise > 0 ==> -(rise * 10_000) <= 2 * off <= rise * 10_000
    &&& rise < 0 ==> rise * 10_000 <= 2 * off <= -(rise * 10_000)
}

/// Whether the profit changes its sign from the `i`-th price to the next one.
pub open spec fn turns_at(legs: Seq<StructureLeg>, spots: Seq<i64>, i: int) -> bool {
    let (pa, pb) = (payoff(legs, spots[i] as int), payoff(legs, spots[i + 1] as int));
    &&& 0 <= i < spots.len() - 1
    &&& (pa <= 0 && pb > 0) || (pa >= 0 && pb < 0)
}

/// Whether `z` is where the profit is zero between the `i`-th price and the next one.
pub open spec fn is_zero_at(legs: Seq<StructureLeg>, spots: Seq<i64>, i: int, z: int) -> bool {
    is_zero_of_line(
        spots[i] as int,
        payoff(legs, spots[i] as int),
        spots[i + 1] as int,
        payoff(legs, spots[i + 1] as int),
        z,
    )
}

/// A quotient to the nearest whole number is no more than half a divisor away.
pub proof fn law_round_away(a: int, b: int)
    requires
        b > 0,
    ensures
        -b <= 2 * (round_away(a, b) * b - a) <= b,
        a >= 0 ==> round_away(a, b) >= 0,
        round_away(-a, b) == -round_away(a, b),
{
    let n = if a >= 0 {
        a
    } else {
        -a
    };
    let q = (2 * n + b) / (2 * b);
    assert(2 * (q * b) <= 2 * n + b < 2 * (q * b) + 2 * b && q >= 0) by (nonlinear_arith)
        requires
            q == (2 * n + b) / (2 * b),
            b > 0,
            n >= 0,
    ;
    assert((-q) * b == -(q * b)) by (nonlinear_arith);
    assert(b / (2 * b) == 0) by (nonlinear_arith)
        requires
            b > 0,
    ;
}

proof fn lemma_zero_point(a: int, pa: int, b: int, pb: int)
    requires
        pa != pb,
    ensures
        is_zero_of_line(a, pa, b, pb, zero_point(a, pa, b, pb)),
{
    let rise = pb - pa;
    let n = a * rise - pa * (b - a);
    if rise > 0 {
        let q = round_away(n, rise * 10_000);
        law_round_away(n, rise * 10_000);
        assert(q * (rise * 10_000) == (q * 10_000) * rise) by (nonlinear_arith);
    } else {
        let m = pa * (b - a) - a * rise;
        let q = round_away(m, (pa - pb) * 10_000);
        law_round_away(m, (pa - pb) * 10_000);
        assert(q * ((pa - pb) * 10_000) == -((q * 10_000) * rise)) by (nonlinear_arith)
            requires
                rise == pb - pa,
        ;
    }
}

/// Whether `z` is where the profit changes its sign between two neighbours among the
/// first prices, up to the `n`-th.
pub open spec fn is_turn(legs: Seq<StructureLeg>, spots: Seq<i64>, n: int, z: int) -> bool {
    exists|i: int|
        0 <= i < n && #[trigger] turns_at(legs, spots, i) && is_zero_at(legs, spots, i, z)
}

/// Whether one of the numbers is where the profit is zero between the `i`-th price and
/// the next one.
pub open spec fn has_zero_at(
    legs: Seq<StructureLeg>,
    spots: Seq<i64>,
    i: int,
    zeros: Seq<int>,
) -> bool {
    exists|k: int| 0 <= k < zeros.len() && is_zero_at(legs, spots, i, #[trigger] zeros[k])
}

proof fn lemma_zero_points(legs: Seq<StructureLeg>, spots: Seq<i64>, n: int)
    requires
        n < spots.len(),
    ensures
        forall|i: int|
            0 <= i < n && #[trigger] turns_at(legs, spots, i) ==> has_zero_at(
                legs,
                spots,
                i,
                zero_points(legs, spots, n),
            ),
        forall|k: int|
            0 <= k < zero_points(legs, spots, n).len() ==> is_turn(
                legs,
                spots,
                n,
                #[trigger] zero_points(legs, spots, n)[k],
            ),
    decreases n,
{
    if n > 0 {
        lemma_zero_points(legs, spots, n - 1);
        let rest = zero_points(legs, spots, n - 1);
        let all = zero_points(legs, spots, n);
        let (a, b) = (spots[n - 1] as int, spots[n] as int);
        let (pa, pb) = (payoff(legs, a), payoff(legs, b));
        assert(crosses(pa, pb) == turns_at(legs, spots, n - 1));
        if crosses(pa, pb) {
            lemma_zero_point(a, pa, b, pb);
            assert(all[rest.len() as int] == zero_point(a, pa, b, pb));
            assert(is_zero_at(legs, spots, n - 1, all[rest.len() as int]));
        }
        assert forall|i: int| 0 <= i < n && #[trigger] turns_at(legs, spots, i) implies has_zero_at(
            legs,
            spots,
            i,
            all,
        ) by {
            if i < n - 1 {
                assert(has_zero_at(legs, spots, i, rest));
                let k = choose|k: int|
                    0 <= k < rest.len() && is_zero_at(legs, spots, i, #[trigger] rest[k]);
                assert(all[k] == rest[k]);
            }
        }
        assert forall|k: int| 0 <= k < all.len() implies is_turn(
            legs,
            spots,
            n,
            #[trigger] all[k],
        ) by {
            if k < rest.len() {
                assert(all[k] == rest[k]);
                assert(is_turn(legs, spots, n - 1, rest[k]));
            } else {
                assert(turns_at(legs, spots, n - 1));
            }
        }
    }
}

proof fn lemma_spots(legs: Seq<StructureLeg>, top: int, spots: Seq<i64>)
    requires
        is_top(legs, top),
        are_spots(legs, top, spots),
    ensures
        spots_of(legs) == spots,
{
    lemma_top(legs, top);
    assert(rising(spots));
    assert forall|x: i64| spots.contains(x) <==> is_candidate(legs, x as int) by {}
    assert(lists_candidates(legs, spots));
    let s = spots_of(legs);
    assert(lists_candidates(legs, s));
    assert forall|x: i64| s.contains(x) <==> spots.contains(x) by {}
    lemma_rising_unique(s, spots);
}

/// The breakevens are the prices, to the cent, at which the profit changes its sign
/// between two neighbours among the prices that matter: each of these and no other.
pub proof fn law_breakevens(legs: Seq<StructureLeg>, top: int, spots: Seq<i64>)
    requires
        is_top(legs, top),
        are_spots(legs, top, spots),
    ensures
        forall|i: int| #[trigger]
            turns_at(legs, spots, i) ==> has_zero_at(legs, spots, i, breakevens_of(legs)),
        forall|k: int|
            0 <= k < breakevens_of(legs).len() ==> is_turn(
                legs,
                spots,
                spots.len() - 1,
                #[trigger] breakevens_of(legs)[k],
            ),
{
    lemma_spots(legs, top, spots);
    lemma_zero_points(legs, spots, spots.len() - 1);
}

// --- probability of profit -------------------------------------------------

/// Whether the contract of a leg is sold among the legs already.
pub open spec fn is_sold_already(legs: Seq<StructureLeg>, l: StructureLeg) -> bool {
    exists|j: int|
        0 <= j < legs.len() && (#[trigger] legs[j]).side == LegSide::Sell && legs[j].strike
            == l.strike && legs[j].right == l.right
}

proof fn lemma_short_prefix(legs: Seq<StructureLeg>, l: StructureLeg, n: int)
    requires
        0 <= n <= legs.len(),
    ensures
        short_deltas(legs.push(l), n) == short_deltas(legs, n),
    decreases n,
{
    if n > 0 {
        lemma_short_prefix(legs, l, n - 1);
        let more = legs.push(l);
        assert(more[n - 1] == legs[n - 1]);
        assert(first_short(more, n - 1) == first_short(legs, n - 1)) by {
            assert forall|j: int| 0 <= j < n - 1 implies #[trigger] more[j] == legs[j] by {}
            if first_short(more, n - 1) {
                assert forall|j: int|
                    0 <= j < n - 1 && (#[trigger] legs[j]).side == LegSide::Sell implies
                    legs[j].strike != legs[n - 1].strike || legs[j].right
                    != legs[n - 1].right by {
                    assert(more[j] == legs[j]);
                }
            }
        }
    }
}

/// What a further leg adds to the chance to lose: the size of its delta where it sells a
/// contract that is not sold yet and its delta is known, nothing otherwise.
pub proof fn law_risk_adds_up(legs: Seq<StructureLeg>, l: StructureLeg)
    ensures
        ({
            let n = legs.len() as int;
            let more = short_deltas(legs.push(l), n + 1) - short_deltas(legs, n);
            let counts = l.side == LegSide::Sell && !is_sold_already(legs, l) && l.delta is Some;
            &&& short_deltas(legs, 0) == 0
            &&& counts && l.delta->0 >= 0 ==> more == l.delta->0
            &&& counts && l.delta->0 < 0 ==> more == -(l.delta->0)
            &&& !counts ==> more == 0
        }),
{
    let n = legs.len() as int;
    let all = legs.push(l);
    lemma_short_prefix(legs, l, n);
    assert(all[n] == l);
    assert(first_short(all, n) <==> l.side == LegSide::Sell && !is_sold_already(legs, l)) by {
        assert forall|j: int| 0 <= j < n implies #[trigger] all[j] == legs[j] by {}
        if is_sold_already(legs, l) {
            let j = choose|j: int|
                0 <= j < legs.len() && (#[trigger] legs[j]).side == LegSide::Sell && legs[j].strike
                    == l.strike && legs[j].right == l.right;
            assert(all[j] == legs[j]);
        }
    }
}

/// The chance to win and the chance to lose make up the whole, as long as the latter is
/// not above it; and there is no estimate exactly where no sold contract has a delta.
pub proof fn law_pop(legs: Seq<StructureLeg>)
    ensures
        ({
            let risk = short_deltas(legs, legs.len() as int);
            &&& pop_of(legs) is Some && risk <= 1_000_000 ==> pop_of(legs)->0 + risk == 1_000_000
            &&& pop_of(legs) is Some && risk > 1_000_000 ==> pop_of(legs)->0 == 0
            &&& pop_of(legs) is Some <==> exists|i: int|
                0 <= i < legs.len() && (#[trigger] legs[i]).side == LegSide::Sell
                    && legs[i].delta is Some && !is_sold_already(legs.take(i), legs[i])
        }),
{
    lemma_risk_sign(legs, legs.len() as int);
    assert forall|i: int| 0 <= i < legs.len() implies #[trigger] first_short(legs, i) == (
    legs[i].side == LegSide::Sell && !is_sold_already(legs.take(i), legs[i])) by {
        let before = legs.take(i);
        assert forall|j: int| 0 <= j < i implies #[trigger] before[j] == legs[j] by {}
        if is_sold_already(before, legs[i]) {
            let j = choose|j: int|
                0 <= j < before.len() && (#[trigger] before[j]).side == LegSide::Sell
                    && before[j].strike == legs[i].strike && before[j].right == legs[i].right;
            assert(legs[j] == before[j]);
        } else if legs[i].side == LegSide::Sell {
            assert forall|j: int|
                0 <= j < i && (#[trigger] legs[j]).side == LegSide::Sell implies legs[j].strike
                != legs[i].strike || legs[j].right != legs[i].right by {
                assert(before[j] == legs[j]);
            }
        }
    }
    if pop_of(legs) is Some {
        let i = choose|i: int| first_short(legs, i) && legs[i].delta is Some;
        assert(legs[i].side == LegSide::Sell);
    }
    if exists|i: int|
        0 <= i < legs.len() && (#[trigger] legs[i]).side == LegSide::Sell && legs[i].delta is Some
            && !is_sold_already(legs.take(i), legs[i]) {
        let i = choose|i: int|
            0 <= i < legs.len() && (#[trigger] legs[i]).side == LegSide::Sell
                && legs[i].delta is Some && !is_sold_already(legs.take(i), legs[i]);
        assert(first_short(legs, i));
    }
}

proof fn lemma_risk_sign(legs: Seq<StructureLeg>, n: int)
    ensures
        short_deltas(legs, n) >= 0,
    decreases n,
{
    if n > 0 {
        lemma_risk_sign(legs, n - 1);
    }
}

// --- the curve -------------------------------------------------------------

/// Whether the strikes reach from `lo` to `hi`.
pub open spec fn spans(legs: Seq<StructureLeg>, lo: int, hi: int) -> bool {
    &&& forall|i: int| 0 <= i < legs.len() ==> lo <= (#[trigger] legs[i]).strike <= hi
    &&& exists|i: int| 0 <= i < legs.len() && (#[trigger] legs[i]).strike == lo
    &&& exists|i: int| 0 <= i < legs.len() && (#[trigger] legs[i]).strike == hi
}

/// Whether a curve reaches so far beyond the strikes: half their range or a fiftieth of
/// the highest, whichever is more, in whole millionths.
pub open spec fn is_margin(lo: int, hi: int, pad: int) -> bool {
    &&& 2 * pad >= hi - lo - 1
    &&& 50 * pad > hi - 50
    &&& 2 * pad <= hi - lo || 50 * pad <= hi
}

proof fn lemma_low_high(legs: Seq<StructureLeg>, n: int)
    requires
        1 <= n <= legs.len(),
    ensures
        forall|i: int|
            0 <= i < n ==> low_strike(legs, n) <= (#[trigger] legs[i]).strike <= high_strike(
                legs,
                n,
            ),
        exists|i: int| 0 <= i < n && (#[trigger] legs[i]).strike == low_strike(legs, n),
        exists|i: int| 0 <= i < n && (#[trigger] legs[i]).strike == high_strike(legs, n),
    decreases n,
{
    if n > 1 {
        lemma_low_high(legs, n - 1);
        let i = choose|i: int|
            0 <= i < n - 1 && (#[trigger] legs[i]).strike == low_strike(legs, n - 1);
        let j = choose|j: int|
            0 <= j < n - 1 && (#[trigger] legs[j]).strike == high_strike(legs, n - 1);
        assert(legs[i].strike == low_strike(legs, n) || legs[n - 1].strike == low_strike(legs, n));
        assert(legs[j].strike == high_strike(legs, n) || legs[n - 1].strike == high_strike(
            legs,
            n,
        ));
    } else {
        assert(legs[0].strike == low_strike(legs, n));
        assert(legs[0].strike == high_strike(legs, n));
    }
}

/// A curve has 81 points. Its prices are spread evenly from `pad` below the lowest strike
/// (not below zero) to `pad` above the highest; at each stands, to the cent, what all
/// contracts earn there. `p` is the `i`-th price to the millionth.
pub proof fn law_curve(
    legs: Seq<StructureLeg>,
    qty: int,
    xs: Seq<i64>,
    ys: Seq<i128>,
    lo: int,
    hi: int,
    pad: int,
    i: int,
    p: int,
)
    requires
        legs.len() > 0,
        is_curve(legs, qty, xs, ys),
        spans(legs, lo, hi),
        is_margin(lo, hi, pad),
        0 <= i <= 80,
        ({
            let start = max(lo - pad, 0);
            80 * p <= 80 * start + (hi + pad - start) * i < 80 * (p + 1)
        }),
    ensures
        xs.len() == 81,
        ys.len() == 81,
        is_nearest_cent(p, xs[i] as int),
        is_nearest_cent(payoff(legs, p) * 100 * qty, ys[i] as int),
{
    let n = legs.len() as int;
    lemma_low_high(legs, n);
    let a = choose|a: int| 0 <= a < n && (#[trigger] legs[a]).strike == low_strike(legs, n);
    let b = choose|b: int| 0 <= b < n && (#[trigger] legs[b]).strike == high_strike(legs, n);
    let c = choose|c: int| 0 <= c < n && (#[trigger] legs[c]).strike == lo;
    let d = choose|d: int| 0 <= d < n && (#[trigger] legs[d]).strike == hi;
    assert(legs[a].strike == legs[c].strike);
    assert(legs[b].strike == legs[d].strike);
    assert(low_strike(legs, n) == lo && high_strike(legs, n) == hi);
    assert(curve_pad(lo, hi) == pad);
    let start = max(lo - pad, 0);
    let w = (hi + pad - start) * i;
    assert(p - start == w / 80) by (nonlinear_arith)
        requires
            80 * p <= 80 * start + w < 80 * (p + 1),
    ;
    assert(curve_price(lo, hi, i) == p);
    law_nearest_cent(p, cents(p));
    law_nearest_cent(payoff(legs, p) * 100 * qty, cents(payoff(legs, p) * 100 * qty));
}

/// What is drawn of a slot: the name of its strategy, the breakevens and the curve of its
/// structure, its chance to win for every structure but a broken-wing or an iron fly, and
/// nothing where the slot has no structure.
pub proof fn law_slot_drawn(v: SlotView, zerodte: ZeroDteConfig, s: Option<SuggestionView>, i: int)
    requires
        draws(v, zerodte, s, i),
    ensures
        s is Some && s->0.kind is OpenStructure ==> {
            let (legs, kind) = (s->0.kind->OpenStructure_legs, s->0.kind->OpenStructure_kind);
            &&& ints(v.breakevens@) == breakevens_of(legs)
            &&& is_curve(legs, s->0.quantity, v.payoff_xs@, v.payoff_ys@)
            &&& kind is BrokenWingButterfly || kind is IronFly ==> v.pop is None
            &&& !(kind is BrokenWingButterfly || kind is IronFly) ==> (v.pop is Some <==> pop_of(
                legs,
            ) is Some) && (v.pop is Some ==> v.pop->0 == pop_of(legs)->0)
        },
        ({
            let at = zerodte.slots@[i] as int;
            &&& 0 <= i < zerodte.slots@.len() && at < zerodte.strategies@.len() ==> v.name@
                == zerodte.strategies@[at].name@
            &&& i >= zerodte.slots@.len() ==> v.name@ == "Slot "@ + int_text(i)
        }),
        s is None ==> v.breakevens@.len() == 0 && v.payoff_xs@.len() == 0 && v.payoff_ys@.len() == 0
            && v.pop is None,
{
}

/// The rows that are shown as open are exactly those that are not idle, in their order.
pub proof fn law_open_rows(positions: Seq<WheelPositionRow>, n: int, i: int)
    requires
        0 <= n <= positions.len(),
    ensures
        open_rows(positions, n).contains(i) <==> 0 <= i < n && positions[i].state@ != "Idle"@,
        forall|a: int, b: int|
            0 <= a < b < open_rows(positions, n).len() ==> open_rows(positions, n)[a] < open_rows(
                positions,
                n,
            )[b],
        forall|a: int|
            0 <= a < open_rows(positions, n).len() ==> #[trigger] open_rows(positions, n)[a] < n,
    decreases n,
{
    if n > 0 {
        law_open_rows(positions, n - 1, i);
        let rest = open_rows(positions, n - 1);
        let all = open_rows(positions, n);
        if rest.contains(i) {
            let k = choose|k: int| 0 <= k < rest.len() && rest[k] == i;
            assert(all[k] == i);
        }
        if all.contains(i) && i != n - 1 {
            let k = choose|k: int| 0 <= k < all.len() && all[k] == i;
            assert(rest[k] == i);
        }
        if i == n - 1 && positions[i].state@ != "Idle"@ {
            assert(all[rest.len() as int] == i);
        }
    }
}

// --- scenarios -------------------------------------------------------------

/// What a short put earns at expiry: its credit at or above its strike, and below it the
/// credit less the fall; a long put below gives back its own fall.
pub proof fn law_put_outcome(at: int, short: int, credit: int, long: int, shares: int)
    requires
        long <= short,
    ensures
        at >= short ==> short_put_pnl(at, short, credit, None, shares) == credit * shares,
        at < short ==> short_put_pnl(at, short, credit, None, shares) == (credit - (short - at))
            * shares,
        at >= short ==> short_put_pnl(at, short, credit, Some(long), shares) == credit * shares,
        long <= at < short ==> short_put_pnl(at, short, credit, Some(long), shares) == (credit - (
        short - at)) * shares,
        at < long ==> short_put_pnl(at, short, credit, Some(long), shares) == (credit - (short
            - long)) * shares,
{
}

/// A price after a fall in percent, and after a move in thousandths, to the millionth
/// below.
pub proof fn law_moves(spot: int, pct: int, permille: int)
    ensures
        100 * fallen(spot, pct) <= spot * (100 - pct) < 100 * (fallen(spot, pct) + 1),
        1000 * moved(spot, permille) <= spot * (1000 + permille) < 1000 * (moved(spot, permille)
            + 1),
{
}

} // verus!

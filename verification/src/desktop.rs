//! What the desktop window draws of the structures: their breakevens, odds and
//! payoff curves.

use vstd::prelude::*;
use vstd::string::*;
use crate::config::ZeroDteConfig;
use crate::engine::structures::payoff::{
    breakevens, breakevens_of, estimate_pop, ints, legs_wf, payoff, payoff_at, pop_of,
};
use crate::engine::types::{
    opt_int, opt_view, ActionKind, KindView, StructureLeg, Suggestion, SuggestionView,
};
use crate::fixed::{
    cents, floor_of, int_text, is_price, max, min, push_int, round_cents, round_cents_wide,
    MAX_PRICE,
};
use crate::store::models::WheelPositionRow;
use crate::text::{own, same_text};
use crate::tui::app::slots_wf;

verus! {

/// How many parts a payoff curve has.
pub const CURVE_PARTS: usize = 80;

/// The lowest strike of the first `n` legs.
pub open spec fn low_strike(legs: Seq<StructureLeg>, n: int) -> int
    decreases n,
{
    if n <= 1 {
        legs[0].strike as int
    } else {
        min(low_strike(legs, n - 1), legs[n - 1].strike as int)
    }
}

/// The highest strike of the first `n` legs.
pub open spec fn high_strike(legs: Seq<StructureLeg>, n: int) -> int
    decreases n,
{
    if n <= 1 {
        legs[0].strike as int
    } else {
        max(high_strike(legs, n - 1), legs[n - 1].strike as int)
    }
}

/// How far a curve reaches beyond the strikes: half their range, at least a
/// fiftieth of the highest.
pub open spec fn curve_pad(lo: int, hi: int) -> int {
    max((hi - lo) / 2, hi / 50)
}

/// The price at point `i` of a curve over the strikes from `lo` to `hi`, rounded
/// down to a millionth.
pub open spec fn curve_price(lo: int, hi: int, i: int) -> int {
    let start = max(lo - curve_pad(lo, hi), 0);
    let end = hi + curve_pad(lo, hi);
    start + (end - start) * i / CURVE_PARTS as int
}

/// Whether `xs` and `ys` are the payoff curve: evenly spread prices to the cent,
/// and what `qty` contracts earn there.
pub open spec fn is_curve(legs: Seq<StructureLeg>, qty: int, xs: Seq<i64>, ys: Seq<i128>) -> bool {
    if legs.len() == 0 {
        xs.len() == 0 && ys.len() == 0
    } else {
        let lo = low_strike(legs, legs.len() as int);
        let hi = high_strike(legs, legs.len() as int);
        &&& xs.len() == CURVE_PARTS + 1
        &&& ys.len() == CURVE_PARTS + 1
        &&& forall|i: int|
            0 <= i <= CURVE_PARTS ==> (#[trigger] xs[i]) == cents(curve_price(lo, hi, i))
        &&& forall|i: int|
            0 <= i <= CURVE_PARTS ==> (#[trigger] ys[i]) == cents(
                payoff(legs, curve_price(lo, hi, i)) * 100 * qty,
            )
    }
}

fn strike_range(legs: &Vec<StructureLeg>) -> (r: (i64, i64))
    requires
        legs@.len() > 0,
        legs_wf(legs@),
    ensures
        r.0 == low_strike(legs@, legs@.len() as int),
        r.1 == high_strike(legs@, legs@.len() as int),
        is_price(r.0 as int) && is_price(r.1 as int) && r.0 <= r.1,
{
    assert(legs@[0].wf());
    let mut lo: i64 = legs[0].strike;
    let mut hi: i64 = legs[0].strike;
    let mut i: usize = 1;
    while i < legs.len()
        invariant
            legs_wf(legs@),
            1 <= i <= legs@.len(),
            lo == low_strike(legs@, i as int),
            hi == high_strike(legs@, i as int),
            is_price(lo as int) && is_price(hi as int) && lo <= hi,
        decreases legs@.len() - i,
    {
        let k: i64 = legs[i].strike;
        assert(legs@[i as int].wf());
        if k < lo {
            lo = k;
        }
        if k > hi {
            hi = k;
        }
        i = i + 1;
    }
    (lo, hi)
}

/// Samples what a structure earns at expiry over a range of prices around its
/// strikes: the prices, and the profit or loss of `qty` contracts at each.
pub fn payoff_curve(legs: &Vec<StructureLeg>, qty: i32) -> (r: (Vec<i64>, Vec<i128>))
    requires
        legs_wf(legs@),
    ensures
        is_curve(legs@, qty as int, r.0@, r.1@),
{
    let mut xs: Vec<i64> = Vec::new();
    let mut ys: Vec<i128> = Vec::new();
    if legs.len() == 0 {
        return (xs, ys);
    }
    let (lo, hi) = strike_range(legs);
    let half: i64 = (hi - lo) / 2;
    let pad: i64 = if hi >= 0 && hi / 50 > half {
        hi / 50
    } else {
        half
    };
    let start: i64 = if lo - pad >= 0 {
        lo - pad
    } else {
        0
    };
    let end: i64 = hi + pad;
    let mut i: usize = 0;
    while i <= CURVE_PARTS
        invariant
            legs_wf(legs@),
            legs@.len() > 0,
            i <= CURVE_PARTS + 1,
            0 <= start <= MAX_PRICE,
            -2 * MAX_PRICE <= end <= 2 * MAX_PRICE,
            start == max(lo - curve_pad(lo as int, hi as int), 0),
            end == hi + curve_pad(lo as int, hi as int),
            lo == low_strike(legs@, legs@.len() as int),
            hi == high_strike(legs@, legs@.len() as int),
            xs@.len() == i,
            ys@.len() == i,
            forall|k: int|
                0 <= k < i ==> (#[trigger] xs@[k]) == cents(curve_price(lo as int, hi as int, k)),
            forall|k: int|
                0 <= k < i ==> (#[trigger] ys@[k]) == cents(
                    payoff(legs@, curve_price(lo as int, hi as int, k)) * 100 * qty,
                ),
        decreases CURVE_PARTS + 1 - i,
    {
        let span: i128 = end as i128 - start as i128;
        assert(-240_000_000_000_000_000 <= span * i <= 240_000_000_000_000_000) by (nonlinear_arith)
            requires
                -3_000_000_000_000_000 <= span <= 3_000_000_000_000_000,
                0 <= i <= 80,
        ;
        let wide: i128 = span * (i as i128);
        let x: i64 = (start as i128 + floor_of(wide, 80)) as i64;
        let each: i128 = payoff_at(legs.as_slice(), x);
        proof {
            let wide = each as int * 100;
            assert(-100_000_000_000_000_000_000_000_000_000_000_000 <= wide * qty
                <= 100_000_000_000_000_000_000_000_000_000_000_000) by (nonlinear_arith)
                requires
                    -600_000_000_000_000_000_000_000 <= wide <= 600_000_000_000_000_000_000_000,
                    -2_147_483_648 <= qty <= 2_147_483_647,
            ;
        }
        xs.push(round_cents(x));
        ys.push(round_cents_wide(each * 100 * qty as i128));
        i = i + 1;
    }
    (xs, ys)
}

/// The first price of a curve is not above the lowest strike, the last not below
/// the highest, and the prices between rise: the curve covers every kink.
pub proof fn law_curve_covers_strikes(lo: int, hi: int, i: int)
    requires
        0 <= lo <= hi,
        0 <= i < CURVE_PARTS,
    ensures
        curve_price(lo, hi, 0) <= lo,
        curve_price(lo, hi, CURVE_PARTS as int) >= hi,
        curve_price(lo, hi, i) <= curve_price(lo, hi, i + 1),
{
    let start = max(lo - curve_pad(lo, hi), 0);
    let end = hi + curve_pad(lo, hi);
    assert((end - start) * 0 / 80 == 0) by (nonlinear_arith);
    assert((end - start) * 80 / 80 == end - start) by (nonlinear_arith);
    assert((end - start) * i / 80 <= (end - start) * (i + 1) / 80) by (nonlinear_arith)
        requires
            end >= start,
            i >= 0,
    ;
}

/// A slot of the window: its name and what is drawn of its structure.
#[derive(Debug)]
pub struct SlotView {
    pub name: String,
    pub breakevens: Vec<i64>,
    /// Estimated chance to win, in millionths.
    pub pop: Option<i64>,
    pub payoff_xs: Vec<i64>,
    pub payoff_ys: Vec<i128>,
}

/// The name of slot `i`.
pub open spec fn slot_name(zerodte: ZeroDteConfig, i: int) -> Seq<char> {
    match zerodte.slot_index(i) {
        Some(k) => zerodte.strategies@[k].name@,
        None => "Slot "@ + int_text(i),
    }
}

/// The structure among the suggestions at slot `i`, where there is one.
pub open spec fn slot_suggestion(found: Seq<Option<Suggestion>>, i: int) -> Option<SuggestionView> {
    if 0 <= i < found.len() {
        opt_view(found[i])
    } else {
        None
    }
}

/// Whether `v` is what is drawn of slot `i`.
pub open spec fn draws(
    v: SlotView,
    zerodte: ZeroDteConfig,
    s: Option<SuggestionView>,
    i: int,
) -> bool {
    &&& v.name@ == slot_name(zerodte, i)
    &&& match s {
        Some(SuggestionView { kind: KindView::OpenStructure { kind, legs }, quantity, .. }) => {
            &&& ints(v.breakevens@) == breakevens_of(legs)
            &&& opt_int(v.pop) == (if kind.has_pop() {
                pop_of(legs)
            } else {
                None
            })
            &&& is_curve(legs, quantity, v.payoff_xs@, v.payoff_ys@)
        },
        _ => {
            &&& v.breakevens@.len() == 0
            &&& v.pop is None
            &&& v.payoff_xs@.len() == 0
            &&& v.payoff_ys@.len() == 0
        },
    }
}

/// What is drawn of each slot.
pub fn slot_views(zerodte: &ZeroDteConfig, found: &Vec<Option<Suggestion>>) -> (r: Vec<SlotView>)
    requires
        slots_wf(found@),
    ensures
        r@.len() == zerodte.shown(),
        forall|i: int|
            0 <= i < r@.len() ==> draws(#[trigger] r@[i], *zerodte, slot_suggestion(found@, i), i),
{
    let mut out: Vec<SlotView> = Vec::new();
    let n: usize = zerodte.slot_count();
    let mut i: usize = 0;
    while i < n
        invariant
            i <= n,
            n == zerodte.shown(),
            slots_wf(found@),
                out@.len() == i,
            forall|k: int|
                0 <= k < i ==> draws(
                    #[trigger] out@[k],
                    *zerodte,
                    slot_suggestion(found@, k),
                    k,
                ),
        decreases n - i,
    {
        let name = match zerodte.slot(i) {
            Some(p) => own(p.name.as_str()),
            None => {
                let mut t = String::from_str("Slot ");
                push_int(&mut t, i as i128);
                t
            },
        };
        let mut v = SlotView {
            name,
            breakevens: Vec::new(),
            pop: None,
            payoff_xs: Vec::new(),
            payoff_ys: Vec::new(),
        };
        if i < found.len() {
            if let Some(s) = &found[i] {
                if let ActionKind::OpenStructure { kind, legs } = &s.kind {
                    v.breakevens = breakevens(legs.as_slice());
                    if kind.pop_is_meaningful() {
                        v.pop = estimate_pop(legs.as_slice());
                    }
                    let (xs, ys) = payoff_curve(legs, s.quantity);
                    v.payoff_xs = xs;
                    v.payoff_ys = ys;
                }
            }
        }
        out.push(v);
        i = i + 1;
    }
    out
}

/// Where the stored positions stand that are not idle.
pub open spec fn open_rows(positions: Seq<WheelPositionRow>, n: int) -> Seq<int>
    decreases n,
{
    if n <= 0 {
        Seq::empty()
    } else if positions[n - 1].state@ != "Idle"@ {
        open_rows(positions, n - 1).push(n - 1)
    } else {
        open_rows(positions, n - 1)
    }
}

/// Where the positions stand that the window lists.
pub fn listed_positions(positions: &Vec<WheelPositionRow>) -> (r: Vec<usize>)
    ensures
        r@.map_values(|i: usize| i as int) == open_rows(positions@, positions@.len() as int),
{
    let mut out: Vec<usize> = Vec::new();
    let mut i: usize = 0;
    assert(out@.map_values(|i: usize| i as int) =~= open_rows(positions@, 0));
    while i < positions.len()
        invariant
            i <= positions@.len(),
            out@.map_values(|i: usize| i as int) == open_rows(positions@, i as int),
        decreases positions@.len() - i,
    {
        let ghost before = out@;
        if !same_text(positions[i].state.as_str(), "Idle") {
            out.push(i);
            assert(out@.map_values(|i: usize| i as int) =~= before.map_values(
                |i: usize| i as int,
            ).push(i as int));
        }
        i = i + 1;
    }
    out
}

/// The note under the window: why suggestions are hidden, or that they are made
/// up.
pub fn snapshot_note(connected: bool, positions_ok: bool) -> (r: &'static str)
    ensures
        connected && positions_ok ==> r@ == ""@,
        connected && !positions_ok ==> r@
            == "broker positions unavailable — suggestions hidden until the next refresh"@,
        !connected ==> r@ == "offline — showing demo data (start IB Gateway to go live)"@,
{
    if !connected {
        "offline — showing demo data (start IB Gateway to go live)"
    } else if positions_ok {
        ""
    } else {
        "broker positions unavailable — suggestions hidden until the next refresh"
    }
}

} // verus!

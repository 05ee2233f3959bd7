//! Choices of the connectivity probe: a stand-in for the spot, the puts to
//! quote, and the month to ask for.

use vstd::prelude::*;
use crate::dates::{is_day, month_code, month_text};
use crate::fixed::min;
use crate::lists::{sort, sorted};

verus! {

/// The middle strike, in order of size: 0 of none, the upper one of two.
pub open spec fn middle(xs: Seq<i64>) -> i64 {
    if xs.len() == 0 {
        0
    } else {
        sorted(xs)[xs.len() as int / 2]
    }
}

/// The middle of the strikes, which stands for a spot that is not quoted.
pub fn median(xs: &Vec<i64>) -> (r: i64)
    ensures
        r == middle(xs@),
{
    if xs.len() == 0 {
        return 0;
    }
    let v = sort(xs);
    v[v.len() / 2]
}

/// The strikes below `spot`, in order.
pub open spec fn below(strikes: Seq<i64>, spot: int) -> Seq<i64>
    decreases strikes.len(),
{
    if strikes.len() == 0 {
        strikes
    } else if strikes.last() < spot {
        below(strikes.drop_last(), spot).push(strikes.last())
    } else {
        below(strikes.drop_last(), spot)
    }
}

/// The `n` highest strikes below `spot`, rising.
pub open spec fn nearest_below(strikes: Seq<i64>, spot: int, n: int) -> Seq<i64> {
    let all = sorted(below(strikes, spot));
    all.skip(all.len() - min(n, all.len() as int))
}

/// Up to `n` strikes of puts out of the money: those nearest to the spot, the
/// nearest first and the deepest out of the money last.
pub fn otm_put_strikes(strikes: &Vec<i64>, spot: i64, n: usize) -> (r: Vec<i64>)
    ensures
        r@ == nearest_below(strikes@, spot as int, n as int).reverse(),
{
    let mut found: Vec<i64> = Vec::new();
    let mut i: usize = 0;
    assert(strikes@.take(0) =~= Seq::empty());
    assert(found@ =~= below(strikes@.take(0), spot as int));
    while i < strikes.len()
        invariant
            i <= strikes@.len(),
            found@ == below(strikes@.take(i as int), spot as int),
        decreases strikes@.len() - i,
    {
        proof {
            assert(strikes@.take(i + 1).drop_last() =~= strikes@.take(i as int));
        }
        if strikes[i] < spot {
            found.push(strikes[i]);
        }
        i = i + 1;
    }
    assert(strikes@.take(i as int) =~= strikes@);
    let all = sort(&found);
    let start: usize = if n < all.len() {
        all.len() - n
    } else {
        0
    };
    let ghost near = nearest_below(strikes@, spot as int, n as int);
    assert(near =~= all@.skip(start as int));
    let mut out: Vec<i64> = Vec::new();
    let mut j: usize = all.len();
    while j > start
        invariant
            start <= j <= all@.len(),
            near == all@.skip(start as int),
            out@.len() == all@.len() - j,
            forall|k: int| 0 <= k < out@.len() ==> #[trigger] out@[k] == all@[all@.len() - 1 - k],
        decreases j,
    {
        j = j - 1;
        out.push(all[j]);
    }
    assert(out@ =~= near.reverse());
    out
}

/// The month 35 days from `today`, in the notation `YYYYMM`.
pub fn target_month(today: i32) -> (r: Option<String>)
    ensures
        r is Some <==> is_day(today + 35),
        r is Some ==> (r->0)@ == month_text(today + 35),
{
    if today > i32::MAX - 35 {
        return None;
    }
    month_code(today + 35)
}

} // verus!

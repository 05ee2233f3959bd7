//! Sorting and thinning out of lists of prices.

use vstd::prelude::*;

verus! {

/// `s` with `x` put behind everything that is not above it.
pub open spec fn put_in(s: Seq<i64>, x: i64) -> Seq<i64>
    decreases s.len(),
{
    if s.len() == 0 || s.last() <= x {
        s.push(x)
    } else {
        put_in(s.drop_last(), x).push(s.last())
    }
}

/// `s` in rising order.
pub open spec fn sorted(s: Seq<i64>) -> Seq<i64>
    decreases s.len(),
{
    if s.len() == 0 {
        s
    } else {
        put_in(sorted(s.drop_last()), s.last())
    }
}

/// Whether no number is followed by a smaller one.
pub open spec fn ascending(s: Seq<i64>) -> bool {
    forall|i: int, j: int| 0 <= i <= j < s.len() ==> s[i] <= s[j]
}

spec fn caps(s: Seq<i64>, y: i64) -> bool {
    forall|i: int| 0 <= i < s.len() ==> y >= #[trigger] s[i]
}

proof fn lemma_put_in(s: Seq<i64>, x: i64)
    requires
        ascending(s),
    ensures
        ascending(put_in(s, x)),
        put_in(s, x).to_multiset() == s.to_multiset().insert(x),
        put_in(s, x).len() == s.len() + 1,
        forall|y: i64| y >= x && #[trigger] caps(s, y) ==> caps(put_in(s, x), y),
    decreases s.len(),
{
    broadcast use vstd::seq_lib::group_to_multiset_ensures;

    if s.len() > 0 && s.last() > x {
        let t = s.drop_last();
        let l = s.last();
        assert(ascending(t));
        lemma_put_in(t, x);
        let p = put_in(t, x);
        assert(caps(t, l));
        assert(caps(p, l));
        assert(t.push(l) =~= s);
        assert(p.push(l).to_multiset() =~= s.to_multiset().insert(x));
        assert forall|y: i64| y >= x && #[trigger] caps(s, y) implies caps(put_in(s, x), y) by {
            assert forall|i: int| 0 <= i < t.len() implies y >= #[trigger] t[i] by {
                assert(y >= s[i]);
            }
            assert(caps(t, y));
            assert(y >= s[s.len() - 1]);
        }
    }
}

/// A sorted list rises, and holds what was sorted, no more and no less.
pub proof fn law_sorted(s: Seq<i64>)
    ensures
        ascending(sorted(s)),
        sorted(s).to_multiset() == s.to_multiset(),
        sorted(s).len() == s.len(),
    decreases s.len(),
{
    broadcast use vstd::seq_lib::group_to_multiset_ensures;

    if s.len() > 0 {
        law_sorted(s.drop_last());
        lemma_put_in(sorted(s.drop_last()), s.last());
        assert(s.drop_last().push(s.last()) =~= s);
    }
}

proof fn lemma_put_in_inserts(s: Seq<i64>, x: i64, p: int)
    requires
        0 <= p <= s.len(),
        p > 0 ==> s[p - 1] <= x,
        forall|i: int| p <= i < s.len() ==> #[trigger] s[i] > x,
    ensures
        put_in(s, x) == s.insert(p, x),
    decreases s.len(),
{
    if p == s.len() {
        assert(s.insert(p, x) =~= s.push(x));
    } else {
        let t = s.drop_last();
        assert(s[s.len() - 1] > x);
        lemma_put_in_inserts(t, x, p);
        assert(t.insert(p, x).push(s.last()) =~= s.insert(p, x));
    }
}

/// The numbers of `v` in rising order.
pub fn sort(v: &Vec<i64>) -> (r: Vec<i64>)
    ensures
        r@ == sorted(v@),
        r@.len() == v@.len(),
{
    let mut out: Vec<i64> = Vec::new();
    let mut i: usize = 0;
    assert(v@.take(0) =~= Seq::empty());
    while i < v.len()
        invariant
            i <= v@.len(),
            out@ == sorted(v@.take(i as int)),
        decreases v@.len() - i,
    {
        let x: i64 = v[i];
        let mut p: usize = out.len();
        while p > 0 && out[p - 1] > x
            invariant
                p <= out@.len(),
                forall|k: int| p <= k < out@.len() ==> #[trigger] out@[k] > x,
            decreases p,
        {
            p = p - 1;
        }
        proof {
            lemma_put_in_inserts(out@, x, p as int);
            assert(v@.take(i + 1).drop_last() =~= v@.take(i as int));
        }
        out.insert(p, x);
        i = i + 1;
    }
    assert(v@.take(i as int) =~= v@);
    proof {
        law_sorted(v@);
    }
    out
}

/// `s` without the numbers that repeat their predecessor.
pub open spec fn deduped(s: Seq<i64>) -> Seq<i64>
    decreases s.len(),
{
    if s.len() <= 1 {
        s
    } else {
        let front = deduped(s.drop_last());
        if s.last() == s[s.len() - 2] {
            front
        } else {
            front.push(s.last())
        }
    }
}

proof fn lemma_deduped_ends(s: Seq<i64>)
    requires
        s.len() >= 1,
    ensures
        1 <= deduped(s).len() <= s.len(),
        deduped(s)[0] == s[0],
        deduped(s).last() == s.last(),
        forall|i: int| 0 <= i < deduped(s).len() ==> s.contains(#[trigger] deduped(s)[i]),
    decreases s.len(),
{
    if s.len() > 1 {
        let t = s.drop_last();
        lemma_deduped_ends(t);
        assert forall|i: int| 0 <= i < deduped(s).len() implies s.contains(
            #[trigger] deduped(s)[i],
        ) by {
            if i < deduped(t).len() {
                let x = deduped(t)[i];
                assert(t.contains(x));
                let k = choose|k: int| 0 <= k < t.len() && t[k] == x;
                assert(s[k] == x);
            } else {
                assert(s[s.len() - 1] == deduped(s)[i]);
            }
        }
    } else {
        assert(s.contains(s[0]));
    }
}

/// The `i`-th of `n` evenly spread positions in a list whose last index is `last`.
pub open spec fn spread_index(i: int, last: int, n: int) -> int {
    i * last / (n - 1)
}

/// Up to `n` numbers of `s`, spread evenly over it, neighbouring repeats left out.
pub open spec fn sampled(s: Seq<i64>, n: int) -> Seq<i64> {
    if n <= 0 {
        Seq::empty()
    } else if s.len() <= n {
        s
    } else if n == 1 {
        seq![s[0]]
    } else {
        deduped(Seq::new(n as nat, |i: int| s[spread_index(i, s.len() - 1, n)]))
    }
}

proof fn lemma_spread_index(i: int, last: int, n: int)
    requires
        0 <= i < n,
        n >= 2,
        last >= 0,
    ensures
        0 <= spread_index(i, last, n) <= last,
        spread_index(0, last, n) == 0,
        spread_index(n - 1, last, n) == last,
{
    assert(0 <= (i * last) / (n - 1) <= last) by (nonlinear_arith)
        requires
            0 <= i <= n - 1,
            n >= 2,
            last >= 0,
    ;
    assert(0 * last == 0) by (nonlinear_arith);
    assert(((n - 1) * last) / (n - 1) == last) by (nonlinear_arith)
        requires
            n >= 2,
    ;
}

/// Samples up to `n` numbers spread evenly across a sorted list, so that the
/// whole range stays covered; a list of `n` or fewer comes back as it is.
pub fn sample_spread(list: &Vec<i64>, n: usize) -> (r: Vec<i64>)
    ensures
        r@ == sampled(list@, n as int),
{
    let mut out: Vec<i64> = Vec::new();
    if n == 0 {
        assert(out@ =~= sampled(list@, 0));
        return out;
    }
    if list.len() <= n {
        let mut i: usize = 0;
        while i < list.len()
            invariant
                i <= list@.len(),
                out@ == list@.take(i as int),
            decreases list@.len() - i,
        {
            out.push(list[i]);
            i = i + 1;
            assert(out@ =~= list@.take(i as int));
        }
        assert(out@ =~= list@);
        return out;
    }
    if n == 1 {
        out.push(list[0]);
        assert(out@ =~= sampled(list@, 1));
        return out;
    }
    let last: usize = list.len() - 1;
    let ghost all = Seq::new(n as nat, |i: int| list@[spread_index(i, last as int, n as int)]);
    let mut i: usize = 0;
    let mut prev: i64 = 0;
    assert(all.take(0) =~= Seq::empty());
    while i < n
        invariant
            i <= n,
            2 <= n < list@.len(),
            last == list@.len() - 1,
            all == Seq::new(n as nat, |k: int| list@[spread_index(k, last as int, n as int)]),
            out@ == deduped(all.take(i as int)),
            i > 0 ==> prev == all[i - 1],
        decreases n - i,
    {
        proof {
            lemma_spread_index(i as int, last as int, n as int);
            assert(i * last <= usize::MAX * usize::MAX) by (nonlinear_arith)
                requires
                    0 <= i <= usize::MAX,
                    0 <= last <= usize::MAX,
            ;
            lemma_square_fits();
        }
        let at: u128 = (i as u128 * last as u128) / (n as u128 - 1);
        let x: i64 = list[at as usize];
        assert(x == all[i as int]);
        assert(all.take(i + 1).drop_last() =~= all.take(i as int));
        if i == 0 {
            out.push(x);
            assert(out@ =~= all.take(1));
        } else if x != prev {
            out.push(x);
        }
        prev = x;
        i = i + 1;
    }
    assert(all.take(i as int) =~= all);
    out
}

proof fn lemma_square_fits()
    ensures
        usize::MAX * usize::MAX <= u128::MAX,
{
    assert(usize::MAX * usize::MAX <= 0xffff_ffff_ffff_ffff * 0xffff_ffff_ffff_ffff)
        by (nonlinear_arith)
        requires
            0 <= usize::MAX <= 0xffff_ffff_ffff_ffff,
    ;
}

/// A sample never has more than `n` numbers, all of them from the list, and from
/// two numbers on it reaches both ends of the list.
pub proof fn law_sample_reaches_ends(s: Seq<i64>, n: int)
    requires
        s.len() >= 1,
        n >= 1,
    ensures
        1 <= sampled(s, n).len() <= n,
        sampled(s, n)[0] == s[0],
        n >= 2 ==> sampled(s, n).last() == s.last(),
        forall|i: int| 0 <= i < sampled(s, n).len() ==> s.contains(#[trigger] sampled(s, n)[i]),
{
    if s.len() > n && n >= 2 {
        let all = Seq::new(n as nat, |i: int| s[spread_index(i, s.len() - 1, n)]);
        lemma_deduped_ends(all);
        lemma_spread_index(0, s.len() - 1, n);
        lemma_spread_index(n - 1, s.len() - 1, n);
        assert forall|i: int| 0 <= i < sampled(s, n).len() implies s.contains(
            #[trigger] sampled(s, n)[i],
        ) by {
            let x = sampled(s, n)[i];
            assert(all.contains(x));
            let k = choose|k: int| 0 <= k < all.len() && all[k] == x;
            lemma_spread_index(k, s.len() - 1, n);
            assert(s[spread_index(k, s.len() - 1, n)] == x);
        }
    } else {
        assert(s.contains(s[0]));
        assert forall|i: int| 0 <= i < sampled(s, n).len() implies s.contains(
            #[trigger] sampled(s, n)[i],
        ) by {
            assert(s[i] == sampled(s, n)[i]);
        }
    }
}

} // verus!

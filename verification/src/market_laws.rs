//! What the choices from market data promise: strikes, expiries, quotes, budgets,
//! and which symbols are advised on.

use vstd::prelude::*;
use crate::data::{
    band_middle, both_sides, expiry_ok, in_structure_band, in_wheel_band, is_closest_expiry,
    is_expiry_pick, is_nearest, moneyness_of, nearest_answer, permission_block, positive, probe_aim,
    read_days, snapshot_quote, structure_band, wheel_band,
};
use crate::dates::day_of_code;
use crate::engine::laws::apart;
use crate::engine::types::{EngineConfig, Right, SuggestionView};
use crate::engine::{is_advice, is_plan, SymbolContext};
use crate::ibkr::{OpenOrderInfo, PositionRow, SnapshotData};
use crate::lists::{
    ascending, deduped, law_sample_reaches_ends, law_sorted, sampled, sorted, spread_index,
};
use crate::live::{
    advised, entry_budget, in_work, is_blocked, is_live_plan, lays_out, open_count, requests,
    standing, SymbolInputs,
};
use crate::positions::{collateral_of, expiries, reconciled};
use crate::probe::{below, middle, nearest_below};
use crate::store::models::WatchlistRow;
use crate::text::{contains_text, lower_text};

verus! {

// --- strikes ---------------------------------------------------------------

/// The strike nearest to a price is a listed one above zero, and none listed is
/// nearer; there is none exactly where no listed strike is above zero.
pub proof fn law_nearest_strike(strikes: Seq<i64>, target: int, r: Option<i64>, x: i64)
    requires
        nearest_answer(strikes, target, r),
    ensures
        r is Some ==> r->0 > 0 && strikes.contains(r->0),
        strikes.contains(x) && x > 0 ==> r is Some && apart(r->0 as int, target) <= apart(
            x as int,
            target,
        ),
{
    if r is Some {
        let i = choose|i: int| is_nearest(strikes, target, i) && strikes[i] == r->0;
        assert(strikes.contains(strikes[i]));
    }
    if strikes.contains(x) {
        let j = choose|j: int| 0 <= j < strikes.len() && strikes[j] == x;
        assert(strikes[j] == x);
    }
}

/// How far out of the money a strike is: its distance from spot over spot, in
/// millionths, on the side where it is worth nothing, to the millionth below.
pub proof fn law_moneyness(right: Right, strike: int, spot: int)
    ensures
        ({
            let m = moneyness_of(right, strike, spot);
            &&& m is Some <==> spot > 0
            &&& m is Some && right is Put ==> m->0 * spot <= (spot - strike) * 1_000_000 < (m->0
                + 1) * spot
            &&& m is Some && right is Call ==> m->0 * spot <= (strike - spot) * 1_000_000 < (m->0
                + 1) * spot
        }),
{
    if spot > 0 {
        let a = if right is Put {
            (spot - strike) * 1_000_000
        } else {
            (strike - spot) * 1_000_000
        };
        let q = a / spot;
        assert(q * spot <= a < (q + 1) * spot) by (nonlinear_arith)
            requires
                spot > 0,
                q == a / spot,
        ;
    }
}

/// Whether a strike is out of the money by no more than 15 hundredths of spot.
pub open spec fn is_wheel_strike(right: Right, k: int, spot: int) -> bool {
    &&& k > 0
    &&& right is Put ==> k < spot && 100 * (spot - k) <= 15 * spot
    &&& right is Call ==> k > spot && 100 * (k - spot) <= 15 * spot
}

/// Whether a strike is no more than 25 thousandths of spot away from it.
pub open spec fn is_near_strike(k: int, spot: int) -> bool {
    k > 0 && 1_000 * apart(k, spot) <= 25 * spot
}

proof fn lemma_wheel_band(s: Seq<i64>, right: Right, spot: int, x: i64)
    ensures
        wheel_band(s, right, spot).contains(x) <==> s.contains(x) && is_wheel_strike(
            right,
            x as int,
            spot,
        ),
        wheel_band(s, right, spot).len() <= s.len(),
    decreases s.len(),
{
    if s.len() > 0 {
        let t = s.drop_last();
        lemma_wheel_band(t, right, spot, x);
        lemma_push_contains(t, s.last(), x);
        assert(t.push(s.last()) =~= s);
        lemma_push_contains(wheel_band(t, right, spot), s.last(), x);
        assert(in_wheel_band(right, s.last() as int, spot) <==> is_wheel_strike(
            right,
            s.last() as int,
            spot,
        ));
    }
}

proof fn lemma_push_contains(s: Seq<i64>, y: i64, x: i64)
    ensures
        s.push(y).contains(x) <==> s.contains(x) || x == y,
{
    if s.contains(x) {
        let k = choose|k: int| 0 <= k < s.len() && s[k] == x;
        assert(s.push(y)[k] == x);
    }
    assert(s.push(y)[s.len() as int] == y);
    if s.push(y).contains(x) {
        let k = choose|k: int| 0 <= k < s.push(y).len() && s.push(y)[k] == x;
        if k < s.len() {
            assert(s[k] == x);
        }
    }
}

proof fn lemma_structure_band(s: Seq<i64>, spot: int, x: i64)
    ensures
        structure_band(s, spot).contains(x) <==> s.contains(x) && is_near_strike(x as int, spot),
        structure_band(s, spot).len() <= s.len(),
    decreases s.len(),
{
    if s.len() > 0 {
        let t = s.drop_last();
        lemma_structure_band(t, spot, x);
        lemma_push_contains(t, s.last(), x);
        assert(t.push(s.last()) =~= s);
        lemma_push_contains(structure_band(t, spot), s.last(), x);
        assert(in_structure_band(s.last() as int, spot) <==> is_near_strike(s.last() as int, spot));
    }
}

proof fn lemma_sorted_contains(s: Seq<i64>, x: i64)
    ensures
        sorted(s).contains(x) <==> s.contains(x),
{
    broadcast use vstd::seq_lib::group_to_multiset_ensures;

    law_sorted(s);
    assert(sorted(s).contains(x) <==> sorted(s).to_multiset().count(x) > 0);
    assert(s.contains(x) <==> s.to_multiset().count(x) > 0);
}

proof fn lemma_deduped_contains(s: Seq<i64>, x: i64)
    ensures
        deduped(s).contains(x) <==> s.contains(x),
        s.len() >= 1 ==> deduped(s).len() >= 1 && deduped(s).last() == s.last(),
    decreases s.len(),
{
    if s.len() > 1 {
        let t = s.drop_last();
        lemma_deduped_contains(t, x);
        assert(t.push(s.last()) =~= s);
        lemma_push_contains(t, s.last(), x);
        lemma_push_contains(deduped(t), s.last(), x);
        assert(t.last() == s[s.len() - 2]);
        if s.last() == t.last() {
            assert(t[t.len() - 1] == s.last());
            assert(t.contains(s.last()));
        }
    }
}

/// A sample of a list is spread evenly: it holds the number at each of the `n` places
/// that cut the list into equal parts, and no number that the list does not hold.
pub proof fn law_sample_even(s: Seq<i64>, n: int, i: int, k: int, x: i64)
    requires
        n >= 2,
        s.len() > n,
        0 <= i < n,
        0 <= k,
        k * (n - 1) <= i * (s.len() - 1) < (k + 1) * (n - 1),
    ensures
        k < s.len(),
        sampled(s, n).contains(s[k]),
        sampled(s, n).contains(x) ==> s.contains(x),
{
    let last = s.len() - 1;
    let all = Seq::new(n as nat, |j: int| s[spread_index(j, last, n)]);
    let q = (i * last) / (n - 1);
    let (a, m) = (i * last, n - 1);
    assert(q == k) by (nonlinear_arith)
        requires
            m >= 1,
            q == a / m,
            k * m <= a < (k + 1) * m,
    ;
    assert(all[i] == s[k]);
    assert(all.contains(s[k]));
    lemma_deduped_contains(all, s[k]);
    assert(k <= last) by (nonlinear_arith)
        requires
            k * m <= i * last,
            0 <= i <= m,
            m >= 1,
            last >= 0,
    ;
    law_sample_reaches_ends(s, n);
    if sampled(s, n).contains(x) {
        let j = choose|j: int| 0 <= j < sampled(s, n).len() && sampled(s, n)[j] == x;
        assert(s.contains(sampled(s, n)[j]));
    }
}

proof fn lemma_sample_of_band(band: Seq<i64>, n: int, x: i64)
    requires
        n >= 2,
    ensures
        ({
            let r = sampled(sorted(band), n);
            &&& r.len() <= n
            &&& r.contains(x) ==> band.contains(x)
            &&& band.len() <= n && band.contains(x) ==> r.contains(x)
            &&& band.contains(x) ==> r.len() >= 1 && r[0] <= x <= r.last()
        }),
{
    law_sorted(band);
    lemma_sorted_contains(band, x);
    let s = sorted(band);
    if s.len() >= 1 {
        law_sample_reaches_ends(s, n);
    }
    let r = sampled(s, n);
    if r.contains(x) {
        let j = choose|j: int| 0 <= j < r.len() && r[j] == x;
        if s.len() >= 1 {
            assert(s.contains(r[j]));
        }
    }
    if band.contains(x) {
        let j = choose|j: int| 0 <= j < s.len() && s[j] == x;
        assert(s[0] <= s[j] <= s[s.len() - 1]);
    }
}

/// The strikes quoted for the wheel are listed ones within the band, a dozen at most:
/// all of them where there are no more, and always the lowest and the highest.
pub proof fn law_wheel_strikes(strikes: Seq<i64>, right: Right, spot: int, x: i64)
    ensures
        ({
            let r = sampled(
                sorted(wheel_band(strikes, right, spot)),
                crate::data::MAX_CHAIN_STRIKES as int,
            );
            &&& r.len() <= 12
            &&& r.contains(x) ==> strikes.contains(x) && is_wheel_strike(right, x as int, spot)
            &&& strikes.contains(x) && is_wheel_strike(right, x as int, spot) ==> r.len() >= 1
                && r[0] <= x <= r.last()
            &&& strikes.len() <= 12 && strikes.contains(x) && is_wheel_strike(right, x as int, spot)
                ==> r.contains(x)
        }),
{
    lemma_wheel_band(strikes, right, spot, x);
    lemma_sample_of_band(wheel_band(strikes, right, spot), 12, x);
}

/// The strikes quoted for a structure are listed ones near spot, forty at most: all
/// of them where there are no more, and always the lowest and the highest.
pub proof fn law_structure_strikes(strikes: Seq<i64>, spot: int, x: i64)
    ensures
        ({
            let r = sampled(
                sorted(structure_band(strikes, spot)),
                crate::data::MAX_STRUCTURE_STRIKES as int,
            );
            &&& r.len() <= 40
            &&& r.contains(x) ==> strikes.contains(x) && is_near_strike(x as int, spot)
            &&& strikes.contains(x) && is_near_strike(x as int, spot) ==> r.len() >= 1 && r[0] <= x
                <= r.last()
            &&& strikes.len() <= 40 && strikes.contains(x) && is_near_strike(x as int, spot)
                ==> r.contains(x)
        }),
{
    lemma_structure_band(strikes, spot, x);
    lemma_sample_of_band(structure_band(strikes, spot), 40, x);
}

/// A structure's chain is quoted on both sides of each strike, the put first.
pub proof fn law_both_sides(strikes: Seq<i64>, i: int)
    ensures
        both_sides(strikes).len() == 2 * strikes.len(),
        0 <= i < strikes.len() ==> both_sides(strikes)[2 * i] == (strikes[i], Right::Put)
            && both_sides(strikes)[2 * i + 1] == (strikes[i], Right::Call),
    decreases strikes.len(),
{
    if strikes.len() > 0 {
        law_both_sides(strikes.drop_last(), i);
    }
}

/// Where spot is known a probe aims 15 hundredths below it.
pub proof fn law_probe_aim(strikes: Seq<i64>, spot: int)
    ensures
        spot > 0 ==> probe_aim(strikes, spot) is Some && 100 * probe_aim(strikes, spot)->0 <= 85
            * spot < 100 * (probe_aim(strikes, spot)->0 + 1),
{
}

proof fn lemma_positive(s: Seq<i64>, x: i64)
    ensures
        positive(s).contains(x) <==> s.contains(x) && x > 0,
        positive(s).to_multiset().count(x) == (if x > 0 {
            s.to_multiset().count(x)
        } else {
            0
        }),
    decreases s.len(),
{
    broadcast use vstd::seq_lib::group_to_multiset_ensures;

    if s.len() > 0 {
        let t = s.drop_last();
        lemma_positive(t, x);
        assert(t.push(s.last()) =~= s);
        lemma_push_contains(t, s.last(), x);
        lemma_push_contains(positive(t), s.last(), x);
    }
}

proof fn lemma_ascending_unique(a: Seq<i64>, b: Seq<i64>)
    requires
        ascending(a),
        ascending(b),
        a.to_multiset() == b.to_multiset(),
    ensures
        a == b,
{
    let leq = |x: i64, y: i64| x <= y;
    assert(vstd::relations::sorted_by(a, leq));
    assert(vstd::relations::sorted_by(b, leq));
    vstd::seq_lib::lemma_sorted_unique(a, b, leq);
}

/// Where spot is not known a probe aims at the middle of the strikes above zero: the
/// one with as many before it as behind it in rising order, the upper one of two.
pub proof fn law_probe_aims_at_middle(strikes: Seq<i64>, spot: int, s: Seq<i64>)
    requires
        spot <= 0,
        ascending(s),
        forall|x: i64| #[trigger]
            s.to_multiset().count(x) == (if x > 0 {
                strikes.to_multiset().count(x)
            } else {
                0
            }),
    ensures
        s.len() == 0 ==> probe_aim(strikes, spot) is None,
        s.len() > 0 ==> probe_aim(strikes, spot) == Some(s[s.len() as int / 2] as int),
{
    let p = positive(strikes);
    assert forall|x: i64| #[trigger] s.to_multiset().count(x) == p.to_multiset().count(x) by {
        lemma_positive(strikes, x);
    }
    assert(s.to_multiset() =~= p.to_multiset());
    law_sorted(p);
    lemma_ascending_unique(s, sorted(p));
}

/// The middle of a list is the number with as many before it as behind it in rising
/// order, the upper one of two.
pub proof fn law_middle(xs: Seq<i64>, s: Seq<i64>)
    requires
        ascending(s),
        s.to_multiset() == xs.to_multiset(),
    ensures
        xs.len() == 0 ==> middle(xs) == 0,
        xs.len() > 0 ==> middle(xs) == s[xs.len() as int / 2],
{
    law_sorted(xs);
    lemma_ascending_unique(s, sorted(xs));
}

proof fn lemma_below(s: Seq<i64>, spot: int, x: i64)
    ensures
        below(s, spot).contains(x) <==> s.contains(x) && x < spot,
        below(s, spot).len() <= s.len(),
    decreases s.len(),
{
    if s.len() > 0 {
        let t = s.drop_last();
        lemma_below(t, spot, x);
        assert(t.push(s.last()) =~= s);
        lemma_push_contains(t, s.last(), x);
        lemma_push_contains(below(t, spot), s.last(), x);
    }
}

/// The puts that are probed are listed strikes below spot, the nearest first; a
/// strike below spot that is left out is no nearer than the last of them, and none is
/// left out unless there are as many as were asked for.
pub proof fn law_probed_puts(strikes: Seq<i64>, spot: int, n: int, i: int, x: i64)
    requires
        n >= 0,
    ensures
        ({
            let r = nearest_below(strikes, spot, n).reverse();
            &&& r.len() <= n
            &&& 0 <= i < r.len() ==> strikes.contains(r[i]) && r[i] < spot
            &&& 0 <= i < r.len() - 1 ==> r[i] >= r[i + 1]
            &&& strikes.contains(x) && x < spot && !r.contains(x) ==> r.len() == n && (n > 0 ==> x
                <= r.last())
        }),
{
    let all = sorted(below(strikes, spot));
    law_sorted(below(strikes, spot));
    let near = nearest_below(strikes, spot, n);
    let r = near.reverse();
    let start = all.len() - near.len();
    if 0 <= i < r.len() {
        let y = r[i];
        assert(y == near[near.len() - 1 - i]);
        assert(y == all[start + near.len() - 1 - i]);
        assert(all.contains(y));
        lemma_sorted_contains(below(strikes, spot), y);
        lemma_below(strikes, spot, y);
        if i < r.len() - 1 {
            assert(r[i + 1] == all[start + near.len() - 2 - i]);
        }
    }
    if strikes.contains(x) && x < spot && !r.contains(x) {
        lemma_below(strikes, spot, x);
        lemma_sorted_contains(below(strikes, spot), x);
        let k = choose|k: int| 0 <= k < all.len() && all[k] == x;
        if k >= start {
            assert(near[k - start] == x);
            assert(r[near.len() - 1 - (k - start)] == x);
        }
        if n > 0 {
            assert(r.last() == all[start]);
        }
    }
}

// --- expiries --------------------------------------------------------------

/// The expiration that is picked reads as a day at least `min` days away, and none of
/// the list that does is closer to the days asked for.
pub proof fn law_closest_expiry(
    expirations: Seq<String>,
    today: int,
    dte: int,
    min: int,
    e: (String, i64),
    j: int,
)
    requires
        is_closest_expiry(expirations, today, dte, min, e),
    ensures
        day_of_code(e.0@) == Some(today + e.1),
        e.1 >= min,
        exists|i: int| 0 <= i < expirations.len() && (#[trigger] expirations[i])@ == e.0@,
        0 <= j < expirations.len() && day_of_code(expirations[j]@) is Some && day_of_code(
            expirations[j]@,
        )->0 - today >= min ==> apart(e.1 as int, dte) <= apart(
            day_of_code(expirations[j]@)->0 - today,
            dte,
        ),
{
    let days = read_days(expirations);
    let i = choose|i: int| #[trigger]
        is_expiry_pick(days, today, dte, min, i) && e.0@ == expirations[i]@ && e.1 == days[i]->0
            - today;
    assert(expirations[i]@ == e.0@);
    assert(days[i] == day_of_code(expirations[i]@));
    if 0 <= j < expirations.len() {
        assert(days[j] == day_of_code(expirations[j]@));
        if days[j] is Some && days[j]->0 - today >= min {
            assert(expiry_ok(days, today, min, j));
        }
    }
}

/// A chain aims for the middle of the band of days.
pub proof fn law_band_middle(cfg: EngineConfig)
    ensures
        -1 <= 2 * band_middle(cfg) - (cfg.min_dte + cfg.max_dte) <= 1,
        cfg.min_dte + cfg.max_dte >= 0 ==> 2 * band_middle(cfg) <= cfg.min_dte + cfg.max_dte,
        cfg.min_dte + cfg.max_dte <= 0 ==> 2 * band_middle(cfg) >= cfg.min_dte + cfg.max_dte,
{
}

// --- quotes ----------------------------------------------------------------

/// A snapshot makes a quote exactly where it has a computation and a price above
/// zero, the model's price before the last trade; both sides of the quote are that
/// price, and its greeks are those of the computation.
pub proof fn law_snapshot_quote(
    snap: SnapshotData,
    right: Right,
    strike: i64,
    expiry: i32,
    price: i64,
)
    requires
        snap.comp is Some && (snap.comp->0).option_price is Some ==> price == (
        snap.comp->0).option_price->0,
        snap.comp is Some && (snap.comp->0).option_price is None && snap.last is Some ==> price
            == snap.last->0,
    ensures
        ({
            let r = snapshot_quote(snap, right, strike, expiry);
            let priced = snap.comp is Some && ((snap.comp->0).option_price is Some
                || snap.last is Some);
            &&& r is Some <==> priced && price > 0
            &&& r is Some ==> {
                let q = r->0;
                &&& q.right == right
                &&& q.strike == strike
                &&& q.expiry == expiry
                &&& q.bid == price
                &&& q.ask == price
                &&& q.delta == (snap.comp->0).delta
                &&& q.implied_volatility == (snap.comp->0).implied_volatility
                &&& q.open_interest is None
                &&& q.estimated_delta is None
            }
        }),
{
}

// --- tradability -----------------------------------------------------------

/// A rejection that speaks of market data never blocks a symbol; one that does not
/// blocks it exactly where it speaks of PRIIPs, of a key information document, of
/// something prohibited, not allowed or not permitted, of a trading permission or of
/// professionals. Letters count in either case.
pub proof fn law_permission_block(reason: Seq<char>, other: Seq<char>)
    ensures
        lower_text(reason) == lower_text(other) ==> permission_block(reason) == permission_block(
            other,
        ),
        contains_text(lower_text(reason), "market data"@) || contains_text(
            lower_text(reason),
            "market-data"@,
        ) ==> !permission_block(reason),
        !contains_text(lower_text(reason), "market data"@) && !contains_text(
            lower_text(reason),
            "market-data"@,
        ) ==> (permission_block(reason) <==> contains_text(lower_text(reason), "priips"@)
            || contains_text(lower_text(reason), "kid"@) || contains_text(
            lower_text(reason),
            "prohibited"@,
        ) || contains_text(lower_text(reason), "trading permission"@) || contains_text(
            lower_text(reason),
            "not allowed"@,
        ) || contains_text(lower_text(reason), "not permitted"@) || contains_text(
            lower_text(reason),
            "professional"@,
        )),
{
}

// --- budget ----------------------------------------------------------------

/// A further watchlist row counts toward those that may open a position exactly where
/// it is enabled and not marked as not tradable.
pub proof fn law_open_count(watchlist: Seq<WatchlistRow>, n: int)
    requires
        0 <= n < watchlist.len(),
    ensures
        ({
            let w = watchlist[n];
            let more = open_count(watchlist, n + 1) - open_count(watchlist, n);
            let opens = w.enabled != 0 && !(w.tradable is Some && w.tradable->0 == 0);
            &&& open_count(watchlist, 0) == 0
            &&& opens ==> more == 1
            &&& !opens ==> more == 0
        }),
{
}

proof fn lemma_open_count(watchlist: Seq<WatchlistRow>, n: int)
    ensures
        open_count(watchlist, n) >= 0,
    decreases n,
{
    if n > 0 {
        lemma_open_count(watchlist, n - 1);
    }
}

/// Each symbol that may open a position gets an even share of what the cap leaves
/// beside the cash already tied up, to the millionth below; nothing where the cap is
/// used up.
pub proof fn law_budget(watchlist: Seq<WatchlistRow>, positions: Seq<PositionRow>, cap: int)
    requires
        cap <= i64::MAX,
        collateral_of(positions, positions.len() as int) >= 0,
    ensures
        ({
            let used = collateral_of(positions, positions.len() as int);
            let n = open_count(watchlist, watchlist.len() as int);
            let b = entry_budget(watchlist, positions, cap);
            &&& cap <= used ==> b == 0
            &&& cap > used && n >= 1 ==> n * b <= cap - used < n * (b + 1)
            &&& cap > used && n == 0 ==> b == cap - used
        }),
{
    lemma_open_count(watchlist, watchlist.len() as int);
    let used = collateral_of(positions, positions.len() as int);
    let n = open_count(watchlist, watchlist.len() as int);
    let left = cap - used;
    if left > 0 && n >= 1 {
        let q = left / n;
        assert(n * q <= left < n * (q + 1) && 0 <= q <= left) by (nonlinear_arith)
            requires
                n >= 1,
                left > 0,
                q == left / n,
        ;
    }
    assert(left / 1 == left);
    assert(0int / 1 == 0);
    if left <= 0 && n >= 1 {
        assert(0int / n == 0) by (nonlinear_arith)
            requires
                n >= 1,
        ;
    }
}

// --- symbols ---------------------------------------------------------------

/// A symbol is in work where a roll of it is pending, and besides exactly where an open
/// order is on it or, the open orders not being known, the journal has one.
pub proof fn law_in_work(
    open: Option<Vec<OpenOrderInfo>>,
    journal: Seq<String>,
    pending: Seq<String>,
    symbol: Seq<char>,
    i: int,
)
    ensures
        0 <= i < pending.len() && pending[i]@ == symbol ==> in_work(open, journal, pending, symbol),
        open is Some && 0 <= i < (open->0)@.len() && (open->0)@[i].symbol@ == symbol ==> in_work(
            open,
            journal,
            pending,
            symbol,
        ),
        open is None && 0 <= i < journal.len() && journal[i]@ == symbol ==> in_work(
            open,
            journal,
            pending,
            symbol,
        ),
        open is Some && (forall|k: int| 0 <= k < pending.len() ==> (#[trigger] pending[k])@ != symbol)
            && (forall|k: int|
            0 <= k < (open->0)@.len() ==> (#[trigger] (open->0)@[k]).symbol@ != symbol) ==> !in_work(
            open,
            journal,
            pending,
            symbol,
        ),
        open is None && (forall|k: int| 0 <= k < pending.len() ==> (#[trigger] pending[k])@ != symbol)
            && (forall|k: int| 0 <= k < journal.len() ==> (#[trigger] journal[k])@ != symbol)
            ==> !in_work(open, journal, pending, symbol),
{
}

/// Whether a watchlist row is to be advised on: it is enabled, nothing of it is in
/// work, and it may trade or has an open short to care for.
pub open spec fn is_due(
    w: WatchlistRow,
    positions: Seq<PositionRow>,
    working: Seq<String>,
) -> bool {
    let state = reconciled(w.symbol@, positions, expiries(positions)).state;
    &&& w.enabled != 0
    &&& forall|k: int| 0 <= k < working.len() ==> (#[trigger] working[k])@ != w.symbol@
    &&& (w.tradable is Some && w.tradable->0 == 0 ==> state is ShortPut || state is HedgedShortPut
        || state is ShortCall)
}

/// The symbols that are fetched are exactly those to be advised on, each once, in the
/// order of the watchlist, in the wheel leg that its holdings show.
pub proof fn law_requests(
    watchlist: Seq<WatchlistRow>,
    positions: Seq<PositionRow>,
    working: Seq<String>,
    n: int,
    i: int,
)
    requires
        0 <= n <= watchlist.len() <= usize::MAX,
    ensures
        ({
            let r = requests(watchlist, positions, working, n);
            &&& 0 <= i < r.len() ==> {
                &&& r[i].row < n
                &&& is_due(watchlist[r[i].row as int], positions, working)
                &&& r[i].position == reconciled(
                    watchlist[r[i].row as int].symbol@,
                    positions,
                    expiries(positions),
                )
            }
            &&& 0 <= i < r.len() - 1 ==> r[i].row < r[i + 1].row
            &&& 0 <= i < n && is_due(watchlist[i], positions, working) ==> exists|k: int|
                0 <= k < r.len() && (#[trigger] r[k]).row == i
        }),
    decreases n,
{
    if n > 0 {
        let rest = requests(watchlist, positions, working, n - 1);
        let r = requests(watchlist, positions, working, n);
        let w = watchlist[n - 1];
        law_requests(watchlist, positions, working, n - 1, i);
        let state = reconciled(w.symbol@, positions, expiries(positions)).state;
        assert(advised(w, working, state) <==> is_due(w, positions, working));
        if i == rest.len() - 1 && i >= 0 {
            assert(rest[i].row < n - 1);
        }
        if 0 <= i < n - 1 && is_due(watchlist[i], positions, working) {
            let k = choose|k: int| 0 <= k < rest.len() && (#[trigger] rest[k]).row == i;
            assert(r[k].row == i);
        }
        if i == n - 1 && is_due(w, positions, working) {
            assert(r[rest.len() as int].row == i);
        }
    }
}

/// Of a plan nothing is dropped but the rolls of symbols that may not trade.
pub proof fn law_only_blocked_rolls_dropped(
    s: Seq<SuggestionView>,
    watchlist: Seq<WatchlistRow>,
    x: SuggestionView,
)
    ensures
        standing(s, watchlist).contains(x) <==> s.contains(x) && !(x.kind is Roll && exists|k: int|
            0 <= k < watchlist.len() && (#[trigger] watchlist[k]).symbol@ == x.symbol
                && watchlist[k].tradable is Some && watchlist[k].tradable->0 == 0),
    decreases s.len(),
{
    if s.len() > 0 {
        let t = s.drop_last();
        let l = s.last();
        law_only_blocked_rolls_dropped(t, watchlist, x);
        assert(t.push(l) =~= s);
        let kept = standing(t, watchlist);
        if t.contains(x) {
            let k = choose|k: int| 0 <= k < t.len() && t[k] == x;
            assert(s[k] == x);
        }
        if s.contains(x) {
            let k = choose|k: int| 0 <= k < s.len() && s[k] == x;
            if k < t.len() {
                assert(t[k] == x);
            }
        }
        assert(s[s.len() - 1] == l);
        if kept.contains(x) {
            let k = choose|k: int| 0 <= k < kept.len() && kept[k] == x;
            assert(kept.push(l)[k] == x);
        }
        assert(kept.push(l)[kept.len() as int] == l);
        if kept.push(l).contains(x) {
            let k = choose|k: int| 0 <= k < kept.push(l).len() && kept.push(l)[k] == x;
            if k < kept.len() {
                assert(kept[k] == x);
            }
        }
        assert(is_blocked(watchlist, x.symbol) <==> exists|k: int|
            0 <= k < watchlist.len() && (#[trigger] watchlist[k]).symbol@ == x.symbol
                && watchlist[k].tradable is Some && watchlist[k].tradable->0 == 0) by {
            if is_blocked(watchlist, x.symbol) {
                let k = choose|k: int|
                    0 <= k < watchlist.len() && (#[trigger] watchlist[k]).symbol@ == x.symbol
                        && watchlist[k].blocked();
                assert(watchlist[k].symbol@ == x.symbol && watchlist[k].tradable is Some);
            }
        }
    }
}

/// What is listed of a symbol is the advice on its inputs as they are: its state, price,
/// chain, open short, shares, written calls and budget.
pub proof fn law_inputs_as_they_are(ctx: SymbolContext, si: SymbolInputs)
    requires
        lays_out(ctx, si),
    ensures
        ctx.symbol@ == si.symbol@,
        ctx.state == si.state,
        ctx.underlying == si.underlying,
        ctx.option_quotes@ == si.quotes@,
        ctx.open_short == si.open_short,
        ctx.shares == si.shares,
        ctx.committed_call_contracts == si.committed_call_contracts,
        ctx.max_collateral == si.max_collateral,
{
}

/// Whether `x` is the advice on the inputs of a symbol.
pub open spec fn is_advice_on(
    si: SymbolInputs,
    cfg: EngineConfig,
    today: int,
    hedged: bool,
    x: SuggestionView,
) -> bool {
    exists|ctx: SymbolContext| #[trigger]
        lays_out(ctx, si) && is_advice(ctx, cfg, today, hedged, Some(x))
}

/// Everything on the live list is the advice on one of the symbols, and is no roll of a
/// symbol that may not be traded.
pub proof fn law_live_list(
    inputs: Seq<SymbolInputs>,
    watchlist: Seq<WatchlistRow>,
    cfg: EngineConfig,
    today: int,
    hedged: bool,
    list: Seq<SuggestionView>,
    k: int,
) -> (i: int)
    requires
        is_live_plan(inputs, watchlist, cfg, today, hedged, list),
        0 <= k < list.len(),
    ensures
        0 <= i < inputs.len(),
        is_advice_on(inputs[i], cfg, today, hedged, list[k]),
        list[k].kind is Roll ==> forall|w: int|
            0 <= w < watchlist.len() && (#[trigger] watchlist[w]).symbol@ == list[k].symbol
                ==> watchlist[w].tradable != Some(0i64),
{
    let (contexts, all) = choose|contexts: Seq<SymbolContext>, all: Seq<SuggestionView>|
        {
            &&& contexts.len() == inputs.len()
            &&& forall|i: int| 0 <= i < inputs.len() ==> lays_out(#[trigger] contexts[i], inputs[i])
            &&& #[trigger] is_plan(contexts, cfg, today, hedged, all)
            &&& list == standing(all, watchlist)
        };
    let x = list[k];
    assert(list.contains(x));
    law_only_blocked_rolls_dropped(all, watchlist, x);
    assert(all.contains(x));
    crate::engine::reason_laws::law_plan_holds(contexts, cfg, today, hedged, all, x);
    let i = choose|i: int|
        0 <= i < contexts.len() && is_advice(#[trigger] contexts[i], cfg, today, hedged, Some(x));
    assert(lays_out(contexts[i], inputs[i]));
    i
}

/// Nothing of the advice is missing from the live list but the rolls of symbols that may
/// not be traded.
pub proof fn law_live_list_complete(
    inputs: Seq<SymbolInputs>,
    watchlist: Seq<WatchlistRow>,
    cfg: EngineConfig,
    today: int,
    hedged: bool,
    list: Seq<SuggestionView>,
    i: int,
    x: SuggestionView,
)
    requires
        is_live_plan(inputs, watchlist, cfg, today, hedged, list),
        0 <= i < inputs.len(),
        is_advice_on(inputs[i], cfg, today, hedged, x),
        !(x.kind is Roll),
    ensures
        list.contains(x),
{
    let (contexts, all) = choose|contexts: Seq<SymbolContext>, all: Seq<SuggestionView>|
        {
            &&& contexts.len() == inputs.len()
            &&& forall|i: int| 0 <= i < inputs.len() ==> lays_out(#[trigger] contexts[i], inputs[i])
            &&& #[trigger] is_plan(contexts, cfg, today, hedged, all)
            &&& list == standing(all, watchlist)
        };
    assert(lays_out(contexts[i], inputs[i]));
    assert(is_advice(contexts[i], cfg, today, hedged, Some(x)));
    crate::engine::reason_laws::law_plan_holds(contexts, cfg, today, hedged, all, x);
    law_only_blocked_rolls_dropped(all, watchlist, x);
}

} // verus!

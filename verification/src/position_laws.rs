//! What the wheel leg of a symbol says of its holdings, in the rows themselves.

use vstd::prelude::*;
use crate::data::{is_update, WheelUpdate};
use crate::decimal::decimal_value;
use crate::engine::types::{OpenShortOption, Right};
use crate::fixed::MAX_PRICE;
use crate::ibkr::{rows_wf, PositionRow};
use crate::positions::{
    calls_written, collateral_of, expiries, is_protection, is_urgent, lemma_protection,
    lemma_urgent, long_cost, long_shares, net_shares, option_of, protection, protects, reconciled,
    row_contracts, row_credit, row_multiplier, row_right, share_lot, short_leg, urgent_leg,
};

verus! {

// --- the words of the laws -------------------------------------------------

/// Whether a row is a put, by the first letter of its code.
pub open spec fn reads_put(r: PositionRow) -> bool {
    r.right@.len() > 0 && (r.right@.first() == 'P' || r.right@.first() == 'p')
}

/// Whether a row is a call, by the first letter of its code.
pub open spec fn reads_call(r: PositionRow) -> bool {
    r.right@.len() > 0 && (r.right@.first() == 'C' || r.right@.first() == 'c')
}

/// Whether the `i`-th row is a short option of the symbol that expires on a known day.
pub open spec fn is_short_row(
    symbol: Seq<char>,
    rows: Seq<PositionRow>,
    days: Seq<Option<int>>,
    call: bool,
    i: int,
) -> bool {
    &&& 0 <= i < rows.len()
    &&& rows[i].symbol@ == symbol
    &&& rows[i].security_type@ == "Option"@
    &&& rows[i].position < 0
    &&& (call ==> reads_call(rows[i]))
    &&& (!call ==> reads_put(rows[i]))
    &&& days[i] is Some
}

/// Whether the `i`-th row is the short option that expires first, and the first of
/// those.
pub open spec fn expires_first(
    symbol: Seq<char>,
    rows: Seq<PositionRow>,
    days: Seq<Option<int>>,
    call: bool,
    i: int,
) -> bool {
    &&& is_short_row(symbol, rows, days, call, i)
    &&& forall|j: int| #[trigger]
        is_short_row(symbol, rows, days, call, j) ==> days[i]->0 < days[j]->0 || (days[i]->0
            == days[j]->0 && i <= j)
}

/// Whether the `i`-th row is a long put of the symbol below the strike of the short
/// one, with its expiry.
pub open spec fn is_cover_row(
    symbol: Seq<char>,
    rows: Seq<PositionRow>,
    days: Seq<Option<int>>,
    short: int,
    i: int,
) -> bool {
    &&& 0 <= i < rows.len()
    &&& rows[i].symbol@ == symbol
    &&& rows[i].security_type@ == "Option"@
    &&& rows[i].position > 0
    &&& reads_put(rows[i])
    &&& days[i] == days[short]
    &&& rows[i].strike < rows[short].strike
}

/// Whether `n` contracts are the position of a row: its millionths to the nearest
/// whole, within 32 bits.
pub open spec fn is_count(r: PositionRow, n: int) -> bool {
    let size = if r.position < 0 {
        -(r.position as int)
    } else {
        r.position as int
    };
    ||| n * 1_000_000 - 500_000 <= size < n * 1_000_000 + 500_000 && n <= i32::MAX
    ||| n == i32::MAX && size >= i32::MAX * 1_000_000
}

/// The shares of a contract of a row, in millionths: what its multiplier says, or a
/// hundred.
pub open spec fn shares_of_contract(r: PositionRow) -> int {
    if decimal_value(r.multiplier@) is Some && decimal_value(r.multiplier@)->0 > 0 {
        decimal_value(r.multiplier@)->0
    } else {
        100_000_000
    }
}

/// Whether `c` is what a row cost or brought in per share: its average cost over its
/// multiplier, to the millionth below, within 64 bits.
pub open spec fn is_per_share(r: PositionRow, c: int) -> bool {
    let cost = if r.average_cost < 0 {
        -(r.average_cost as int)
    } else {
        r.average_cost as int
    };
    let m = shares_of_contract(r);
    ||| c * m <= cost * 1_000_000 < (c + 1) * m && c <= i64::MAX
    ||| c == i64::MAX && c * m <= cost * 1_000_000
}

/// Whether `o` is the option of the row `r`, expiring on `day`.
pub open spec fn is_option_of(o: OpenShortOption, r: PositionRow, call: bool, day: int) -> bool {
    &&& call ==> o.right is Call
    &&& !call ==> o.right is Put
    &&& o.strike == r.strike
    &&& o.expiry == day
    &&& is_per_share(r, o.entry_credit as int)
    &&& is_count(r, o.quantity as int)
}

// --- rows ------------------------------------------------------------------

proof fn lemma_option_of(r: PositionRow, call: bool, day: int)
    requires
        i32::MIN <= day <= i32::MAX,
    ensures
        is_option_of(
            option_of(
                r,
                if call {
                    Right::Call
                } else {
                    Right::Put
                },
                day,
            ),
            r,
            call,
            day,
        ),
{
    let cost = if r.average_cost < 0 {
        -(r.average_cost as int)
    } else {
        r.average_cost as int
    };
    let m = row_multiplier(r);
    assert(m > 0 && m == shares_of_contract(r));
    let a = cost * 1_000_000;
    let q = a / m;
    assert(q >= 0 && q * m <= a < (q + 1) * m) by (nonlinear_arith)
        requires
            m > 0,
            a >= 0,
            q == a / m,
    ;
    let c = row_credit(r);
    if q > i64::MAX {
        assert(c * m <= a) by (nonlinear_arith)
            requires
                c <= q,
                m > 0,
                q * m <= a,
        ;
    }
    assert(is_per_share(r, c));
    let n = row_contracts(r);
    assert(0 <= n <= i32::MAX);
    assert(is_count(r, n));
}

proof fn lemma_short_row(
    symbol: Seq<char>,
    rows: Seq<PositionRow>,
    days: Seq<Option<int>>,
    call: bool,
    i: int,
)
    ensures
        is_short_row(symbol, rows, days, call, i) <==> short_leg(
            symbol,
            rows,
            days,
            if call {
                Right::Call
            } else {
                Right::Put
            },
            i,
        ),
{
}

proof fn lemma_first(
    symbol: Seq<char>,
    rows: Seq<PositionRow>,
    days: Seq<Option<int>>,
    call: bool,
    i: int,
)
    requires
        days.len() == rows.len(),
        is_short_row(symbol, rows, days, call, i),
    ensures
        ({
            let want = if call {
                Right::Call
            } else {
                Right::Put
            };
            &&& urgent_leg(symbol, rows, days, want) is Some
            &&& expires_first(symbol, rows, days, call, urgent_leg(symbol, rows, days, want)->0)
        }),
{
    let want = if call {
        Right::Call
    } else {
        Right::Put
    };
    assert(short_leg(symbol, rows, days, want, i));
    lemma_urgent(symbol, rows, days, want);
    let u = urgent_leg(symbol, rows, days, want)->0;
    assert(is_urgent(symbol, rows, days, want, u));
    lemma_short_row(symbol, rows, days, call, u);
    assert forall|j: int| #[trigger] is_short_row(symbol, rows, days, call, j) implies days[u]->0
        < days[j]->0 || (days[u]->0 == days[j]->0 && u <= j) by {
        lemma_short_row(symbol, rows, days, call, j);
    }
}

/// Where a short put is held, the one that expires first is managed, with all its
/// contracts and what it brought in per share; it counts as hedged exactly where a
/// long put of its expiry is held below it, and then the highest of those is shown.
pub proof fn law_short_put_managed(
    symbol: Seq<char>,
    rows: Seq<PositionRow>,
    days: Seq<Option<int>>,
    i: int,
) -> (u: int)
    requires
        days.len() == rows.len(),
        is_short_row(symbol, rows, days, false, i),
        forall|j: int|
            0 <= j < days.len() && (#[trigger] days[j]) is Some ==> i32::MIN <= days[j]->0
                <= i32::MAX,
    ensures
        ({
            let r = reconciled(symbol, rows, days);
            let hedged = exists|j: int| is_cover_row(symbol, rows, days, u, j);
            &&& expires_first(symbol, rows, days, false, u)
            &&& r.open_short is Some
            &&& is_option_of(r.open_short->0, rows[u], false, days[u]->0)
            &&& hedged ==> r.state is HedgedShortPut
            &&& !hedged ==> r.state is ShortPut && r.protective_long is None
            &&& hedged ==> r.protective_long is Some && exists|j: int|
                {
                    &&& #[trigger] is_cover_row(symbol, rows, days, u, j)
                    &&& is_option_of(r.protective_long->0, rows[j], false, days[u]->0)
                    &&& forall|k: int| #[trigger]
                        is_cover_row(symbol, rows, days, u, k) ==> rows[k].strike < rows[j].strike
                            || (rows[k].strike == rows[j].strike && k <= j)
                }
        }),
{
    lemma_first(symbol, rows, days, false, i);
    let u = urgent_leg(symbol, rows, days, Right::Put)->0;
    assert(is_short_row(symbol, rows, days, false, u));
    let (strike, day) = (rows[u].strike as int, days[u]->0);
    lemma_option_of(rows[u], false, day);
    assert forall|j: int| is_cover_row(symbol, rows, days, u, j) <==> #[trigger] protects(
        symbol,
        rows,
        days,
        strike,
        day,
        j,
    ) by {}
    if exists|j: int| is_cover_row(symbol, rows, days, u, j) {
        let j0 = choose|j: int| is_cover_row(symbol, rows, days, u, j);
        assert(protects(symbol, rows, days, strike, day, j0));
        lemma_protection(symbol, rows, days, strike, day);
        let j = protection(symbol, rows, days, strike, day)->0;
        assert(is_protection(symbol, rows, days, strike, day, j));
        assert(protects(symbol, rows, days, strike, day, j));
        assert(is_cover_row(symbol, rows, days, u, j));
        lemma_option_of(rows[j], false, day);
        assert forall|k: int| #[trigger] is_cover_row(symbol, rows, days, u, k) implies rows[k].strike
            < rows[j].strike || (rows[k].strike == rows[j].strike && k <= j) by {
            assert(protects(symbol, rows, days, strike, day, k));
        }
    } else {
        assert forall|j: int| !#[trigger] protects(symbol, rows, days, strike, day, j) by {
            assert(!is_cover_row(symbol, rows, days, u, j));
        }
    }
    u
}

/// Where no short put is held, a short call is managed, the one that expires first;
/// without a short the symbol holds shares where there is a lot, and is idle
/// otherwise.
pub proof fn law_no_short_put(
    symbol: Seq<char>,
    rows: Seq<PositionRow>,
    days: Seq<Option<int>>,
    i: int,
)
    requires
        days.len() == rows.len(),
        forall|j: int| !#[trigger] is_short_row(symbol, rows, days, false, j),
        forall|j: int|
            0 <= j < days.len() && (#[trigger] days[j]) is Some ==> i32::MIN <= days[j]->0
                <= i32::MAX,
    ensures
        ({
            let r = reconciled(symbol, rows, days);
            &&& r.protective_long is None
            &&& is_short_row(symbol, rows, days, true, i) ==> {
                &&& r.state is ShortCall
                &&& r.open_short is Some
                &&& exists|u: int| #[trigger]
                    expires_first(symbol, rows, days, true, u) && is_option_of(
                        r.open_short->0,
                        rows[u],
                        true,
                        days[u]->0,
                    )
            }
            &&& (forall|j: int| !#[trigger] is_short_row(symbol, rows, days, true, j)) ==> {
                &&& r.open_short is None
                &&& r.committed_call_contracts == 0
                &&& r.shares is Some ==> r.state is LongShares
                &&& r.shares is None ==> r.state is Idle
            }
            &&& r.shares == share_lot(symbol, rows)
        }),
{
    assert forall|j: int| !#[trigger] short_leg(symbol, rows, days, Right::Put, j) by {
        lemma_short_row(symbol, rows, days, false, j);
        assert(!is_short_row(symbol, rows, days, false, j));
    }
    if is_short_row(symbol, rows, days, true, i) {
        lemma_first(symbol, rows, days, true, i);
        let u = urgent_leg(symbol, rows, days, Right::Call)->0;
        assert(expires_first(symbol, rows, days, true, u));
        lemma_option_of(rows[u], true, days[u]->0);
    }
    if forall|j: int| !#[trigger] is_short_row(symbol, rows, days, true, j) {
        assert forall|j: int| !#[trigger] short_leg(symbol, rows, days, Right::Call, j) by {
            lemma_short_row(symbol, rows, days, true, j);
            assert(!is_short_row(symbol, rows, days, true, j));
        }
    }
}

// --- shares ----------------------------------------------------------------

proof fn lemma_prefix(symbol: Seq<char>, rows: Seq<PositionRow>, r: PositionRow, n: int)
    requires
        0 <= n <= rows.len(),
    ensures
        net_shares(symbol, rows.push(r), n) == net_shares(symbol, rows, n),
        long_shares(symbol, rows.push(r), n) == long_shares(symbol, rows, n),
        long_cost(symbol, rows.push(r), n) == long_cost(symbol, rows, n),
        collateral_of(rows.push(r), n) == collateral_of(rows, n),
    decreases n,
{
    if n > 0 {
        lemma_prefix(symbol, rows, r, n - 1);
        assert(rows.push(r)[n - 1] == rows[n - 1]);
    }
}

/// What a further row adds to the shares held: its position where it is stock of the
/// symbol, nothing otherwise; and, where it is long, its position and what that cost
/// to the basis.
pub proof fn law_shares_add_up(symbol: Seq<char>, rows: Seq<PositionRow>, r: PositionRow)
    ensures
        ({
            let n = rows.len() as int;
            let more = rows.push(r);
            let mine = r.symbol@ == symbol && r.security_type@ == "Stock"@;
            let p = r.position as int;
            &&& net_shares(symbol, rows, 0) == 0
            &&& long_shares(symbol, rows, 0) == 0
            &&& long_cost(symbol, rows, 0) == 0
            &&& mine ==> net_shares(symbol, more, n + 1) == net_shares(symbol, rows, n) + p
            &&& !mine ==> net_shares(symbol, more, n + 1) == net_shares(symbol, rows, n)
            &&& mine && p > 0 ==> long_shares(symbol, more, n + 1) == long_shares(symbol, rows, n)
                + p && long_cost(symbol, more, n + 1) == long_cost(symbol, rows, n) + p
                * r.average_cost
            &&& !mine || p <= 0 ==> long_shares(symbol, more, n + 1) == long_shares(symbol, rows, n)
                && long_cost(symbol, more, n + 1) == long_cost(symbol, rows, n)
        }),
{
    lemma_prefix(symbol, rows, r, rows.len() as int);
    assert(rows.push(r)[rows.len() as int] == r);
}

proof fn lemma_share_bounds(symbol: Seq<char>, rows: Seq<PositionRow>, n: int)
    requires
        rows_wf(rows),
        0 <= n <= rows.len(),
    ensures
        -(MAX_PRICE * n) <= net_shares(symbol, rows, n) <= MAX_PRICE * n,
        0 <= long_shares(symbol, rows, n),
        -(MAX_PRICE * long_shares(symbol, rows, n)) <= long_cost(symbol, rows, n) <= MAX_PRICE
            * long_shares(symbol, rows, n),
    decreases n,
{
    if n > 0 {
        lemma_share_bounds(symbol, rows, n - 1);
        let r = rows[n - 1];
        assert(r.wf());
        let (p, c, h) = (r.position as int, r.average_cost as int, long_shares(symbol, rows, n - 1));
        if p > 0 {
            assert(-(1_000_000_000_000_000 * p) <= p * c <= 1_000_000_000_000_000 * p)
                by (nonlinear_arith)
                requires
                    p > 0,
                    -1_000_000_000_000_000 <= c <= 1_000_000_000_000_000,
            ;
        }
    }
}

/// A lot is offered exactly from a hundred whole shares on: all whole shares held, at
/// the average cost of the long rows, to the millionth below.
pub proof fn law_lot(symbol: Seq<char>, rows: Seq<PositionRow>)
    requires
        rows_wf(rows),
    ensures
        ({
            let n = rows.len() as int;
            let lot = share_lot(symbol, rows);
            let net = net_shares(symbol, rows, n);
            let held = long_shares(symbol, rows, n);
            let cost = long_cost(symbol, rows, n);
            &&& lot is Some <==> net >= 100_000_000
            &&& lot is Some ==> (lot->0).shares * 1_000_000 <= net < ((lot->0).shares + 1)
                * 1_000_000
            &&& lot is Some && held > 0 ==> (lot->0).cost_basis * held <= cost < ((
            lot->0).cost_basis + 1) * held
        }),
{
    let n = rows.len() as int;
    lemma_share_bounds(symbol, rows, n);
    let held = long_shares(symbol, rows, n);
    let cost = long_cost(symbol, rows, n);
    if held > 0 {
        let b = cost / held;
        assert(-1_000_000_000_000_001 <= b <= 1_000_000_000_000_000 && b * held <= cost < (b + 1)
            * held) by (nonlinear_arith)
            requires
                b == cost / held,
                held > 0,
                -(1_000_000_000_000_000 * held) <= cost <= 1_000_000_000_000_000 * held,
        ;
    }
}

// --- calls written, collateral ---------------------------------------------

/// What the `n`-th row adds to the calls that are written: its contracts where it is
/// a short call of the symbol, nothing otherwise.
pub proof fn law_calls_add_up(
    symbol: Seq<char>,
    rows: Seq<PositionRow>,
    days: Seq<Option<int>>,
    n: int,
)
    requires
        0 <= n < rows.len(),
    ensures
        ({
            let more = calls_written(symbol, rows, days, n + 1) - calls_written(
                symbol,
                rows,
                days,
                n,
            );
            &&& calls_written(symbol, rows, days, 0) == 0
            &&& is_short_row(symbol, rows, days, true, n) ==> is_count(rows[n], more)
            &&& !is_short_row(symbol, rows, days, true, n) ==> more == 0
        }),
{
    lemma_short_row(symbol, rows, days, true, n);
}

/// While a short is open, the calls that count as written are all of them, within 32
/// bits.
pub proof fn law_calls_committed(
    symbol: Seq<char>,
    rows: Seq<PositionRow>,
    days: Seq<Option<int>>,
    i: int,
)
    requires
        days.len() == rows.len(),
        is_short_row(symbol, rows, days, false, i) || is_short_row(symbol, rows, days, true, i),
        calls_written(symbol, rows, days, rows.len() as int) <= i32::MAX,
    ensures
        reconciled(symbol, rows, days).committed_call_contracts == calls_written(
            symbol,
            rows,
            days,
            rows.len() as int,
        ),
        reconciled(symbol, rows, days).shares == share_lot(symbol, rows),
{
    lemma_short_row(symbol, rows, days, false, i);
    lemma_short_row(symbol, rows, days, true, i);
    lemma_calls_count(symbol, rows, days, rows.len() as int);
}

proof fn lemma_calls_count(
    symbol: Seq<char>,
    rows: Seq<PositionRow>,
    days: Seq<Option<int>>,
    n: int,
)
    requires
        0 <= n <= rows.len(),
    ensures
        calls_written(symbol, rows, days, n) >= 0,
    decreases n,
{
    if n > 0 {
        lemma_calls_count(symbol, rows, days, n - 1);
    }
}

/// What a further row adds to the cash tied up: a hundred shares at its strike for
/// each contract of a short put, to the millionth below, and nothing otherwise.
pub proof fn law_collateral_adds_up(rows: Seq<PositionRow>, r: PositionRow)
    ensures
        ({
            let n = rows.len() as int;
            let more = collateral_of(rows.push(r), n + 1) - collateral_of(rows, n);
            let sold = r.security_type@ == "Option"@ && r.position < 0 && reads_put(r);
            let cash = r.strike * 100 * (-(r.position as int));
            &&& collateral_of(rows, 0) == 0
            &&& sold ==> more * 1_000_000 <= cash < (more + 1) * 1_000_000
            &&& !sold ==> more == 0
        }),
{
    lemma_prefix(Seq::empty(), rows, r, rows.len() as int);
    assert(rows.push(r)[rows.len() as int] == r);
    assert(row_right(r) == Some(Right::Put) <==> reads_put(r));
}

/// What is stored of a symbol is the state of its holdings and its lot, and no shares where
/// there is no lot.
pub proof fn law_stored_update(u: WheelUpdate, rows: Seq<PositionRow>)
    requires
        is_update(u, rows),
    ensures
        u.state == reconciled(u.symbol@, rows, expiries(rows)).state,
        ({
            let lot = share_lot(u.symbol@, rows);
            &&& lot is Some ==> u.shares == (lot->0).shares && u.cost_basis == (lot->0).cost_basis
            &&& lot is None ==> u.shares == 0 && u.cost_basis == 0
        }),
{
}

} // verus!

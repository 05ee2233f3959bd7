//! From broker holdings to the wheel leg a symbol is in, with the share lot and
//! the open short that the engine needs to advise on it.
//!
//! The broker reports an option's average cost with the contract multiplier in
//! it, so the credit per share is the average cost over the multiplier.

use vstd::prelude::*;
use crate::dates::{day_of_code, opt_day, parse_expiry};
use crate::decimal::{decimal_value, read_decimal};
use crate::engine::types::{OpenShortOption, Right, SharePosition, WheelState};
use crate::fixed::{abs, floor_div, floor_of, min, round_away, MAX_MONEY, SCALE};
use crate::ibkr::{rows_wf, PositionRow, MAX_ROWS};
use crate::text::{chars_of, same_text};

verus! {

/// A symbol's wheel position as its broker holdings show it.
#[derive(Debug, Clone, Copy, PartialEq, Eq, Structural)]
pub struct ReconciledPosition {
    pub state: WheelState,
    /// Shares held.
    pub shares: Option<SharePosition>,
    /// The open short option to manage.
    pub open_short: Option<OpenShortOption>,
    /// The long put under a hedged short put; its `entry_credit` is the debit
    /// paid per share.
    pub protective_long: Option<OpenShortOption>,
    /// Short calls already written against held shares.
    pub committed_call_contracts: i32,
}

impl ReconciledPosition {
    /// No position.
    pub open spec fn idle() -> ReconciledPosition {
        ReconciledPosition {
            state: WheelState::Idle,
            shares: None,
            open_short: None,
            protective_long: None,
            committed_call_contracts: 0,
        }
    }
}

impl Default for ReconciledPosition {
    fn default() -> (r: Self)
        ensures
            r == ReconciledPosition::idle(),
    {
        ReconciledPosition {
            state: WheelState::Idle,
            shares: None,
            open_short: None,
            protective_long: None,
            committed_call_contracts: 0,
        }
    }
}

// --- reading one row -------------------------------------------------------

pub open spec fn stock_row(r: PositionRow) -> bool {
    r.security_type@ == "Stock"@
}

pub open spec fn option_row(r: PositionRow) -> bool {
    r.security_type@ == "Option"@
}

/// The right of a row, by the first letter of its code in either case.
pub open spec fn row_right(r: PositionRow) -> Option<Right> {
    if r.right@.len() == 0 {
        None
    } else if r.right@[0] == 'P' || r.right@[0] == 'p' {
        Some(Right::Put)
    } else if r.right@[0] == 'C' || r.right@[0] == 'c' {
        Some(Right::Call)
    } else {
        None
    }
}

/// The contract multiplier of a row in millionths: 100 where it is missing,
/// unreadable or not positive.
pub open spec fn row_multiplier(r: PositionRow) -> int {
    match decimal_value(r.multiplier@) {
        Some(m) => if m > 0 {
            m
        } else {
            100 * SCALE
        },
        None => 100 * SCALE,
    }
}

/// The credit or debit per share of an option row, rounded down to a millionth,
/// within 64 bits.
pub open spec fn row_credit(r: PositionRow) -> int {
    min(abs(r.average_cost as int) * SCALE / row_multiplier(r), i64::MAX as int)
}

/// Contracts held in a row, to the nearest whole one, within 32 bits.
pub open spec fn row_contracts(r: PositionRow) -> int {
    min(round_away(abs(r.position as int), SCALE as int), i32::MAX as int)
}

/// An option row that expires on `day`, as an open option.
pub open spec fn option_of(r: PositionRow, want: Right, day: int) -> OpenShortOption {
    OpenShortOption {
        right: want,
        strike: r.strike,
        expiry: day as i32,
        entry_credit: row_credit(r) as i64,
        quantity: row_contracts(r) as i32,
    }
}

/// Whether a row is stock.
pub fn is_stock(r: &PositionRow) -> (b: bool)
    ensures
        b == stock_row(*r),
{
    same_text(r.security_type.as_str(), "Stock")
}

/// Whether a row is an option.
pub fn is_option(r: &PositionRow) -> (b: bool)
    ensures
        b == option_row(*r),
{
    same_text(r.security_type.as_str(), "Option")
}

/// The right of a row: any of `P`, `PUT`, `C`, `CALL` in either case.
pub fn right_of(r: &PositionRow) -> (b: Option<Right>)
    ensures
        b == row_right(*r),
{
    let v = chars_of(r.right.as_str());
    if v.len() == 0 {
        None
    } else if v[0] == 'P' || v[0] == 'p' {
        Some(Right::Put)
    } else if v[0] == 'C' || v[0] == 'c' {
        Some(Right::Call)
    } else {
        None
    }
}

/// The contract multiplier of a row in millionths.
pub fn multiplier_of(r: &PositionRow) -> (m: i64)
    ensures
        m == row_multiplier(*r),
        m > 0,
{
    match read_decimal(&chars_of(r.multiplier.as_str())) {
        Some(m) => if m > 0 {
            m
        } else {
            100_000_000
        },
        None => 100_000_000,
    }
}

fn contracts_of(r: &PositionRow) -> (n: i32)
    ensures
        n == row_contracts(*r),
        n >= 0,
{
    let p: i128 = r.position as i128;
    let size: i128 = if p < 0 {
        -p
    } else {
        p
    };
    let n: i128 = (2 * size + 1_000_000) / 2_000_000;
    if n > 2_147_483_647 {
        i32::MAX
    } else {
        n as i32
    }
}

fn as_option(r: &PositionRow, want: Right, day: i32) -> (o: OpenShortOption)
    ensures
        o == option_of(*r, want, day as int),
        o.entry_credit >= 0,
{
    let c: i128 = r.average_cost as i128;
    let size: i128 = if c < 0 {
        -c
    } else {
        c
    };
    let m: i128 = multiplier_of(r) as i128;
    let each: i128 = size * 1_000_000 / m;
    proof {
        assert(each >= 0) by (nonlinear_arith)
            requires
                each == (size * 1_000_000) / m as int,
                size >= 0,
                m > 0,
        ;
    }
    let credit: i64 = if each > i64::MAX as i128 {
        i64::MAX
    } else {
        each as i64
    };
    OpenShortOption {
        right: want,
        strike: r.strike,
        expiry: day,
        entry_credit: credit,
        quantity: contracts_of(r),
    }
}

// --- the share lot ---------------------------------------------------------

/// Whether row `i` is stock of the symbol.
pub open spec fn my_stock(symbol: Seq<char>, rows: Seq<PositionRow>, i: int) -> bool {
    rows[i].symbol@ == symbol && stock_row(rows[i])
}

/// Shares held in the first `n` rows, in millionths.
pub open spec fn net_shares(symbol: Seq<char>, rows: Seq<PositionRow>, n: int) -> int
    decreases n,
{
    if n <= 0 {
        0
    } else {
        net_shares(symbol, rows, n - 1) + if my_stock(symbol, rows, n - 1) {
            rows[n - 1].position as int
        } else {
            0
        }
    }
}

/// Shares in the long rows among the first `n`, in millionths.
pub open spec fn long_shares(symbol: Seq<char>, rows: Seq<PositionRow>, n: int) -> int
    decreases n,
{
    if n <= 0 {
        0
    } else {
        long_shares(symbol, rows, n - 1) + if my_stock(symbol, rows, n - 1) && rows[n - 1].position
            > 0 {
            rows[n - 1].position as int
        } else {
            0
        }
    }
}

/// What the long rows among the first `n` cost.
pub open spec fn long_cost(symbol: Seq<char>, rows: Seq<PositionRow>, n: int) -> int
    decreases n,
{
    if n <= 0 {
        0
    } else {
        long_cost(symbol, rows, n - 1) + if my_stock(symbol, rows, n - 1) && rows[n - 1].position
            > 0 {
            rows[n - 1].position * rows[n - 1].average_cost
        } else {
            0
        }
    }
}

/// Whole shares held, rounded down: a fraction never completes a lot.
pub open spec fn whole_shares(symbol: Seq<char>, rows: Seq<PositionRow>) -> int {
    floor_div(net_shares(symbol, rows, rows.len() as int), SCALE as int)
}

/// The coverable lot: present from 100 whole shares on, its basis the
/// share-weighted cost of the long rows (rounded down to a millionth).
pub open spec fn share_lot(symbol: Seq<char>, rows: Seq<PositionRow>) -> Option<SharePosition> {
    let n = rows.len() as int;
    let held = long_shares(symbol, rows, n);
    if whole_shares(symbol, rows) >= 100 {
        Some(
            SharePosition {
                shares: whole_shares(symbol, rows) as i64,
                cost_basis: (if held > 0 {
                    floor_div(long_cost(symbol, rows, n), held)
                } else {
                    0
                }) as i64,
            },
        )
    } else {
        None
    }
}

fn find_lot(symbol: &str, rows: &[PositionRow]) -> (r: Option<SharePosition>)
    requires
        rows_wf(rows@),
    ensures
        r == share_lot(symbol@, rows@),
        r is Some ==> (r->0).shares == whole_shares(symbol@, rows@),
        r is Some ==> long_shares(symbol@, rows@, rows@.len() as int) > 0 ==> (r->0).cost_basis
            == floor_div(
            long_cost(symbol@, rows@, rows@.len() as int),
            long_shares(symbol@, rows@, rows@.len() as int),
        ),
{
    let mut net: i128 = 0;
    let mut held: i128 = 0;
    let mut cost: i128 = 0;
    let mut i: usize = 0;
    while i < rows.len()
        invariant
            i <= rows@.len(),
            rows_wf(rows@),
            net == net_shares(symbol@, rows@, i as int),
            held == long_shares(symbol@, rows@, i as int),
            cost == long_cost(symbol@, rows@, i as int),
            -(1_000_000_000_000_000 * i) <= net <= 1_000_000_000_000_000 * i,
            0 <= held <= 1_000_000_000_000_000 * i,
            -(1_000_000_000_000_000_000_000_000_000_000 * i) <= cost
                <= 1_000_000_000_000_000_000_000_000_000_000 * i,
            -(1_000_000_000_000_000 * held) <= cost <= 1_000_000_000_000_000 * held,
        decreases rows@.len() - i,
    {
        let r = &rows[i];
        if same_text(r.symbol.as_str(), symbol) && is_stock(r) {
            net = net + r.position as i128;
            if r.position > 0 {
                let p: i128 = r.position as i128;
                let c: i128 = r.average_cost as i128;
                proof {
                    assert(-(1_000_000_000_000_000 * p) <= p * c <= 1_000_000_000_000_000 * p)
                        by (nonlinear_arith)
                        requires
                            p > 0,
                            -1_000_000_000_000_000 <= c <= 1_000_000_000_000_000,
                    ;
                }
                held = held + p;
                cost = cost + p * c;
            }
        }
        i = i + 1;
    }
    let whole: i128 = floor_of(net, 1_000_000);
    if whole >= 100 {
        let basis: i64 = if held > 0 {
            let b: i128 = floor_of(cost, held);
            proof {
                assert(-1_000_000_000_000_001 <= b <= 1_000_000_000_000_000) by (nonlinear_arith)
                    requires
                        b == cost as int / held as int,
                        held > 0,
                        -(1_000_000_000_000_000 * held) <= cost <= 1_000_000_000_000_000 * held,
                ;
            }
            b as i64
        } else {
            0
        };
        Some(SharePosition { shares: whole as i64, cost_basis: basis })
    } else {
        None
    }
}

// --- option legs -----------------------------------------------------------

/// Whether row `i` is a short option of the symbol and right whose expiry is
/// known.
pub open spec fn short_leg(
    symbol: Seq<char>,
    rows: Seq<PositionRow>,
    days: Seq<Option<int>>,
    want: Right,
    i: int,
) -> bool {
    &&& 0 <= i < rows.len()
    &&& rows[i].symbol@ == symbol
    &&& option_row(rows[i])
    &&& rows[i].position < 0
    &&& row_right(rows[i]) == Some(want)
    &&& days[i] is Some
}

/// Whether row `i` is the short leg to manage: the first of those that expire
/// earliest.
pub open spec fn is_urgent(
    symbol: Seq<char>,
    rows: Seq<PositionRow>,
    days: Seq<Option<int>>,
    want: Right,
    i: int,
) -> bool {
    &&& short_leg(symbol, rows, days, want, i)
    &&& forall|j: int| #[trigger]
        short_leg(symbol, rows, days, want, j) ==> days[i]->0 <= days[j]->0 && (j < i ==> days[i]->0
            < days[j]->0)
}

/// The row of the short leg to manage.
pub open spec fn urgent_leg(
    symbol: Seq<char>,
    rows: Seq<PositionRow>,
    days: Seq<Option<int>>,
    want: Right,
) -> Option<int> {
    if exists|i: int| short_leg(symbol, rows, days, want, i) {
        Some(choose|i: int| is_urgent(symbol, rows, days, want, i))
    } else {
        None
    }
}

/// Whether row `i` is a long put of the symbol that protects a short put at
/// `strike` expiring on `day`: the same expiry, a strike below.
pub open spec fn protects(
    symbol: Seq<char>,
    rows: Seq<PositionRow>,
    days: Seq<Option<int>>,
    strike: int,
    day: int,
    i: int,
) -> bool {
    &&& 0 <= i < rows.len()
    &&& rows[i].symbol@ == symbol
    &&& option_row(rows[i])
    &&& rows[i].position > 0
    &&& row_right(rows[i]) == Some(Right::Put)
    &&& days[i] == Some(day)
    &&& rows[i].strike < strike
}

/// Whether row `i` is the paired protection: the last of those with the highest
/// strike.
pub open spec fn is_protection(
    symbol: Seq<char>,
    rows: Seq<PositionRow>,
    days: Seq<Option<int>>,
    strike: int,
    day: int,
    i: int,
) -> bool {
    &&& protects(symbol, rows, days, strike, day, i)
    &&& forall|j: int| #[trigger]
        protects(symbol, rows, days, strike, day, j) ==> rows[j].strike <= rows[i].strike && (j > i
            ==> rows[j].strike < rows[i].strike)
}

/// The row of the paired protection.
pub open spec fn protection(
    symbol: Seq<char>,
    rows: Seq<PositionRow>,
    days: Seq<Option<int>>,
    strike: int,
    day: int,
) -> Option<int> {
    if exists|i: int| protects(symbol, rows, days, strike, day, i) {
        Some(choose|i: int| is_protection(symbol, rows, days, strike, day, i))
    } else {
        None
    }
}

/// Calls written in the first `n` rows, within 32 bits.
pub open spec fn calls_written(
    symbol: Seq<char>,
    rows: Seq<PositionRow>,
    days: Seq<Option<int>>,
    n: int,
) -> int
    decreases n,
{
    if n <= 0 {
        0
    } else {
        calls_written(symbol, rows, days, n - 1) + if short_leg(
            symbol,
            rows,
            days,
            Right::Call,
            n - 1,
        ) {
            row_contracts(rows[n - 1])
        } else {
            0
        }
    }
}

/// The wheel position that the holdings show. An open short put comes first, a
/// hedged one where a long put protects it; then an open short call; then a lot
/// of shares; else nothing. The lot rides along while a short is managed.
pub open spec fn reconciled(
    symbol: Seq<char>,
    rows: Seq<PositionRow>,
    days: Seq<Option<int>>,
) -> ReconciledPosition {
    let lot = share_lot(symbol, rows);
    let written = min(calls_written(symbol, rows, days, rows.len() as int), i32::MAX as int) as i32;
    match urgent_leg(symbol, rows, days, Right::Put) {
        Some(i) => {
            let day = days[i]->0;
            let hedge = protection(symbol, rows, days, rows[i].strike as int, day);
            ReconciledPosition {
                state: if hedge is Some {
                    WheelState::HedgedShortPut
                } else {
                    WheelState::ShortPut
                },
                shares: lot,
                open_short: Some(option_of(rows[i], Right::Put, day)),
                protective_long: match hedge {
                    Some(j) => Some(option_of(rows[j], Right::Put, day)),
                    None => None,
                },
                committed_call_contracts: written,
            }
        },
        None => match urgent_leg(symbol, rows, days, Right::Call) {
            Some(i) => ReconciledPosition {
                state: WheelState::ShortCall,
                shares: lot,
                open_short: Some(option_of(rows[i], Right::Call, days[i]->0)),
                protective_long: None,
                committed_call_contracts: written,
            },
            None => if lot is Some {
                ReconciledPosition {
                    state: WheelState::LongShares,
                    shares: lot,
                    open_short: None,
                    protective_long: None,
                    committed_call_contracts: 0,
                }
            } else {
                ReconciledPosition::idle()
            },
        },
    }
}

/// A list of optional days as numbers.
pub open spec fn day_list(days: Seq<Option<i32>>) -> Seq<Option<int>> {
    days.map_values(|d: Option<i32>| opt_day(d))
}

/// The expiry of each row, `None` where it cannot be read.
pub open spec fn expiries(rows: Seq<PositionRow>) -> Seq<Option<int>> {
    rows.map_values(|r: PositionRow| day_of_code(r.expiry@))
}

fn is_short_leg(
    symbol: &str,
    rows: &[PositionRow],
    days: &Vec<Option<i32>>,
    want: Right,
    i: usize,
) -> (r: bool)
    requires
        i < rows@.len() == days@.len(),
    ensures
        r == short_leg(symbol@, rows@, day_list(days@), want, i as int),
{
    let row = &rows[i];
    assert(day_list(days@)[i as int] == opt_day(days@[i as int]));
    let wanted = match right_of(row) {
        Some(x) => x == want,
        None => false,
    };
    same_text(row.symbol.as_str(), symbol) && is_option(row) && row.position < 0 && wanted
        && days[i].is_some()
}

fn find_urgent(symbol: &str, rows: &[PositionRow], days: &Vec<Option<i32>>, want: Right) -> (r:
    Option<(usize, i32)>)
    requires
        rows@.len() == days@.len(),
    ensures
        r is Some <==> urgent_leg(symbol@, rows@, day_list(days@), want) is Some,
        r is Some ==> (r->0).0 < rows@.len() && (r->0).0 == urgent_leg(
            symbol@,
            rows@,
            day_list(days@),
            want,
        )->0 && day_list(days@)[(r->0).0 as int] == Some((r->0).1 as int),
{
    let ghost d = day_list(days@);
    let mut best: Option<(usize, i32)> = None;
    let mut i: usize = 0;
    while i < rows.len()
        invariant
            i <= rows@.len() == days@.len(),
            d == day_list(days@),
            best is None ==> forall|j: int|
                0 <= j < i ==> !#[trigger] short_leg(symbol@, rows@, d, want, j),
            best is Some ==> (best->0).0 < i && short_leg(
                symbol@,
                rows@,
                d,
                want,
                (best->0).0 as int,
            ) && d[(best->0).0 as int] == Some((best->0).1 as int) && (forall|j: int|
                0 <= j < i && #[trigger] short_leg(symbol@, rows@, d, want, j) ==> (best->0).1
                    <= d[j]->0 && (j < (best->0).0 ==> (best->0).1 < d[j]->0)),
        decreases rows@.len() - i,
    {
        if is_short_leg(symbol, rows, days, want, i) {
            assert(d[i as int] == opt_day(days@[i as int]));
            if let Some(day) = days[i] {
                let sooner = match best {
                    None => true,
                    Some((_, b)) => day < b,
                };
                if sooner {
                    best = Some((i, day));
                }
            }
        }
        i = i + 1;
    }
    proof {
        match best {
            Some((k, _)) => {
                assert(is_urgent(symbol@, rows@, d, want, k as int));
                let c = choose|c: int| is_urgent(symbol@, rows@, d, want, c);
                assert(is_urgent(symbol@, rows@, d, want, c));
                assert(short_leg(symbol@, rows@, d, want, c));
                assert(short_leg(symbol@, rows@, d, want, k as int));
                assert(c == k);
            },
            None => {},
        }
    }
    best
}

fn find_protection(
    symbol: &str,
    rows: &[PositionRow],
    days: &Vec<Option<i32>>,
    strike: i64,
    day: i32,
) -> (r: Option<usize>)
    requires
        rows@.len() == days@.len(),
    ensures
        r is Some <==> protection(
            symbol@,
            rows@,
            day_list(days@),
            strike as int,
            day as int,
        ) is Some,
        r is Some ==> r->0 < rows@.len() && r->0 == protection(
            symbol@,
            rows@,
            day_list(days@),
            strike as int,
            day as int,
        )->0,
{
    let ghost d = day_list(days@);
    let mut best: Option<usize> = None;
    let mut i: usize = 0;
    while i < rows.len()
        invariant
            i <= rows@.len() == days@.len(),
            d == day_list(days@),
            best is None ==> forall|j: int|
                0 <= j < i ==> !#[trigger] protects(
                    symbol@,
                    rows@,
                    d,
                    strike as int,
                    day as int,
                    j,
                ),
            best is Some ==> best->0 < i && protects(
                symbol@,
                rows@,
                d,
                strike as int,
                day as int,
                best->0 as int,
            ) && (forall|j: int|
                0 <= j < i && #[trigger] protects(symbol@, rows@, d, strike as int, day as int, j)
                    ==> rows@[j].strike <= rows@[best->0 as int].strike && (j > best->0
                    ==> rows@[j].strike < rows@[best->0 as int].strike)),
        decreases rows@.len() - i,
    {
        let row = &rows[i];
        assert(d[i as int] == opt_day(days@[i as int]));
        let put = match right_of(row) {
            Some(x) => x == Right::Put,
            None => false,
        };
        let dated = match days[i] {
            Some(x) => x == day,
            None => false,
        };
        if same_text(row.symbol.as_str(), symbol) && is_option(row) && row.position > 0 && put
            && dated && row.strike < strike {
            let tighter = match best {
                None => true,
                Some(b) => row.strike >= rows[b].strike,
            };
            if tighter {
                best = Some(i);
            }
        }
        i = i + 1;
    }
    proof {
        match best {
            Some(k) => {
                let (s, t) = (strike as int, day as int);
                assert(is_protection(symbol@, rows@, d, s, t, k as int));
                let c = choose|c: int| is_protection(symbol@, rows@, d, s, t, c);
                assert(is_protection(symbol@, rows@, d, s, t, c));
                assert(protects(symbol@, rows@, d, s, t, c));
                assert(protects(symbol@, rows@, d, s, t, k as int));
                assert(c == k);
            },
            None => {},
        }
    }
    best
}

fn count_calls(symbol: &str, rows: &[PositionRow], days: &Vec<Option<i32>>) -> (r: i32)
    requires
        rows@.len() == days@.len(),
        rows@.len() <= MAX_ROWS,
    ensures
        r == min(
            calls_written(symbol@, rows@, day_list(days@), rows@.len() as int),
            i32::MAX as int,
        ),
{
    let mut sum: i64 = 0;
    let mut i: usize = 0;
    while i < rows.len()
        invariant
            i <= rows@.len() == days@.len(),
            rows@.len() <= MAX_ROWS,
            sum == calls_written(symbol@, rows@, day_list(days@), i as int),
            0 <= sum <= 2_147_483_647 * i,
        decreases rows@.len() - i,
    {
        if is_short_leg(symbol, rows, days, Right::Call, i) {
            let n: i32 = contracts_of(&rows[i]);
            sum = sum + n as i64;
        }
        i = i + 1;
    }
    if sum > 2_147_483_647 {
        i32::MAX
    } else {
        sum as i32
    }
}

/// The wheel leg of a symbol from its holdings and the day each row expires on.
pub fn reconcile_dated(symbol: &str, rows: &[PositionRow], days: &Vec<Option<i32>>) -> (r:
    ReconciledPosition)
    requires
        rows_wf(rows@),
        days@.len() == rows@.len(),
    ensures
        r == reconciled(symbol@, rows@, day_list(days@)),
{
    let lot = find_lot(symbol, rows);
    let written: i32 = count_calls(symbol, rows, days);
    if let Some((i, day)) = find_urgent(symbol, rows, days, Right::Put) {
        let short = as_option(&rows[i], Right::Put, day);
        let hedge = find_protection(symbol, rows, days, rows[i].strike, day);
        return match hedge {
            Some(j) => ReconciledPosition {
                state: WheelState::HedgedShortPut,
                shares: lot,
                open_short: Some(short),
                protective_long: Some(as_option(&rows[j], Right::Put, day)),
                committed_call_contracts: written,
            },
            None => ReconciledPosition {
                state: WheelState::ShortPut,
                shares: lot,
                open_short: Some(short),
                protective_long: None,
                committed_call_contracts: written,
            },
        };
    }
    if let Some((i, day)) = find_urgent(symbol, rows, days, Right::Call) {
        return ReconciledPosition {
            state: WheelState::ShortCall,
            shares: lot,
            open_short: Some(as_option(&rows[i], Right::Call, day)),
            protective_long: None,
            committed_call_contracts: written,
        };
    }
    if lot.is_some() {
        ReconciledPosition {
            state: WheelState::LongShares,
            shares: lot,
            open_short: None,
            protective_long: None,
            committed_call_contracts: 0,
        }
    } else {
        ReconciledPosition::default()
    }
}

/// Reads the expiry of each row.
pub fn read_expiries(rows: &[PositionRow]) -> (r: Vec<Option<i32>>)
    ensures
        r@.len() == rows@.len(),
        day_list(r@) == expiries(rows@),
{
    let mut out: Vec<Option<i32>> = Vec::new();
    let mut i: usize = 0;
    while i < rows.len()
        invariant
            i <= rows@.len(),
            out@.len() == i,
            forall|j: int|
                0 <= j < i ==> opt_day(#[trigger] out@[j]) == day_of_code(rows@[j].expiry@),
        decreases rows@.len() - i,
    {
        let day = parse_expiry(rows[i].expiry.as_str());
        out.push(day);
        i = i + 1;
    }
    assert(day_list(out@) =~= expiries(rows@));
    out
}

/// Groups a symbol's holdings into its current wheel leg. Legs whose expiry
/// cannot be read are left out; of several short legs of one right the earliest
/// expiry is managed.
pub fn reconcile(symbol: &str, rows: &[PositionRow]) -> (r: ReconciledPosition)
    requires
        rows_wf(rows@),
    ensures
        r == reconciled(symbol@, rows@, expiries(rows@)),
{
    let days = read_expiries(rows);
    reconcile_dated(symbol, rows, &days)
}

// --- deployed collateral ---------------------------------------------------

/// The collateral of a row: the notional of a short put, nothing otherwise.
pub open spec fn row_collateral(r: PositionRow) -> int {
    if option_row(r) && r.position < 0 && row_right(r) == Some(Right::Put) {
        r.strike * 100 * -(r.position as int) / SCALE as int
    } else {
        0
    }
}

/// The collateral of the first `n` rows.
pub open spec fn collateral_of(rows: Seq<PositionRow>, n: int) -> int
    decreases n,
{
    if n <= 0 {
        0
    } else {
        collateral_of(rows, n - 1) + row_collateral(rows[n - 1])
    }
}

/// Collateral tied up by all open short puts: strike times 100 times contracts,
/// each rounded down to a millionth.
pub fn deployed_put_collateral(rows: &[PositionRow]) -> (r: i128)
    requires
        rows_wf(rows@),
    ensures
        r == collateral_of(rows@, rows@.len() as int),
        -20 * MAX_MONEY <= r <= 20 * MAX_MONEY,
{
    let mut sum: i128 = 0;
    let mut i: usize = 0;
    while i < rows.len()
        invariant
            i <= rows@.len(),
            rows_wf(rows@),
            sum == collateral_of(rows@, i as int),
            -(100_000_000_000_000_000_000_000_001 * i) <= sum
                <= 100_000_000_000_000_000_000_000_001 * i,
        decreases rows@.len() - i,
    {
        let r = &rows[i];
        let put = match right_of(r) {
            Some(x) => x == Right::Put,
            None => false,
        };
        if is_option(r) && r.position < 0 && put {
            let k: i128 = r.strike as i128 * 100;
            let n: i128 = -(r.position as i128);
            proof {
                assert(-100_000_000_000_000_000_000_000_000_000_000 <= k * n
                    <= 100_000_000_000_000_000_000_000_000_000_000) by (nonlinear_arith)
                    requires
                        -100_000_000_000_000_000 <= k <= 100_000_000_000_000_000,
                        0 <= n <= 1_000_000_000_000_000,
                ;
            }
            sum = sum + floor_of(k * n, 1_000_000);
        }
        i = i + 1;
    }
    sum
}

// --- laws ------------------------------------------------------------------

spec fn leads(
    symbol: Seq<char>,
    rows: Seq<PositionRow>,
    days: Seq<Option<int>>,
    want: Right,
    n: int,
    k: int,
) -> bool {
    &&& 0 <= k < n
    &&& short_leg(symbol, rows, days, want, k)
    &&& forall|j: int|
        0 <= j < n && #[trigger] short_leg(symbol, rows, days, want, j) ==> days[k]->0 <= days[j]->0
            && (j < k ==> days[k]->0 < days[j]->0)
}

proof fn find_lead(
    symbol: Seq<char>,
    rows: Seq<PositionRow>,
    days: Seq<Option<int>>,
    want: Right,
    n: int,
    i: int,
) -> (k: int)
    requires
        0 <= i < n <= rows.len(),
        short_leg(symbol, rows, days, want, i),
    ensures
        leads(symbol, rows, days, want, n, k),
    decreases n,
{
    let last = short_leg(symbol, rows, days, want, n - 1);
    if exists|j: int| 0 <= j < n - 1 && short_leg(symbol, rows, days, want, j) {
        let j = choose|j: int| 0 <= j < n - 1 && short_leg(symbol, rows, days, want, j);
        let k = find_lead(symbol, rows, days, want, n - 1, j);
        if last && days[n - 1]->0 < days[k]->0 {
            n - 1
        } else {
            k
        }
    } else {
        assert(i == n - 1);
        n - 1
    }
}

pub proof fn lemma_urgent(
    symbol: Seq<char>,
    rows: Seq<PositionRow>,
    days: Seq<Option<int>>,
    want: Right,
)
    requires
        days.len() == rows.len(),
        exists|i: int| short_leg(symbol, rows, days, want, i),
    ensures
        is_urgent(symbol, rows, days, want, urgent_leg(symbol, rows, days, want)->0),
{
    let i = choose|i: int| short_leg(symbol, rows, days, want, i);
    let k = find_lead(symbol, rows, days, want, rows.len() as int, i);
    assert(is_urgent(symbol, rows, days, want, k));
}

/// An open short is never dropped: where a short put is held the symbol is in a
/// short-put state and the put that expires first is the one managed; else where
/// a short call is held it is managed; and covered calls are only offered on a
/// symbol without an open short.
pub proof fn law_open_short_never_dropped(
    symbol: Seq<char>,
    rows: Seq<PositionRow>,
    days: Seq<Option<int>>,
    i: int,
)
    requires
        days.len() == rows.len(),
        short_leg(symbol, rows, days, Right::Put, i) || short_leg(
            symbol,
            rows,
            days,
            Right::Call,
            i,
        ),
        forall|j: int| 0 <= j < days.len() && (#[trigger] days[j]) is Some ==> i32::MIN <= days[j]->0
            <= i32::MAX,
    ensures
        ({
            let r = reconciled(symbol, rows, days);
            &&& r.open_short is Some
            &&& r.shares == share_lot(symbol, rows)
            &&& (short_leg(symbol, rows, days, Right::Put, i) ==> (r.state == WheelState::ShortPut
                || r.state == WheelState::HedgedShortPut) && (r.open_short->0).right == Right::Put
                && (r.open_short->0).expiry <= days[i]->0)
            &&& r.state != WheelState::Idle
            &&& r.state != WheelState::LongShares
        }),
{
    if exists|k: int| short_leg(symbol, rows, days, Right::Put, k) {
        lemma_urgent(symbol, rows, days, Right::Put);
        let u = urgent_leg(symbol, rows, days, Right::Put)->0;
        assert(is_urgent(symbol, rows, days, Right::Put, u));
        assert(days[u] is Some);
    } else {
        assert(!short_leg(symbol, rows, days, Right::Put, i));
        assert(short_leg(symbol, rows, days, Right::Call, i));
        lemma_urgent(symbol, rows, days, Right::Call);
    }
}

spec fn tightest(
    symbol: Seq<char>,
    rows: Seq<PositionRow>,
    days: Seq<Option<int>>,
    strike: int,
    day: int,
    n: int,
    k: int,
) -> bool {
    &&& 0 <= k < n
    &&& protects(symbol, rows, days, strike, day, k)
    &&& forall|j: int|
        0 <= j < n && #[trigger] protects(symbol, rows, days, strike, day, j) ==> rows[j].strike
            <= rows[k].strike && (j > k ==> rows[j].strike < rows[k].strike)
}

proof fn find_tightest(
    symbol: Seq<char>,
    rows: Seq<PositionRow>,
    days: Seq<Option<int>>,
    strike: int,
    day: int,
    n: int,
    i: int,
) -> (k: int)
    requires
        0 <= i < n <= rows.len(),
        protects(symbol, rows, days, strike, day, i),
    ensures
        tightest(symbol, rows, days, strike, day, n, k),
    decreases n,
{
    let last = protects(symbol, rows, days, strike, day, n - 1);
    if exists|j: int| 0 <= j < n - 1 && protects(symbol, rows, days, strike, day, j) {
        let j = choose|j: int| 0 <= j < n - 1 && protects(symbol, rows, days, strike, day, j);
        let k = find_tightest(symbol, rows, days, strike, day, n - 1, j);
        if last && rows[n - 1].strike >= rows[k].strike {
            n - 1
        } else {
            k
        }
    } else {
        assert(i == n - 1);
        n - 1
    }
}

pub proof fn lemma_protection(
    symbol: Seq<char>,
    rows: Seq<PositionRow>,
    days: Seq<Option<int>>,
    strike: int,
    day: int,
)
    requires
        exists|i: int| protects(symbol, rows, days, strike, day, i),
    ensures
        is_protection(
            symbol,
            rows,
            days,
            strike,
            day,
            protection(symbol, rows, days, strike, day)->0,
        ),
{
    let i = choose|i: int| protects(symbol, rows, days, strike, day, i);
    let k = find_tightest(symbol, rows, days, strike, day, rows.len() as int, i);
    assert(is_protection(symbol, rows, days, strike, day, k));
}

/// A short put counts as hedged exactly where a long put of the same expiry is
/// held at a lower strike, and the protection shown is the tightest one.
pub proof fn law_hedge_is_tightest(
    symbol: Seq<char>,
    rows: Seq<PositionRow>,
    days: Seq<Option<int>>,
    i: int,
)
    requires
        days.len() == rows.len(),
        urgent_leg(symbol, rows, days, Right::Put) is Some,
    ensures
        ({
            let r = reconciled(symbol, rows, days);
            let u = urgent_leg(symbol, rows, days, Right::Put)->0;
            let (strike, day) = (rows[u].strike as int, days[u]->0);
            &&& r.state == WheelState::HedgedShortPut <==> exists|j: int|
                protects(symbol, rows, days, strike, day, j)
            &&& r.protective_long is Some <==> r.state == WheelState::HedgedShortPut
            &&& r.protective_long is Some ==> (r.protective_long->0).strike
                < (r.open_short->0).strike && (r.protective_long->0).expiry
                == (r.open_short->0).expiry
            &&& protects(symbol, rows, days, strike, day, i) ==> rows[i].strike
                <= (r.protective_long->0).strike
        }),
{
    let u = urgent_leg(symbol, rows, days, Right::Put)->0;
    let (strike, day) = (rows[u].strike as int, days[u]->0);
    if exists|j: int| protects(symbol, rows, days, strike, day, j) {
        lemma_protection(symbol, rows, days, strike, day);
    }
}

/// A lot is never made up of a fraction: what is offered for covered calls is at
/// least 100 shares and no more than is held.
pub proof fn law_lot_is_whole(symbol: Seq<char>, rows: Seq<PositionRow>)
    requires
        share_lot(symbol, rows) is Some,
    ensures
        whole_shares(symbol, rows) >= 100,
        whole_shares(symbol, rows) * SCALE <= net_shares(symbol, rows, rows.len() as int),
{
}

/// A symbol of which nothing is held is idle, whatever else the account holds.
pub proof fn law_vanished_goes_idle(
    symbol: Seq<char>,
    rows: Seq<PositionRow>,
    days: Seq<Option<int>>,
)
    requires
        forall|i: int| 0 <= i < rows.len() ==> (#[trigger] rows[i]).symbol@ != symbol,
    ensures
        reconciled(symbol, rows, days) == ReconciledPosition::idle(),
{
    lemma_no_shares(symbol, rows, rows.len() as int);
}

proof fn lemma_no_shares(symbol: Seq<char>, rows: Seq<PositionRow>, n: int)
    requires
        0 <= n <= rows.len(),
        forall|i: int| 0 <= i < rows.len() ==> (#[trigger] rows[i]).symbol@ != symbol,
    ensures
        net_shares(symbol, rows, n) == 0,
    decreases n,
{
    if n > 0 {
        lemma_no_shares(symbol, rows, n - 1);
    }
}

} // verus!

//! Between broker, store and engine: which symbols to advise on, which contracts
//! to quote, and what the answers mean.

use vstd::prelude::*;
use vstd::string::*;
use crate::dates::{day_of_code, dte, opt_day, parse_expiry};
use crate::engine::structures::pick::{is_otm, otm};
use crate::engine::types::{EngineConfig, OptionQuote, Right, WheelState};
use crate::fixed::{
    abs, cents, floor_div, floor_of, is_price, max, round_cents, SCALE,
};
use crate::ibkr::{rows_wf, PositionRow, SnapshotData, Tradability};
use crate::lists::{sample_spread, sampled, sort, sorted};
use crate::positions::{expiries, option_row, reconcile, reconciled};
use crate::store::models::WatchlistRow;
use crate::text::{
    chars_of, contains_text, has_part, holds_text, lower_text, lowered, own, same_text, upper,
    upper_char,
};

verus! {

/// Most strikes of a wheel chain that are quoted.
pub const MAX_CHAIN_STRIKES: usize = 12;

/// Most strikes of a structure chain that are quoted.
pub const MAX_STRUCTURE_STRIKES: usize = 40;

/// How far out of the money a wheel chain reaches, as a fraction of spot.
pub const MAX_OTM_MONEYNESS: i64 = 150_000;

/// How far from spot a structure chain reaches to each side.
pub const STRUCTURE_OTM_MONEYNESS: i64 = 25_000;

/// Days to expiration that the tradability probe aims for.
pub const PROBE_DTE: i64 = 35;

// --- tradability -----------------------------------------------------------

/// Whether a rejection reads like a trading permission that is missing for good:
/// one of the known words, and not a word on market data.
pub open spec fn permission_block(reason: Seq<char>) -> bool {
    let r = lower_text(reason);
    &&& !contains_text(r, "market data"@)
    &&& !contains_text(r, "market-data"@)
    &&& {
        ||| contains_text(r, "priips"@)
        ||| contains_text(r, "kid"@)
        ||| contains_text(r, "prohibited"@)
        ||| contains_text(r, "trading permission"@)
        ||| contains_text(r, "not allowed"@)
        ||| contains_text(r, "not permitted"@)
        ||| contains_text(r, "professional"@)
    }
}

/// Whether a what-if rejection is a durable trading-permission block, as opposed
/// to a failure worth retrying. Missing market-data permissions are no block.
pub fn is_permission_block(reason: &str) -> (b: bool)
    ensures
        b == permission_block(reason@),
{
    let r = lowered(reason);
    if has_part(&r, "market data") || has_part(&r, "market-data") {
        return false;
    }
    has_part(&r, "priips") || has_part(&r, "kid") || has_part(&r, "prohibited") || has_part(
        &r,
        "trading permission",
    ) || has_part(&r, "not allowed") || has_part(&r, "not permitted") || has_part(
        &r,
        "professional",
    )
}

/// What a tradability probe decides.
#[derive(Debug, Clone)]
pub enum ProbeVerdict {
    /// The symbol may be traded.
    Allow,
    /// The symbol is blocked, for the given reason.
    Block(String),
    /// Not conclusive: leave the symbol unknown and try again later.
    Retry,
}

/// What to record of a probe: only a recognised permission rejection blocks.
pub fn probe_verdict(t: Tradability) -> (r: ProbeVerdict)
    ensures
        t is Allowed ==> r is Allow,
        t is Blocked && permission_block(t->Blocked_0@) ==> r is Block && r->Block_0 == t->Blocked_0,
        t is Blocked && !permission_block(t->Blocked_0@) ==> r is Retry,
{
    match t {
        Tradability::Allowed { .. } => ProbeVerdict::Allow,
        Tradability::Blocked(reason) => {
            if is_permission_block(reason.as_str()) {
                ProbeVerdict::Block(reason)
            } else {
                ProbeVerdict::Retry
            }
        },
    }
}

/// Whether a watchlist symbol is to be probed: enabled and still unknown.
pub fn needs_probe(w: &WatchlistRow) -> (r: bool)
    ensures
        r == (w.on() && w.tradable is None),
{
    w.is_enabled() && w.tradable.is_none()
}

// --- strikes ---------------------------------------------------------------

/// Whether the `i`-th strike is the first of the positive ones nearest to the
/// target.
pub open spec fn is_nearest(strikes: Seq<i64>, target: int, i: int) -> bool {
    &&& 0 <= i < strikes.len()
    &&& strikes[i] > 0
    &&& forall|j: int|
        0 <= j < strikes.len() && #[trigger] strikes[j] > 0 ==> abs(strikes[i] - target) <= abs(
            strikes[j] - target,
        ) && (j < i ==> abs(strikes[i] - target) < abs(strikes[j] - target))
}

/// Whether `r` is the positive strike nearest to the target, `None` where none is
/// positive.
pub open spec fn nearest_answer(strikes: Seq<i64>, target: int, r: Option<i64>) -> bool {
    match r {
        Some(k) => exists|i: int| is_nearest(strikes, target, i) && strikes[i] == k,
        None => forall|i: int| 0 <= i < strikes.len() ==> #[trigger] strikes[i] <= 0,
    }
}

/// The listed strike nearest to `target`, positive strikes only.
pub fn nearest_strike(strikes: &[i64], target: i64) -> (r: Option<i64>)
    ensures
        nearest_answer(strikes@, target as int, r),
{
    let mut best: Option<(i128, usize)> = None;
    let mut i: usize = 0;
    while i < strikes.len()
        invariant
            i <= strikes@.len(),
            best is None ==> forall|j: int| 0 <= j < i ==> #[trigger] strikes@[j] <= 0,
            best is Some ==> (best->0).1 < i && strikes@[(best->0).1 as int] > 0 && (best->0).0
                == abs(strikes@[(best->0).1 as int] - target) && (forall|j: int|
                0 <= j < i && #[trigger] strikes@[j] > 0 ==> (best->0).0 <= abs(
                    strikes@[j] - target,
                ) && (j < (best->0).1 ==> (best->0).0 < abs(strikes@[j] - target))),
        decreases strikes@.len() - i,
    {
        let k: i64 = strikes[i];
        if k > 0 {
            let off: i128 = k as i128 - target as i128;
            let gap: i128 = if off < 0 {
                -off
            } else {
                off
            };
            let nearer = match best {
                None => true,
                Some((b, _)) => gap < b,
            };
            if nearer {
                best = Some((gap, i));
            }
        }
        i = i + 1;
    }
    match best {
        None => None,
        Some((_, k)) => {
            assert(is_nearest(strikes@, target as int, k as int));
            Some(strikes[k])
        },
    }
}

/// The positive numbers of a list.
pub open spec fn positive(s: Seq<i64>) -> Seq<i64>
    decreases s.len(),
{
    if s.len() == 0 {
        s
    } else if s.last() > 0 {
        positive(s.drop_last()).push(s.last())
    } else {
        positive(s.drop_last())
    }
}

/// The strike that a permission probe aims at: 85 hundredths of spot (rounded
/// down to a millionth), or the median listed strike where spot is unknown.
pub open spec fn probe_aim(strikes: Seq<i64>, spot: int) -> Option<int> {
    if spot > 0 {
        Some(spot * 85 / 100)
    } else if positive(strikes).len() == 0 {
        None
    } else {
        Some(sorted(positive(strikes))[positive(strikes).len() as int / 2] as int)
    }
}

/// A clearly out-of-the-money listed put strike for a permission probe.
pub fn far_otm_put_strike(strikes: &[i64], spot: i64) -> (r: Option<i64>)
    ensures
        match probe_aim(strikes@, spot as int) {
            Some(aim) => nearest_answer(strikes@, aim, r),
            None => r is None,
        },
{
    let target: i64 = if spot > 0 {
        (spot as i128 * 85 / 100) as i64
    } else {
        let mut pos: Vec<i64> = Vec::new();
        let mut i: usize = 0;
        assert(strikes@.take(0) =~= Seq::empty());
        while i < strikes.len()
            invariant
                i <= strikes@.len(),
                pos@ == positive(strikes@.take(i as int)),
            decreases strikes@.len() - i,
        {
            assert(strikes@.take(i + 1).drop_last() =~= strikes@.take(i as int));
            if strikes[i] > 0 {
                pos.push(strikes[i]);
            }
            i = i + 1;
        }
        assert(strikes@.take(i as int) =~= strikes@);
        if pos.len() == 0 {
            return None;
        }
        let s = sort(&pos);
        s[s.len() / 2]
    };
    nearest_strike(strikes, target)
}

/// How far out of the money a strike is, as a fraction of spot in millionths
/// (rounded down); unbounded (`None`) where there is no spot.
pub open spec fn moneyness_of(right: Right, strike: int, spot: int) -> Option<int> {
    if spot <= 0 {
        None
    } else {
        match right {
            Right::Put => Some(floor_div((spot - strike) * SCALE, spot)),
            Right::Call => Some(floor_div((strike - spot) * SCALE, spot)),
        }
    }
}

/// How far out of the money a strike is, as a fraction of spot in millionths.
pub fn moneyness(right: Right, strike: i64, spot: i64) -> (r: Option<i128>)
    ensures
        r is Some <==> moneyness_of(right, strike as int, spot as int) is Some,
        r is Some ==> r->0 == moneyness_of(right, strike as int, spot as int)->0,
{
    if spot <= 0 {
        return None;
    }
    let (k, s): (i128, i128) = (strike as i128, spot as i128);
    let apart: i128 = match right {
        Right::Put => s - k,
        Right::Call => k - s,
    };
    Some(floor_of(apart * 1_000_000, s))
}

/// Whether a strike belongs to a wheel chain: positive, out of the money, and no
/// further out than the configured fraction of spot.
pub open spec fn in_wheel_band(right: Right, strike: int, spot: int) -> bool {
    &&& strike > 0
    &&& otm(right, strike, spot)
    &&& abs(spot - strike) * SCALE <= MAX_OTM_MONEYNESS * spot
}

/// Whether a strike belongs to a structure chain: positive and near spot.
pub open spec fn in_structure_band(strike: int, spot: int) -> bool {
    strike > 0 && abs(spot - strike) * SCALE <= STRUCTURE_OTM_MONEYNESS * spot
}

/// The strikes of a list that belong to a wheel chain.
pub open spec fn wheel_band(s: Seq<i64>, right: Right, spot: int) -> Seq<i64>
    decreases s.len(),
{
    if s.len() == 0 {
        s
    } else if in_wheel_band(right, s.last() as int, spot) {
        wheel_band(s.drop_last(), right, spot).push(s.last())
    } else {
        wheel_band(s.drop_last(), right, spot)
    }
}

/// The strikes of a list that belong to a structure chain.
pub open spec fn structure_band(s: Seq<i64>, spot: int) -> Seq<i64>
    decreases s.len(),
{
    if s.len() == 0 {
        s
    } else if in_structure_band(s.last() as int, spot) {
        structure_band(s.drop_last(), spot).push(s.last())
    } else {
        structure_band(s.drop_last(), spot)
    }
}

/// The strikes to quote for an entry or a covered call: those of the band, spread
/// across it, so that the target-delta band is covered.
pub fn wheel_strikes(strikes: &[i64], right: Right, spot: i64) -> (r: Vec<i64>)
    requires
        spot > 0,
    ensures
        r@ == sampled(
            sorted(wheel_band(strikes@, right, spot as int)),
            MAX_CHAIN_STRIKES as int,
        ),
{
    let mut band: Vec<i64> = Vec::new();
    let mut i: usize = 0;
    assert(strikes@.take(0) =~= Seq::empty());
    while i < strikes.len()
        invariant
            i <= strikes@.len(),
            spot > 0,
            band@ == wheel_band(strikes@.take(i as int), right, spot as int),
        decreases strikes@.len() - i,
    {
        assert(strikes@.take(i + 1).drop_last() =~= strikes@.take(i as int));
        let k: i64 = strikes[i];
        let apart: i128 = spot as i128 - k as i128;
        let size: i128 = if apart < 0 {
            -apart
        } else {
            apart
        };
        if k > 0 && is_otm(right, k, spot) && size * 1_000_000 <= 150_000 * spot as i128 {
            band.push(k);
        }
        i = i + 1;
    }
    assert(strikes@.take(i as int) =~= strikes@);
    sample_spread(&sort(&band), MAX_CHAIN_STRIKES)
}

/// The strikes to quote for a structure.
pub fn structure_strikes(strikes: &[i64], spot: i64) -> (r: Vec<i64>)
    requires
        spot > 0,
    ensures
        r@ == sampled(
            sorted(structure_band(strikes@, spot as int)),
            MAX_STRUCTURE_STRIKES as int,
        ),
{
    let mut band: Vec<i64> = Vec::new();
    let mut i: usize = 0;
    assert(strikes@.take(0) =~= Seq::empty());
    while i < strikes.len()
        invariant
            i <= strikes@.len(),
            spot > 0,
            band@ == structure_band(strikes@.take(i as int), spot as int),
        decreases strikes@.len() - i,
    {
        assert(strikes@.take(i + 1).drop_last() =~= strikes@.take(i as int));
        let k: i64 = strikes[i];
        let apart: i128 = spot as i128 - k as i128;
        let size: i128 = if apart < 0 {
            -apart
        } else {
            apart
        };
        if k > 0 && size * 1_000_000 <= 25_000 * spot as i128 {
            band.push(k);
        }
        i = i + 1;
    }
    assert(strikes@.take(i as int) =~= strikes@);
    sample_spread(&sort(&band), MAX_STRUCTURE_STRIKES)
}

/// The contracts to quote for a structure: a put and a call at each strike.
pub open spec fn both_sides(strikes: Seq<i64>) -> Seq<(i64, Right)>
    decreases strikes.len(),
{
    if strikes.len() == 0 {
        Seq::empty()
    } else {
        both_sides(strikes.drop_last()).push((strikes.last(), Right::Put)).push(
            (strikes.last(), Right::Call),
        )
    }
}

/// The contracts to quote for a structure, in the order of the strikes.
pub fn request_grid(strikes: &Vec<i64>) -> (r: Vec<(i64, Right)>)
    ensures
        r@ == both_sides(strikes@),
{
    let mut out: Vec<(i64, Right)> = Vec::new();
    let mut i: usize = 0;
    assert(strikes@.take(0) =~= Seq::empty());
    while i < strikes.len()
        invariant
            i <= strikes@.len(),
            out@ == both_sides(strikes@.take(i as int)),
        decreases strikes@.len() - i,
    {
        assert(strikes@.take(i + 1).drop_last() =~= strikes@.take(i as int));
        out.push((strikes[i], Right::Put));
        out.push((strikes[i], Right::Call));
        i = i + 1;
    }
    assert(strikes@.take(i as int) =~= strikes@);
    out
}

// --- expiries --------------------------------------------------------------

/// Whether the `i`-th expiry may be picked: readable and at least `min_dte` days
/// out.
pub open spec fn expiry_ok(days: Seq<Option<int>>, today: int, min_dte: int, i: int) -> bool {
    0 <= i < days.len() && days[i] is Some && days[i]->0 - today >= min_dte
}

/// Whether the `i`-th expiry is the first of those nearest to the target.
pub open spec fn is_expiry_pick(
    days: Seq<Option<int>>,
    today: int,
    target: int,
    min_dte: int,
    i: int,
) -> bool {
    &&& expiry_ok(days, today, min_dte, i)
    &&& forall|j: int| #[trigger]
        expiry_ok(days, today, min_dte, j) ==> abs(days[i]->0 - today - target) <= abs(
            days[j]->0 - today - target,
        ) && (j < i ==> abs(days[i]->0 - today - target) < abs(days[j]->0 - today - target))
}

/// A list of optional days as numbers.
pub open spec fn day_numbers(days: Seq<Option<i32>>) -> Seq<Option<int>> {
    days.map_values(|d: Option<i32>| opt_day(d))
}

/// What each expiry text denotes.
pub open spec fn read_days(expirations: Seq<String>) -> Seq<Option<int>> {
    expirations.map_values(|e: String| day_of_code(e@))
}

/// The index of the expiry nearest to `target_dte` days out, and its days to
/// expiration, among those at least `min_dte` days out.
pub fn nearest_expiry(days: &Vec<Option<i32>>, today: i32, target_dte: i64, min_dte: i64) -> (r:
    Option<(usize, i64)>)
    ensures
        r is None ==> forall|i: int|
            !#[trigger] expiry_ok(day_numbers(days@), today as int, min_dte as int, i),
        r is Some ==> is_expiry_pick(
            day_numbers(days@),
            today as int,
            target_dte as int,
            min_dte as int,
            (r->0).0 as int,
        ) && (r->0).1 == day_numbers(days@)[(r->0).0 as int]->0 - today && (r->0).0 < days@.len(),
{
    let ghost d = day_numbers(days@);
    let mut best: Option<(i128, usize, i64)> = None;
    let mut i: usize = 0;
    while i < days.len()
        invariant
            i <= days@.len(),
            d == day_numbers(days@),
            best is None ==> forall|j: int|
                0 <= j < i ==> !#[trigger] expiry_ok(d, today as int, min_dte as int, j),
            best is Some ==> (best->0).1 < i && expiry_ok(
                d,
                today as int,
                min_dte as int,
                (best->0).1 as int,
            ) && (best->0).2 == d[(best->0).1 as int]->0 - today && (best->0).0 == abs(
                (best->0).2 - target_dte,
            ) && (forall|j: int|
                0 <= j < i && #[trigger] expiry_ok(d, today as int, min_dte as int, j)
                    ==> (best->0).0 <= abs(d[j]->0 - today - target_dte) && (j < (best->0).1
                    ==> (best->0).0 < abs(d[j]->0 - today - target_dte))),
        decreases days@.len() - i,
    {
        assert(d[i as int] == opt_day(days@[i as int]));
        if let Some(day) = days[i] {
            let left: i64 = dte(today, day);
            if left >= min_dte {
                assert(expiry_ok(d, today as int, min_dte as int, i as int));
                let off: i128 = left as i128 - target_dte as i128;
                let gap: i128 = if off < 0 {
                    -off
                } else {
                    off
                };
                let nearer = match best {
                    None => true,
                    Some((b, _, _)) => gap < b,
                };
                if nearer {
                    best = Some((gap, i, left));
                }
            }
        }
        i = i + 1;
    }
    match best {
        None => None,
        Some((_, k, left)) => Some((k, left)),
    }
}

/// Reads each expiry of a chain.
pub fn parse_expiries(expirations: &Vec<String>) -> (r: Vec<Option<i32>>)
    ensures
        r@.len() == expirations@.len(),
        day_numbers(r@) == read_days(expirations@),
{
    let mut out: Vec<Option<i32>> = Vec::new();
    let mut i: usize = 0;
    while i < expirations.len()
        invariant
            i <= expirations@.len(),
            out@.len() == i,
            forall|j: int|
                0 <= j < i ==> opt_day(#[trigger] out@[j]) == day_of_code(expirations@[j]@),
        decreases expirations@.len() - i,
    {
        let day = parse_expiry(expirations[i].as_str());
        out.push(day);
        i = i + 1;
    }
    assert(day_numbers(out@) =~= read_days(expirations@));
    out
}

/// Picks the expiration closest to `target_dte` days out among those at least
/// `min_dte` days away; its text and its days to expiration.
pub fn pick_expiry(expirations: &Vec<String>, today: i32, target_dte: i64, min_dte: i64) -> (r:
    Option<(String, i64)>)
    ensures
        r is None ==> forall|i: int|
            !#[trigger] expiry_ok(read_days(expirations@), today as int, min_dte as int, i),
        r is Some ==> exists|i: int| #[trigger]
            is_expiry_pick(
                read_days(expirations@),
                today as int,
                target_dte as int,
                min_dte as int,
                i,
            ) && (r->0).0@ == expirations@[i]@ && (r->0).1 == read_days(expirations@)[i]->0 - today,
{
    let days = parse_expiries(expirations);
    match nearest_expiry(&days, today, target_dte, min_dte) {
        None => None,
        Some((k, left)) => Some((own(expirations[k].as_str()), left)),
    }
}

/// The middle of the band of days to expiration, rounded toward zero.
pub open spec fn band_middle(cfg: EngineConfig) -> int {
    let sum = cfg.min_dte + cfg.max_dte;
    if sum >= 0 {
        sum / 2
    } else {
        -((-sum) / 2)
    }
}

/// The days to expiration that a wheel chain aims for.
pub fn target_dte(cfg: &EngineConfig) -> (r: i64)
    ensures
        r == band_middle(*cfg),
{
    let sum: i128 = cfg.min_dte as i128 + cfg.max_dte as i128;
    if sum >= 0 {
        (sum / 2) as i64
    } else {
        (-((-sum) / 2)) as i64
    }
}

/// The right whose chain is asked for to plan an entry: puts where nothing is held,
/// calls on shares, none where a short is managed.
pub fn chain_right(state: WheelState) -> (r: Option<Right>)
    ensures
        r == (match state {
            WheelState::Idle => Some(Right::Put),
            WheelState::LongShares => Some(Right::Call),
            _ => None,
        }),
{
    match state {
        WheelState::Idle => Some(Right::Put),
        WheelState::LongShares => Some(Right::Call),
        WheelState::ShortPut | WheelState::HedgedShortPut | WheelState::ShortCall => None,
    }
}

/// Whether `e` is the expiration, and its days left, that stands closest to `dte`
/// days among those at least `min_dte` days away.
pub open spec fn is_closest_expiry(
    expirations: Seq<String>,
    today: int,
    dte: int,
    min_dte: int,
    e: (String, i64),
) -> bool {
    exists|i: int| #[trigger]
        is_expiry_pick(read_days(expirations), today, dte, min_dte, i) && e.0@ == expirations[i]@
            && e.1 == read_days(expirations)[i]->0 - today
}

/// The expiration of a wheel chain: the one closest to the middle of the band, and
/// at least a day away.
pub fn wheel_expiry(expirations: &Vec<String>, cfg: &EngineConfig, today: i32) -> (r: Option<
    (String, i64),
>)
    ensures
        r is None ==> forall|i: int|
            !#[trigger] expiry_ok(read_days(expirations@), today as int, 1, i),
        r is Some ==> is_closest_expiry(expirations@, today as int, band_middle(*cfg), 1, r->0),
{
    pick_expiry(expirations, today, target_dte(cfg), 1)
}

/// The expiration of a structure's chain: the one closest to `dte` days, today
/// included.
pub fn structure_expiry(expirations: &Vec<String>, dte: i64, today: i32) -> (r: Option<
    (String, i64),
>)
    ensures
        r is None ==> forall|i: int|
            !#[trigger] expiry_ok(read_days(expirations@), today as int, 0, i),
        r is Some ==> is_closest_expiry(expirations@, today as int, dte as int, 0, r->0),
{
    pick_expiry(expirations, today, dte, 0)
}

/// The listed contract that a roll is resolved to: the expiry nearest to the
/// ideal one and at least a day out, and the strike nearest to the ideal one;
/// `None` where there is none.
pub fn roll_contract(
    expirations: &Vec<String>,
    strikes: &Vec<i64>,
    to_expiry: i32,
    to_strike: i64,
    today: i32,
) -> (r: Option<(String, i64)>)
    ensures
        r is None ==> (forall|i: int|
            !#[trigger] expiry_ok(read_days(expirations@), today as int, 1, i)) || nearest_answer(
            strikes@,
            to_strike as int,
            None,
        ),
        r is Some ==> nearest_answer(strikes@, to_strike as int, Some((r->0).1)),
        r is Some ==> exists|i: int| #[trigger]
            is_expiry_pick(
                read_days(expirations@),
                today as int,
                max(to_expiry - today, 1),
                1,
                i,
            ) && (r->0).0@ == expirations@[i]@,
{
    let left: i64 = dte(today, to_expiry);
    let aim: i64 = if left > 1 {
        left
    } else {
        1
    };
    assert(aim as int == max(to_expiry - today, 1));
    match (pick_expiry(expirations, today, aim, 1), nearest_strike(strikes.as_slice(), to_strike)) {
        (Some((e, _)), Some(k)) => Some((e, k)),
        _ => None,
    }
}

/// The contract that a tradability probe previews: an expiry near the target and
/// a far out-of-the-money strike; `None` where the chain offers none yet.
pub fn probe_contract(expirations: &Vec<String>, strikes: &Vec<i64>, spot: i64, today: i32) -> (r:
    Option<(String, i64)>)
    ensures
        r is Some ==> exists|i: int| #[trigger]
            is_expiry_pick(read_days(expirations@), today as int, PROBE_DTE as int, 1, i)
                && (r->0).0@ == expirations@[i]@,
        r is Some ==> probe_aim(strikes@, spot as int) is Some && nearest_answer(
            strikes@,
            probe_aim(strikes@, spot as int)->0,
            Some((r->0).1),
        ),
        r is None ==> (forall|i: int|
            !#[trigger] expiry_ok(read_days(expirations@), today as int, 1, i)) || probe_aim(
            strikes@,
            spot as int,
        ) is None || nearest_answer(strikes@, probe_aim(strikes@, spot as int)->0, None),
{
    match (pick_expiry(expirations, today, PROBE_DTE, 1), far_otm_put_strike(
        strikes.as_slice(),
        spot,
    )) {
        (Some((e, _)), Some(k)) => Some((e, k)),
        _ => None,
    }
}

// --- quotes ----------------------------------------------------------------

/// The price that a snapshot gives: the model price, else the last trade.
pub open spec fn snapshot_price(snap: SnapshotData) -> Option<i64> {
    match snap.comp {
        Some(c) => if c.option_price is Some {
            c.option_price
        } else {
            snap.last
        },
        None => snap.last,
    }
}

fn price_of(snap: &SnapshotData) -> (r: Option<i64>)
    ensures
        r == snapshot_price(*snap),
{
    match snap.comp {
        Some(c) => if c.option_price.is_some() {
            c.option_price
        } else {
            snap.last
        },
        None => snap.last,
    }
}

/// The quote that a snapshot gives: bid and ask both at its price; `None` without
/// a computation or a positive price.
pub open spec fn snapshot_quote(
    snap: SnapshotData,
    right: Right,
    strike: i64,
    expiry: i32,
) -> Option<OptionQuote> {
    match (snap.comp, snapshot_price(snap)) {
        (Some(c), Some(p)) => if p > 0 {
            Some(
                OptionQuote {
                    right,
                    strike,
                    expiry,
                    bid: p,
                    ask: p,
                    delta: c.delta,
                    implied_volatility: c.implied_volatility,
                    estimated_delta: None,
                    open_interest: None,
                },
            )
        } else {
            None
        },
        _ => None,
    }
}

/// Builds a quote from a snapshot, or `None` where the contract has no usable
/// price this time.
pub fn quote_from_snapshot(snap: &SnapshotData, right: Right, strike: i64, expiry: i32) -> (r:
    Option<OptionQuote>)
    ensures
        r == snapshot_quote(*snap, right, strike, expiry),
{
    match (snap.comp, price_of(snap)) {
        (Some(c), Some(p)) => if p > 0 {
            Some(
                OptionQuote {
                    right,
                    strike,
                    expiry,
                    bid: p,
                    ask: p,
                    delta: c.delta,
                    implied_volatility: c.implied_volatility,
                    estimated_delta: None,
                    open_interest: None,
                },
            )
        } else {
            None
        },
        _ => None,
    }
}

/// The price of an option leg to the cent, or `None` where it has none.
pub fn price_leg(snap: &SnapshotData) -> (r: Option<i64>)
    requires
        snapshot_price(*snap) is Some ==> is_price(snapshot_price(*snap)->0 as int),
    ensures
        r is Some <==> snapshot_price(*snap) is Some && snapshot_price(*snap)->0 > 0,
        r is Some ==> r->0 == cents(snapshot_price(*snap)->0 as int),
{
    match price_of(snap) {
        Some(p) => if p > 0 {
            Some(round_cents(p))
        } else {
            None
        },
        None => None,
    }
}

// --- holdings --------------------------------------------------------------

/// Whether `prefix` begins `s`, the letters of `s` in upper case.
pub open spec fn upper_starts(s: Seq<char>, prefix: Seq<char>) -> bool {
    prefix.len() <= s.len() && forall|i: int|
        0 <= i < prefix.len() ==> upper(#[trigger] s[i]) == prefix[i]
}

/// Whether a row holds the given option short; its right may be spelt out.
pub open spec fn holds_short(
    p: PositionRow,
    symbol: Seq<char>,
    right: Seq<char>,
    strike: int,
    expiry: Seq<char>,
) -> bool {
    &&& p.symbol@ == symbol
    &&& option_row(p)
    &&& p.position < 0
    &&& p.strike == strike
    &&& p.expiry@ == expiry
    &&& upper_starts(p.right@, right)
}

fn starts_upper(s: &str, prefix: &str) -> (r: bool)
    ensures
        r == upper_starts(s@, prefix@),
{
    let v = chars_of(s);
    let p = chars_of(prefix);
    if p.len() > v.len() {
        return false;
    }
    let mut i: usize = 0;
    while i < p.len()
        invariant
            v@ == s@,
            p@ == prefix@,
            p@.len() <= v@.len(),
            i <= p@.len(),
            forall|k: int| 0 <= k < i ==> upper(#[trigger] s@[k]) == prefix@[k],
        decreases p@.len() - i,
    {
        if upper_char(v[i]) != p[i] {
            assert(upper(s@[i as int]) != prefix@[i as int]);
            return false;
        }
        i = i + 1;
    }
    true
}

/// Whether broker positions still hold a short option of the given contract.
/// `right` is a code (`P` or `C`); the broker may spell it out.
pub fn position_has_short(
    positions: &[PositionRow],
    symbol: &str,
    right: &str,
    strike: i64,
    expiry: &str,
) -> (r: bool)
    ensures
        r == exists|i: int|
            0 <= i < positions@.len() && holds_short(
                #[trigger] positions@[i],
                symbol@,
                right@,
                strike as int,
                expiry@,
            ),
{
    let mut i: usize = 0;
    while i < positions.len()
        invariant
            i <= positions@.len(),
            forall|k: int|
                0 <= k < i ==> !holds_short(
                    #[trigger] positions@[k],
                    symbol@,
                    right@,
                    strike as int,
                    expiry@,
                ),
        decreases positions@.len() - i,
    {
        let p = &positions[i];
        if same_text(p.symbol.as_str(), symbol) && same_text(p.security_type.as_str(), "Option")
            && p.position < 0 && p.strike == strike && same_text(p.expiry.as_str(), expiry)
            && starts_upper(p.right.as_str(), right) {
            assert(holds_short(positions@[i as int], symbol@, right@, strike as int, expiry@));
            return true;
        }
        i = i + 1;
    }
    false
}

/// What the store is told of one symbol's wheel leg.
#[derive(Debug, Clone)]
pub struct WheelUpdate {
    pub symbol: String,
    pub state: WheelState,
    pub shares: i64,
    pub cost_basis: i64,
}

/// Whether `u` is what the holdings say of its symbol.
pub open spec fn is_update(u: WheelUpdate, positions: Seq<PositionRow>) -> bool {
    let r = reconciled(u.symbol@, positions, expiries(positions));
    &&& u.state == r.state
    &&& match r.shares {
        Some(s) => u.shares == s.shares && u.cost_basis == s.cost_basis,
        None => u.shares == 0 && u.cost_basis == 0,
    }
}

/// Whether a symbol is held or stored.
pub open spec fn is_known(
    symbol: Seq<char>,
    positions: Seq<PositionRow>,
    stored: Seq<String>,
) -> bool {
    ||| exists|i: int| 0 <= i < positions.len() && (#[trigger] positions[i]).symbol@ == symbol
    ||| holds_text(stored, symbol)
}

/// Whether one of the updates is on the symbol.
pub open spec fn has_update(updates: Seq<WheelUpdate>, symbol: Seq<char>) -> bool {
    exists|i: int| 0 <= i < updates.len() && (#[trigger] updates[i]).symbol@ == symbol
}

/// Whether no symbol has two updates.
pub open spec fn one_each(updates: Seq<WheelUpdate>) -> bool {
    forall|i: int, j: int|
        0 <= i < j < updates.len() ==> (#[trigger] updates[i]).symbol@ != (
        #[trigger] updates[j]).symbol@
}

fn add_update(updates: &mut Vec<WheelUpdate>, symbol: &str, positions: &[PositionRow])
    requires
        rows_wf(positions@),
        one_each(old(updates)@),
        forall|i: int| 0 <= i < old(updates)@.len() ==> is_update(
            #[trigger] old(updates)@[i],
            positions@,
        ),
    ensures
        one_each(final(updates)@),
        forall|i: int| 0 <= i < final(updates)@.len() ==> is_update(
            #[trigger] final(updates)@[i],
            positions@,
        ),
        forall|s: Seq<char>| #[trigger]
            has_update(final(updates)@, s) <==> has_update(old(updates)@, s) || s == symbol@,
{
    let mut i: usize = 0;
    while i < updates.len()
        invariant
            i <= updates@.len(),
            updates@ == old(updates)@,
            one_each(updates@),
            forall|k: int| 0 <= k < updates@.len() ==> is_update(
                #[trigger] updates@[k],
                positions@,
            ),
            forall|k: int| 0 <= k < i ==> (#[trigger] updates@[k]).symbol@ != symbol@,
        decreases updates@.len() - i,
    {
        if same_text(updates[i].symbol.as_str(), symbol) {
            assert(has_update(updates@, symbol@));
            return;
        }
        i = i + 1;
    }
    let ghost before = updates@;
    let r = reconcile(symbol, positions);
    let (shares, cost_basis): (i64, i64) = match r.shares {
        Some(s) => (s.shares, s.cost_basis),
        None => (0, 0),
    };
    updates.push(WheelUpdate { symbol: own(symbol), state: r.state, shares, cost_basis });
    proof {
        let after = updates@;
        assert forall|s: Seq<char>| #[trigger]
            has_update(after, s) <==> has_update(before, s) || s == symbol@ by {
            if has_update(before, s) {
                let k = choose|k: int| 0 <= k < before.len() && (#[trigger] before[k]).symbol@ == s;
                assert(after[k].symbol@ == s);
            }
            if s == symbol@ {
                assert(after[before.len() as int].symbol@ == s);
            }
            if has_update(after, s) && s != symbol@ {
                let k = choose|k: int| 0 <= k < after.len() && (#[trigger] after[k]).symbol@ == s;
                assert(before[k].symbol@ == s);
            }
        }
    }
}

/// What the store is told after a complete positions snapshot: every symbol that
/// is held or already stored, once, in the leg its holdings show, so that a
/// closed position falls back to idle.
pub fn wheel_updates(positions: &[PositionRow], stored: &Vec<String>) -> (r: Vec<WheelUpdate>)
    requires
        rows_wf(positions@),
    ensures
        one_each(r@),
        forall|i: int| 0 <= i < r@.len() ==> is_update(#[trigger] r@[i], positions@),
        forall|s: Seq<char>| #[trigger]
            has_update(r@, s) <==> is_known(s, positions@, stored@),
{
    let mut out: Vec<WheelUpdate> = Vec::new();
    let mut i: usize = 0;
    while i < positions.len()
        invariant
            i <= positions@.len(),
            rows_wf(positions@),
            one_each(out@),
            forall|k: int| 0 <= k < out@.len() ==> is_update(#[trigger] out@[k], positions@),
            forall|s: Seq<char>| #[trigger]
                has_update(out@, s) <==> exists|k: int|
                    0 <= k < i && (#[trigger] positions@[k]).symbol@ == s,
        decreases positions@.len() - i,
    {
        let ghost before = out@;
        add_update(&mut out, positions[i].symbol.as_str(), positions);
        proof {
            assert forall|s: Seq<char>| #[trigger]
                has_update(out@, s) <==> exists|k: int|
                    0 <= k < i + 1 && (#[trigger] positions@[k]).symbol@ == s by {
                if has_update(before, s) {
                    let k = choose|k: int|
                        0 <= k < i && (#[trigger] positions@[k]).symbol@ == s;
                    assert(positions@[k].symbol@ == s);
                }
                if positions@[i as int].symbol@ == s {
                    assert(has_update(out@, s));
                }
            }
        }
        i = i + 1;
    }
    let mut j: usize = 0;
    while j < stored.len()
        invariant
            j <= stored@.len(),
            rows_wf(positions@),
            one_each(out@),
            forall|k: int| 0 <= k < out@.len() ==> is_update(#[trigger] out@[k], positions@),
            forall|s: Seq<char>| #[trigger]
                has_update(out@, s) <==> (exists|k: int|
                    0 <= k < positions@.len() && (#[trigger] positions@[k]).symbol@ == s) || (exists|
                    k: int,
                |
                    0 <= k < j && (#[trigger] stored@[k])@ == s),
        decreases stored@.len() - j,
    {
        let ghost before = out@;
        add_update(&mut out, stored[j].as_str(), positions);
        proof {
            assert forall|s: Seq<char>| #[trigger]
                has_update(out@, s) <==> (exists|k: int|
                    0 <= k < positions@.len() && (#[trigger] positions@[k]).symbol@ == s) || (exists|
                    k: int,
                |
                    0 <= k < j + 1 && (#[trigger] stored@[k])@ == s) by {
                if has_update(before, s) {
                    if !(exists|k: int|
                        0 <= k < positions@.len() && (#[trigger] positions@[k]).symbol@ == s) {
                        let k = choose|k: int| 0 <= k < j && (#[trigger] stored@[k])@ == s;
                        assert(stored@[k]@ == s);
                    }
                }
                if stored@[j as int]@ == s {
                    assert(has_update(out@, s));
                }
            }
        }
        j = j + 1;
    }
    out
}

} // verus!

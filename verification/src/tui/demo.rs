//! Synthetic market data for offline use: spots, strike grids and quotes from
//! which the engine makes the suggestions that are shown without a connection.

use vstd::prelude::*;
use vstd::string::*;
use vstd::utf8::encode_utf8;
use crate::config::ZeroDteConfig;
use crate::engine::csp::{csp_answer, select_csp};
use crate::engine::structures::{select, structure_answer};
use crate::engine::types::{
    chain_wf, opt_view, views, EngineConfig, OptionQuote, Right, Suggestion, SuggestionView,
    UnderlyingQuote,
};
use crate::engine::{all_wf, given, lemma_all_wf_insert, place, ranked};
use crate::fixed::{clamp, floor_div, floor_of, is_price, max, round_away, MAX_PRICE, SCALE};
use crate::text::same_text;
use crate::tui::app::slots_wf;

verus! {

// --- spots -----------------------------------------------------------------

/// A hash of bytes: each step multiplies by 31 and adds the next byte, in 32 bits.
pub open spec fn hash_of(b: Seq<u8>) -> int
    decreases b.len(),
{
    if b.len() == 0 {
        0
    } else {
        (hash_of(b.drop_last()) * 31 + b.last()) % 0x1_0000_0000
    }
}

/// The spot that stands for a symbol: from 50 to 299 dollars.
pub open spec fn spot_of(symbol: Seq<char>) -> int {
    (50 + hash_of(encode_utf8(symbol)) % 250) * SCALE
}

/// A made-up spot for a symbol, the same each time.
pub fn demo_spot(symbol: &str) -> (r: i64)
    ensures
        r == spot_of(symbol@),
        50 * SCALE <= r < 300 * SCALE,
{
    let bytes = symbol.as_bytes();
    let mut h: u64 = 0;
    let mut i: usize = 0;
    while i < bytes.len()
        invariant
            i <= bytes@.len(),
            h == hash_of(bytes@.take(i as int)),
            h < 0x1_0000_0000,
        decreases bytes@.len() - i,
    {
        proof {
            assert(bytes@.take(i + 1).drop_last() =~= bytes@.take(i as int));
        }
        h = (h * 31 + bytes[i] as u64) % 0x1_0000_0000;
        i = i + 1;
    }
    assert(bytes@.take(i as int) =~= bytes@);
    (50 + h % 250) as i64 * 1_000_000
}

/// The index-sized spot that stands for an underlying of a structure.
pub open spec fn index_spot_of(symbol: Seq<char>) -> int {
    if symbol == "SPX"@ || symbol == "SPXW"@ {
        7_600 * SCALE
    } else if symbol == "NDX"@ {
        25_000 * SCALE
    } else if symbol == "RUT"@ {
        2_400 * SCALE
    } else if symbol == "DJI"@ {
        44_000 * SCALE
    } else {
        max(spot_of(symbol), 100 * SCALE)
    }
}

/// A made-up spot for the underlying of a structure: at index scale for the
/// known indices, at least 100 dollars otherwise.
pub fn demo_index_spot(symbol: &str) -> (r: i64)
    ensures
        r == index_spot_of(symbol@),
        100 * SCALE <= r <= 44_000 * SCALE,
{
    if same_text(symbol, "SPX") || same_text(symbol, "SPXW") {
        7_600_000_000
    } else if same_text(symbol, "NDX") {
        25_000_000_000
    } else if same_text(symbol, "RUT") {
        2_400_000_000
    } else if same_text(symbol, "DJI") {
        44_000_000_000
    } else {
        let spot: i64 = demo_spot(symbol);
        if spot >= 100_000_000 {
            spot
        } else {
            100_000_000
        }
    }
}

// --- strikes and quotes ----------------------------------------------------

/// The strikes `first`, `first + step` and so on up to `top`, the positive ones.
pub open spec fn grid(first: int, step: int, top: int) -> Seq<int>
    decreases
            (if first > top {
                0
            } else {
                top - first + 1
            }),
{
    if first > top || step <= 0 {
        Seq::empty()
    } else if first > 0 {
        seq![first] + grid(first + step, step, top)
    } else {
        grid(first + step, step, top)
    }
}

/// The strikes of a list.
pub open spec fn amounts(v: Seq<i64>) -> Seq<int> {
    v.map_values(|x: i64| x as int)
}

fn strike_grid(first: i64, step: i64, top: i64) -> (r: Vec<i64>)
    requires
        0 < step <= 4_000_000_000_000_000,
        top <= 4_000_000_000_000_000,
        -4_000_000_000_000_000 <= first <= 8_000_000_000_000_000,
    ensures
        amounts(r@) == grid(first as int, step as int, top as int),
{
    let mut out: Vec<i64> = Vec::new();
    let mut k: i64 = first;
    assert(amounts(out@) + grid(first as int, step as int, top as int) =~= grid(
        first as int,
        step as int,
        top as int,
    ));
    while k <= top
        invariant
            0 < step <= 4_000_000_000_000_000,
            top <= 4_000_000_000_000_000,
            k <= 8_000_000_000_000_000,
            amounts(out@) + grid(k as int, step as int, top as int) == grid(
                first as int,
                step as int,
                top as int,
            ),
        decreases
                (if k > top {
                    0
                } else {
                    top - k + 1
                }),
    {
        let ghost before = out@;
        if k > 0 {
            out.push(k);
            assert(amounts(out@) =~= amounts(before).push(k as int));
        }
        proof {
            let rest = grid(k + step, step as int, top as int);
            if k > 0 {
                assert(amounts(out@) + rest =~= amounts(before) + (seq![k as int] + rest));
            }
        }
        k = k + step;
    }
    assert(amounts(out@) + grid(k as int, step as int, top as int) =~= amounts(out@));
    out
}

/// The distance of the strikes of a put chain: a fortieth of the spot, at least
/// half a dollar.
pub open spec fn put_step(spot: int) -> int {
    max(spot / 40, 500_000)
}

/// The strikes of a put chain: multiples of the step from three quarters of the
/// spot up to five percent above it.
pub open spec fn put_grid(spot: int) -> Seq<int> {
    let step = put_step(spot);
    grid(round_away(3 * spot, 4 * step) * step, step, spot * 105 / 100)
}

/// The strikes of a made-up put chain around `spot`.
pub fn demo_put_strikes(spot: i64) -> (r: Vec<i64>)
    requires
        0 <= spot <= MAX_PRICE,
    ensures
        amounts(r@) == put_grid(spot as int),
{
    let step: i64 = if spot / 40 >= 500_000 {
        spot / 40
    } else {
        500_000
    };
    let n: i64 = (6 * spot + 4 * step) / (8 * step);
    proof {
        assert(n == round_away(3 * spot, 4 * step));
        assert(0 <= n * step <= spot + step) by (nonlinear_arith)
            requires
                n == (6 * spot + 4 * step) / (8 * step),
                step > 0,
                spot >= 0,
        ;
    }
    strike_grid(n * step, step, spot * 105 / 100)
}

/// The distance of the strikes of a structure chain: ten dollars from a thousand
/// on, one from a hundred on, half a dollar below.
pub open spec fn structure_step(spot: int) -> int {
    if spot >= 1_000 * SCALE {
        10 * SCALE as int
    } else if spot >= 100 * SCALE {
        SCALE as int
    } else {
        500_000
    }
}

/// The strikes of a structure chain: multiples of the step within eight percent
/// of the spot.
pub open spec fn structure_grid(spot: int) -> Seq<int> {
    let step = structure_step(spot);
    grid(round_away(92 * spot, 100 * step) * step, step, spot * 108 / 100)
}

/// The strikes of a made-up structure chain around `spot`, each quoted as a put
/// and as a call.
pub fn demo_structure_strikes(spot: i64) -> (r: Vec<i64>)
    requires
        0 <= spot <= MAX_PRICE,
    ensures
        amounts(r@) == structure_grid(spot as int),
{
    let step: i64 = if spot >= 1_000_000_000 {
        10_000_000
    } else if spot >= 100_000_000 {
        1_000_000
    } else {
        500_000
    };
    let n: i64 = (184 * spot + 100 * step) / (200 * step);
    proof {
        assert(n == round_away(92 * spot, 100 * step));
        assert(0 <= n * step <= spot + step) by (nonlinear_arith)
            requires
                n == (184 * spot + 100 * step) / (200 * step),
                step > 0,
                spot >= 0,
        ;
    }
    strike_grid(n * step, step, spot * 108 / 100)
}

/// The volatility of a strike with a skew: 15 hundredths at the money, 6 tenths
/// of the distance below the spot more, between 8 and 60 hundredths.
pub open spec fn skew(spot: int, strike: int) -> int {
    clamp(150_000 + floor_div(600_000 * (spot - strike), spot), 80_000, 600_000)
}

/// The implied volatility of a strike, in millionths: puts out of the money carry
/// more.
pub fn demo_skew_iv(spot: i64, strike: i64) -> (r: i64)
    requires
        0 < spot <= MAX_PRICE,
        is_price(strike as int),
    ensures
        r == skew(spot as int, strike as int),
        80_000 <= r <= 600_000,
{
    let wide: i128 = 600_000 * (spot as i128 - strike as i128);
    let q: i128 = floor_of(wide, spot as i128);
    proof {
        assert(-1_200_000_000_000_000_000_000 <= wide as int / spot as int
            <= 1_200_000_000_000_000_000_000) by (nonlinear_arith)
            requires
                spot >= 1,
                -1_200_000_000_000_000_000_000 <= wide <= 1_200_000_000_000_000_000_000,
        ;
    }
    let x: i128 = 150_000 + q;
    if x < 80_000 {
        80_000
    } else if x > 600_000 {
        600_000
    } else {
        x as i64
    }
}

/// The skew is richer for lower strikes, never poorer.
pub proof fn law_skew_falls(spot: int, low: int, high: int)
    requires
        spot > 0,
        low <= high,
    ensures
        skew(spot, low) >= skew(spot, high),
{
    assert((600_000 * (spot - low)) / spot >= (600_000 * (spot - high)) / spot) by (nonlinear_arith)
        requires
            spot > 0,
            low <= high,
    ;
}

/// A made-up quote: `half` to each side of the price, the bid not negative.
pub fn demo_quote(
    right: Right,
    strike: i64,
    expiry: i32,
    price: i64,
    half: i64,
    delta: Option<i32>,
    iv: i64,
    open_interest: i64,
) -> (r: OptionQuote)
    requires
        is_price(strike as int),
        0 <= half <= SCALE,
        -SCALE <= price <= MAX_PRICE - SCALE,
    ensures
        r == (OptionQuote {
            right,
            strike,
            expiry,
            bid: max(price - half, 0) as i64,
            ask: (price + half) as i64,
            delta,
            implied_volatility: Some(iv),
            estimated_delta: None,
            open_interest: Some(open_interest),
        }),
        r.wf(),
{
    OptionQuote {
        right,
        strike,
        expiry,
        bid: if price - half >= 0 {
            price - half
        } else {
            0
        },
        ask: price + half,
        delta,
        implied_volatility: Some(iv),
        estimated_delta: None,
        open_interest: Some(open_interest),
    }
}

// --- suggestions -----------------------------------------------------------

/// Whether `advice` holds the cash-secured put of each symbol, sized for about
/// one contract.
pub open spec fn puts_advised(
    symbols: Seq<String>,
    chains: Seq<Vec<OptionQuote>>,
    cfg: EngineConfig,
    today: int,
    advice: Seq<Option<SuggestionView>>,
) -> bool {
    &&& advice.len() == symbols.len()
    &&& forall|i: int|
        0 <= i < symbols.len() ==> csp_answer(
            symbols[i]@,
            spot_of(symbols[i]@),
            chains[i]@,
            spot_of(symbols[i]@) * 120,
            cfg,
            today,
            #[trigger] advice[i],
        )
}

/// Runs the put selection over a made-up chain for each symbol, and lists what it
/// finds, the best yield first.
pub fn demo_suggestions(
    symbols: &Vec<String>,
    chains: &Vec<Vec<OptionQuote>>,
    cfg: &EngineConfig,
    today: i32,
) -> (r: Vec<Suggestion>)
    requires
        chains@.len() == symbols@.len(),
        forall|i: int| 0 <= i < chains@.len() ==> chain_wf((#[trigger] chains@[i])@),
    ensures
        exists|advice: Seq<Option<SuggestionView>>| #[trigger]
            puts_advised(symbols@, chains@, *cfg, today as int, advice) && views(r@) == ranked(
                given(advice),
            ),
        all_wf(r@),
{
    let mut out: Vec<Suggestion> = Vec::new();
    let ghost mut advice: Seq<Option<SuggestionView>> = Seq::empty();
    let mut i: usize = 0;
    assert(views(out@) =~= ranked(given(advice)));
    while i < symbols.len()
        invariant
            i <= symbols@.len(),
            chains@.len() == symbols@.len(),
            forall|k: int| 0 <= k < chains@.len() ==> chain_wf((#[trigger] chains@[k])@),
            advice.len() == i,
            forall|k: int|
                0 <= k < i ==> csp_answer(
                    symbols@[k]@,
                    spot_of(symbols@[k]@),
                    chains@[k]@,
                    spot_of(symbols@[k]@) * 120,
                    *cfg,
                    today as int,
                    #[trigger] advice[k],
                ),
            views(out@) == ranked(given(advice)),
            all_wf(out@),
        decreases symbols@.len() - i,
    {
        let spot: i64 = demo_spot(symbols[i].as_str());
        let one = select_csp(
            symbols[i].as_str(),
            UnderlyingQuote { last: spot },
            chains[i].as_slice(),
            spot * 120,
            cfg,
            today,
        );
        proof {
            let next = advice.push(opt_view(one));
            assert(next.drop_last() =~= advice);
            assert(next.last() == opt_view(one));
            advice = next;
        }
        match one {
            Some(s) => {
                let ghost before = out@;
                proof {
                    let all = given(advice);
                    assert(all =~= given(advice.drop_last()).push(s@));
                    assert(all.drop_last() =~= given(advice.drop_last()));
                }
                place(&mut out, s);
                proof {
                    lemma_all_wf_insert(before, out@, s@);
                }
            },
            None => {
                assert(given(advice) =~= given(advice.drop_last()));
            },
        }
        i = i + 1;
    }
    assert(puts_advised(symbols@, chains@, *cfg, today as int, advice));
    out
}

/// What the selectors make of the made-up chain of slot `i`.
pub open spec fn slot_answer(
    zerodte: ZeroDteConfig,
    chains: Seq<Vec<OptionQuote>>,
    today: int,
    i: int,
) -> Option<SuggestionView> {
    match zerodte.slot_index(i) {
        Some(k) => {
            let p = zerodte.strategies@[k];
            structure_answer(
                p,
                p.underlying@,
                index_spot_of(p.underlying@),
                chains[i]@,
                today,
            )
        },
        None => None,
    }
}

/// Runs the structure selectors over a made-up chain for each slot, `None` where
/// nothing fits.
pub fn demo_zerodte(zerodte: &ZeroDteConfig, chains: &Vec<Vec<OptionQuote>>, today: i32) -> (r: Vec<
    Option<Suggestion>,
>)
    requires
        chains@.len() == zerodte.shown(),
        forall|i: int| 0 <= i < chains@.len() ==> chain_wf((#[trigger] chains@[i])@),
    ensures
        r@.len() == zerodte.shown(),
        forall|i: int|
            0 <= i < r@.len() ==> opt_view(#[trigger] r@[i]) == slot_answer(
                *zerodte,
                chains@,
                today as int,
                i,
            ),
        slots_wf(r@),
{
    let mut out: Vec<Option<Suggestion>> = Vec::new();
    let n: usize = zerodte.slot_count();
    let mut i: usize = 0;
    while i < n
        invariant
            i <= n,
            n == zerodte.shown(),
            chains@.len() == n,
            forall|k: int| 0 <= k < chains@.len() ==> chain_wf((#[trigger] chains@[k])@),
            out@.len() == i,
            forall|k: int|
                0 <= k < i ==> opt_view(#[trigger] out@[k]) == slot_answer(
                    *zerodte,
                    chains@,
                    today as int,
                    k,
                ),
            slots_wf(out@),
        decreases n - i,
    {
        let one = match zerodte.slot(i) {
            Some(p) => select(
                p,
                p.underlying.as_str(),
                demo_index_spot(p.underlying.as_str()),
                chains[i].as_slice(),
                today,
            ),
            None => None,
        };
        out.push(one);
        i = i + 1;
    }
    out
}

} // verus!

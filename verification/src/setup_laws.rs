//! What holds where nothing is configured, and what stands in for a market that is not
//! reached.

use vstd::prelude::*;
use crate::config::{ConnectionConfig, Guardrails, TradingMode, ZeroDteConfig};
use crate::engine::csp::csp_answer;
use crate::engine::types::{EngineConfig, OptionQuote, StructureKind, SuggestionView};
use crate::tui::demo::{
    grid, hash_of, index_spot_of, put_grid, put_step, puts_advised, skew, spot_of, structure_grid,
    structure_step,
};

verus! {

// --- defaults --------------------------------------------------------------

/// Without a configuration the app trades on paper at port 4002, and would trade live at
/// port 4001; live orders need a confirmation, an order is for ten contracts at most, and
/// puts tie up 50,000 dollars at most.
pub proof fn law_cautious_defaults(c: ConnectionConfig, d: ConnectionConfig)
    requires
        c.is_standard(),
        d.paper_port == c.paper_port,
        d.live_port == c.live_port,
        d.mode == TradingMode::Live,
    ensures
        c.mode == TradingMode::Paper,
        c.host@ == "127.0.0.1"@,
        c.port() == 4002,
        d.port() == 4001,
        ({
            let g = Guardrails::standard();
            &&& g.require_live_confirmation
            &&& g.max_contracts_per_order == 10
            &&& g.max_total_deployed == 50_000 * 1_000_000
            &&& !g.read_only
        }),
{
}

/// Without a configuration no structure trades unattended and none may be naked; each of
/// the four quadrants shows a structure of its own on the same underlying.
pub proof fn law_default_roster(z: ZeroDteConfig, i: int)
    requires
        z.is_standard(),
        0 <= i < 4,
    ensures
        z.strategies@.len() == 4,
        z.shown() == 4,
        z.slot_index(i) == Some(i),
        ({
            let p = z.strategies@[i];
            &&& !p.automate
            &&& !p.allow_naked
            &&& p.underlying@ == "SPX"@
            &&& p.kind != StructureKind::ShortStrangle
            &&& 0 < p.min_credit * 100 < p.max_risk
            &&& 0 < p.profit_target_pct < 1_000_000
            &&& 0 < p.short_delta < 500_000
            &&& p.wing_points > 0
            &&& p.meic_interval_min == 0
            &&& p.time_stop_hhmm is None
        }),
        z.strategies@[0].kind == StructureKind::IronCondor,
        z.strategies@[1].kind == StructureKind::PutCreditSpread,
        z.strategies@[2].kind == StructureKind::BrokenWingButterfly,
        z.strategies@[3].kind == StructureKind::IronFly,
{
}

/// The default engine sells between 16 and 35 hundredths of delta, 25 to 45 days out, takes
/// half of the credit as profit, and defends past 50 hundredths of delta or in the money
/// within 21 days.
pub proof fn law_default_engine()
    ensures
        ({
            let e = EngineConfig::standard();
            &&& e.min_delta == 160_000 && e.target_delta == 300_000 && e.max_delta == 350_000
            &&& e.min_dte == 25 && e.max_dte == 45
            &&& 2 * e.take_profit_pct == 1_000_000
            &&& 2 * e.roll_delta == 1_000_000 && e.roll_dte == 21
            &&& 5 * e.min_annualized_yield == 1_000_000
            &&& e.min_open_interest == 100
            &&& 20 * e.min_premium == 1_000_000
            &&& e.cc_min_pct_above_basis == 0
            &&& 20 * e.hedge_pct_below == 1_000_000 && 10 * e.hedge_min_credit == 1_000_000
        }),
{
}

// --- demonstration ---------------------------------------------------------

/// A further byte multiplies the hash by 31 and adds itself; what is beyond 32 bits is
/// dropped, `k` times.
pub proof fn law_hash(b: Seq<u8>, x: u8) -> (k: int)
    ensures
        hash_of(Seq::empty()) == 0,
        ({
            let all = hash_of(b.push(x));
            &&& 0 <= all < 4_294_967_296
            &&& all + k * 4_294_967_296 == hash_of(b) * 31 + x
        }),
{
    assert(b.push(x).drop_last() =~= b);
    let t = hash_of(b) * 31 + x;
    t / 4_294_967_296
}

/// A made-up price is a whole number of dollars from 50 to 299; that of an index is its
/// usual level, and that of another underlying at least 100 dollars.
pub proof fn law_made_up_spot(symbol: Seq<char>)
    ensures
        50_000_000 <= spot_of(symbol) <= 299_000_000,
        spot_of(symbol) % 1_000_000 == 0,
        symbol == "SPX"@ ==> index_spot_of(symbol) == 7_600_000_000,
        symbol == "SPXW"@ ==> index_spot_of(symbol) == 7_600_000_000,
        index_spot_of(symbol) >= 100_000_000,
{
    let h = hash_of(vstd::utf8::encode_utf8(symbol));
    assert(0 <= h % 250 < 250);
    assert(((50 + h % 250) * 1_000_000) % 1_000_000 == 0);
}

/// A grid holds exactly the positive multiples of its step past its first strike, up to
/// its top.
pub proof fn law_grid(first: int, step: int, top: int, x: int)
    requires
        step > 0,
    ensures
        grid(first, step, top).contains(x) <==> 0 < x <= top && x >= first && (x - first) % step
            == 0,
    decreases
            (if first > top {
                0
            } else {
                top - first + 1
            }),
{
    if first <= top {
        law_grid(first + step, step, top, x);
        let rest = grid(first + step, step, top);
        let all = grid(first, step, top);
        assert(x >= first ==> ((x - first) % step == 0 <==> x == first || (x >= first + step && (x
            - (first + step)) % step == 0))) by {
            if x >= first {
                let d = x - first;
                vstd::arithmetic::div_mod::lemma_mod_add_multiples_vanish(d - step, step);
                if d < step {
                    vstd::arithmetic::div_mod::lemma_small_mod(d as nat, step as nat);
                }
                assert(0int % step == 0) by (nonlinear_arith)
                    requires
                        step > 0,
                ;
            }
        }
        if first > 0 {
            assert(all == seq![first] + rest);
            if rest.contains(x) {
                let k = choose|k: int| 0 <= k < rest.len() && rest[k] == x;
                assert(all[k + 1] == x);
            }
            if x == first {
                assert(all[0] == x);
            }
            if all.contains(x) {
                let k = choose|k: int| 0 <= k < all.len() && all[k] == x;
                if k > 0 {
                    assert(rest[k - 1] == x);
                }
            }
        }
    }
}

/// The strikes of a made-up chain are multiples of its step: a fortieth of the price for
/// puts, at least half a dollar; ten dollars, one or a half for structures, by the size of
/// the price.
pub proof fn law_steps(spot: int)
    requires
        spot > 0,
    ensures
        put_step(spot) >= 500_000,
        put_step(spot) > 500_000 ==> 40 * put_step(spot) <= spot < 40 * (put_step(spot) + 1),
        spot < 20_000_000 ==> put_step(spot) == 500_000,
        spot >= 1_000_000_000 ==> structure_step(spot) == 10_000_000,
        100_000_000 <= spot < 1_000_000_000 ==> structure_step(spot) == 1_000_000,
        spot < 100_000_000 ==> structure_step(spot) == 500_000,
{
}

/// The made-up strikes reach no further than five percent above the price for puts, and
/// eight percent for structures.
pub proof fn law_grid_reach(spot: int, x: int)
    requires
        spot > 0,
    ensures
        put_grid(spot).contains(x) ==> 0 < x && 100 * x <= 105 * spot,
        structure_grid(spot).contains(x) ==> 0 < x && 100 * x <= 108 * spot,
{
    law_grid(
        crate::fixed::round_away(3 * spot, 4 * put_step(spot)) * put_step(spot),
        put_step(spot),
        spot * 105 / 100,
        x,
    );
    law_grid(
        crate::fixed::round_away(92 * spot, 100 * structure_step(spot)) * structure_step(spot),
        structure_step(spot),
        spot * 108 / 100,
        x,
    );
}

/// The made-up volatility is 15 hundredths at the money, rises by six tenths of the
/// distance below the price, and stays between 8 and 60 hundredths.
pub proof fn law_skew(spot: int, strike: int, v: int)
    requires
        spot > 0,
        80_000 < v < 600_000,
    ensures
        skew(spot, strike) == v <==> (v - 150_000) * spot <= 600_000 * (spot - strike) < (v
            - 149_999) * spot,
        80_000 <= skew(spot, strike) <= 600_000,
        skew(spot, spot) == 150_000,
{
    let a = 600_000 * (spot - strike);
    let q = a / spot;
    assert(q * spot <= a < (q + 1) * spot) by (nonlinear_arith)
        requires
            q == a / spot,
            spot > 0,
    ;
    let u = v - 150_000;
    assert(u * spot <= a && a < (u + 1) * spot ==> u == q) by (nonlinear_arith)
        requires
            q * spot <= a < (q + 1) * spot,
            spot > 0,
    ;
    assert(0int / spot == 0) by (nonlinear_arith)
        requires
            spot > 0,
    ;
}

/// A demonstration advises on each symbol by its made-up price and chain, with a budget of
/// 120 shares at that price.
pub proof fn law_demo_advice(
    symbols: Seq<String>,
    chains: Seq<Vec<OptionQuote>>,
    cfg: EngineConfig,
    today: int,
    advice: Seq<Option<SuggestionView>>,
    i: int,
)
    requires
        puts_advised(symbols, chains, cfg, today, advice),
        0 <= i < symbols.len(),
    ensures
        advice.len() == symbols.len(),
        ({
            let spot = spot_of(symbols[i]@);
            csp_answer(symbols[i]@, spot, chains[i]@, 120 * spot, cfg, today, advice[i])
        }),
{
    assert(advice[i] == advice[i]);
    assert(spot_of(symbols[i]@) * 120 == 120 * spot_of(symbols[i]@));
}

} // verus!

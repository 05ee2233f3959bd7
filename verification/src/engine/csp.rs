//! Cash-secured puts and put credit spreads: the entry leg of the wheel.

use vstd::prelude::*;
use vstd::string::*;
use crate::dates::dte;
use crate::engine::math::{
    annualized_yield, contracts, contracts_for, entry_score, law_contracts_within_budget,
    passes_short_gates, resolved_delta, score_of, short_gates, yield_on,
};
use crate::engine::types::{
    chain_wf, opt_view, ActionKind, EngineConfig, KindView, OptionQuote, Right, Suggestion,
    SuggestionView, UnderlyingQuote,
};
use crate::fixed::{
    cents, dec_text, int_text, is_price, push_dec, push_int, push_ratio, ratio_text, round_cents,
    SCALE,
};
use crate::text::own;

verus! {

/// Whether a quote can be sold as a cash-secured put.
pub open spec fn csp_fits(
    q: OptionQuote,
    spot: int,
    max_collateral: int,
    cfg: EngineConfig,
    today: int,
) -> bool {
    let d = q.expiry - today;
    &&& q.right == Right::Put
    &&& q.strike < spot
    &&& short_gates(q, spot, d, cfg)
    &&& contracts(max_collateral, q.strike as int) >= 1
    &&& yield_on(q.spec_mid(), q.strike as int, d) >= cfg.min_annualized_yield * 1_000
}

/// The rank of a cash-secured put.
pub open spec fn csp_score(q: OptionQuote, spot: int, cfg: EngineConfig, today: int) -> int {
    let d = q.expiry - today;
    score_of(yield_on(q.spec_mid(), q.strike as int, d), resolved_delta(q, spot, d)->0, cfg)
}

/// Whether the `i`-th quote is the best cash-secured put: it fits, none that fits
/// ranks higher, and none before it ranks as high.
pub open spec fn csp_best(
    quotes: Seq<OptionQuote>,
    spot: int,
    max_collateral: int,
    cfg: EngineConfig,
    today: int,
    i: int,
) -> bool {
    &&& 0 <= i < quotes.len()
    &&& csp_fits(quotes[i], spot, max_collateral, cfg, today)
    &&& forall|j: int|
        0 <= j < quotes.len() && csp_fits(#[trigger] quotes[j], spot, max_collateral, cfg, today)
            ==> csp_score(quotes[j], spot, cfg, today) <= csp_score(quotes[i], spot, cfg, today) && (
        j < i ==> csp_score(quotes[j], spot, cfg, today) < csp_score(quotes[i], spot, cfg, today))
}

/// The suggestion to sell the put `q`.
pub open spec fn csp_suggestion(
    symbol: Seq<char>,
    q: OptionQuote,
    spot: int,
    max_collateral: int,
    today: int,
) -> SuggestionView {
    let d = q.expiry - today;
    let qty = contracts(max_collateral, q.strike as int);
    let ad = resolved_delta(q, spot, d)->0;
    let ann = yield_on(q.spec_mid(), q.strike as int, d);
    SuggestionView {
        symbol,
        kind: KindView::SellPut,
        right: Right::Put,
        strike: q.strike as int,
        underlying_price: spot,
        expiry: q.expiry as int,
        dte: d,
        quantity: qty,
        limit_price: cents(q.spec_mid()),
        delta: Some(ad),
        premium_total: cents(q.spec_mid()) * 100 * qty,
        capital_required: q.strike * 100 * qty,
        annualized_yield: ann,
        rationale: "CSP "@ + dec_text(ad, 2) + "Δ, "@ + int_text(d) + "DTE, $"@ + dec_text(
            q.spec_mid(),
            2,
        ) + " credit → "@ + ratio_text(ann, 10_000_000, 1) + "% annualized"@,
    }
}

/// Whether `r` is the cash-secured put to sell: the best one of the chain, or
/// `None` where there is no spot price or nothing fits.
pub open spec fn csp_answer(
    symbol: Seq<char>,
    spot: int,
    quotes: Seq<OptionQuote>,
    max_collateral: int,
    cfg: EngineConfig,
    today: int,
    r: Option<SuggestionView>,
) -> bool {
    match r {
        None => spot <= 0 || (forall|i: int|
            0 <= i < quotes.len() ==> !csp_fits(
                #[trigger] quotes[i],
                spot,
                max_collateral,
                cfg,
                today,
            )),
        Some(s) => spot > 0 && exists|i: int|
            {
                &&& #[trigger] csp_best(quotes, spot, max_collateral, cfg, today, i)
                &&& s == csp_suggestion(symbol, quotes[i], spot, max_collateral, today)
            },
    }
}

/// Chooses the best cash-secured put for `symbol`, or `None` where nothing fits.
/// `max_collateral` is the most cash that may be tied up; it sizes the position.
pub fn select_csp(
    symbol: &str,
    underlying: UnderlyingQuote,
    quotes: &[OptionQuote],
    max_collateral: i64,
    cfg: &EngineConfig,
    today: i32,
) -> (r: Option<Suggestion>)
    requires
        chain_wf(quotes@),
        is_price(underlying.last as int),
    ensures
        csp_answer(
            symbol@,
            underlying.last as int,
            quotes@,
            max_collateral as int,
            *cfg,
            today as int,
            opt_view(r),
        ),
        r is Some ==> (r->0)@.wf(),
{
    let spot: i64 = underlying.last;
    if spot <= 0 {
        return None;
    }
    let mut best: Option<(i128, usize)> = None;
    let mut i: usize = 0;
    while i < quotes.len()
        invariant
            i <= quotes@.len(),
            chain_wf(quotes@),
            best is None ==> forall|j: int|
                0 <= j < i ==> !csp_fits(
                    #[trigger] quotes@[j],
                    spot as int,
                    max_collateral as int,
                    *cfg,
                    today as int,
                ),
            best is Some ==> (best->0).1 < i && csp_best(
                quotes@.take(i as int),
                spot as int,
                max_collateral as int,
                *cfg,
                today as int,
                (best->0).1 as int,
            ) && (best->0).0 == csp_score(
                quotes@[(best->0).1 as int],
                spot as int,
                *cfg,
                today as int,
            ),
        decreases quotes@.len() - i,
    {
        let q = quotes[i];
        let fit = csp_rank(&q, spot, max_collateral, cfg, today);
        let ghost before = quotes@.take(i as int);
        let ghost after = quotes@.take(i + 1);
        assert(after =~= before.push(q));
        assert forall|j: int| 0 <= j < i implies #[trigger] after[j] == before[j] by {}
        if let Some(score) = fit {
            let better = match best {
                None => true,
                Some((b, _)) => score > b,
            };
            if better {
                best = Some((score, i));
            }
        }
        i = i + 1;
    }
    assert(quotes@.take(i as int) =~= quotes@);
    match best {
        None => None,
        Some((_, k)) => Some(
            csp_build(symbol, &quotes[k], spot, max_collateral, cfg, today),
        ),
    }
}

/// The rank of a quote as a cash-secured put, or `None` where it does not fit.
fn csp_rank(q: &OptionQuote, spot: i64, max_collateral: i64, cfg: &EngineConfig, today: i32) -> (r:
    Option<i128>)
    ensures
        r is Some <==> csp_fits(*q, spot as int, max_collateral as int, *cfg, today as int),
        r is Some ==> r->0 == csp_score(*q, spot as int, *cfg, today as int),
{
    if q.right != Right::Put || q.strike >= spot {
        return None;
    }
    let d: i64 = dte(today, q.expiry);
    match passes_short_gates(q, spot, d, cfg) {
        None => None,
        Some(ad) => {
            if contracts_for(max_collateral, q.strike) < 1 {
                return None;
            }
            let ann: i128 = annualized_yield(q.mid(), q.strike, d);
            if ann < cfg.min_annualized_yield as i128 * 1_000 {
                return None;
            }
            Some(entry_score(ann, ad, cfg))
        },
    }
}

fn csp_build(
    symbol: &str,
    q: &OptionQuote,
    spot: i64,
    max_collateral: i64,
    cfg: &EngineConfig,
    today: i32,
) -> (r: Suggestion)
    requires
        q.wf(),
        is_price(spot as int),
        csp_fits(*q, spot as int, max_collateral as int, *cfg, today as int),
    ensures
        r@ == csp_suggestion(symbol@, *q, spot as int, max_collateral as int, today as int),
        r@.wf(),
{
    let d: i64 = dte(today, q.expiry);
    let ad: i64 = match passes_short_gates(q, spot, d, cfg) {
        Some(x) => x,
        None => 0,
    };
    let premium: i64 = q.mid();
    let qty: i32 = contracts_for(max_collateral, q.strike);
    let ann: i128 = annualized_yield(premium, q.strike, d);
    let limit: i64 = round_cents(premium);
    let rationale = csp_rationale(ad, d, premium, ann);
    let total: i128 = money_of(limit, qty);
    let capital: i128 = money_of(q.strike, qty);
    Suggestion {
        symbol: own(symbol),
        kind: ActionKind::SellPut,
        right: Right::Put,
        strike: q.strike,
        underlying_price: spot,
        expiry: q.expiry,
        dte: d,
        quantity: qty,
        limit_price: limit,
        delta: Some(ad),
        premium_total: total,
        capital_required: capital,
        annualized_yield: ann,
        rationale,
    }
}

/// An amount per share times the 100 shares of each of `qty` contracts.
pub fn money_of(per_share: i64, qty: i32) -> (r: i128)
    ensures
        r == per_share * 100 * qty,
        crate::fixed::is_money(r as int),
        -40_000_000_000_000_000 <= per_share <= 40_000_000_000_000_000 ==> crate::fixed::is_total(
            r as int,
        ),
{
    let p: i128 = per_share as i128 * 100;
    let n: i128 = qty as i128;
    proof {
        assert(-2_000_000_000_000_000_000_000_000_000_000 <= p * n
            <= 2_000_000_000_000_000_000_000_000_000_000) by (nonlinear_arith)
            requires
                -922_337_203_685_477_580_800 <= p <= 922_337_203_685_477_580_800,
                -2_147_483_648 <= n <= 2_147_483_647,
        ;
        if -40_000_000_000_000_000 <= per_share <= 40_000_000_000_000_000 {
            assert(-10_000_000_000_000_000_000_000_000_000 <= p * n
                <= 10_000_000_000_000_000_000_000_000_000) by (nonlinear_arith)
                requires
                    -4_000_000_000_000_000_000 <= p <= 4_000_000_000_000_000_000,
                    -2_147_483_648 <= n <= 2_147_483_647,
            ;
        }
        assert(p * n == per_share * 100 * qty) by (nonlinear_arith)
            requires
                p == per_share * 100,
                n == qty,
        ;
    }
    p * n
}

fn csp_rationale(ad: i64, d: i64, premium: i64, ann: i128) -> (r: String)
    requires
        -crate::fixed::MAX_PART <= ann <= crate::fixed::MAX_PART,
    ensures
        r@ == "CSP "@ + dec_text(ad as int, 2) + "Δ, "@ + int_text(d as int) + "DTE, $"@
            + dec_text(premium as int, 2) + " credit → "@ + ratio_text(ann as int, 10_000_000, 1)
            + "% annualized"@,
{
    let mut s = String::from_str("CSP ");
    push_dec(&mut s, ad as i128, 2);
    s.append("Δ, ");
    push_int(&mut s, d as i128);
    s.append("DTE, $");
    push_dec(&mut s, premium as i128, 2);
    s.append(" credit → ");
    push_ratio(&mut s, ann, 10_000_000, 1);
    s.append("% annualized");
    s
}

/// A suggested cash-secured put ties up no more than the budget.
pub proof fn law_csp_within_budget(
    symbol: Seq<char>,
    q: OptionQuote,
    spot: int,
    max_collateral: int,
    cfg: EngineConfig,
    today: int,
)
    requires
        csp_fits(q, spot, max_collateral, cfg, today),
        q.strike > 0,
    ensures
        csp_suggestion(symbol, q, spot, max_collateral, today).capital_required <= max_collateral,
        csp_suggestion(symbol, q, spot, max_collateral, today).quantity >= 1,
        csp_suggestion(symbol, q, spot, max_collateral, today).strike < spot,
{
    law_contracts_within_budget(max_collateral, q.strike as int);
}

// --- put credit spreads ----------------------------------------------------

/// Whether `q` can protect the short put `short`: a cheaper put of the same
/// expiry below it, no further below than the configured fraction.
pub open spec fn hedge_fits(q: OptionQuote, short: OptionQuote, cfg: EngineConfig) -> bool {
    &&& q.right == Right::Put
    &&& q.expiry == short.expiry
    &&& q.strike < short.strike
    &&& q.strike * SCALE >= short.strike * (SCALE - cfg.hedge_pct_below)
    &&& 0 < q.spec_mid() < short.spec_mid()
}

/// Whether the `j`-th quote is the protection of `short`: the first of those
/// with the lowest strike that fit.
pub open spec fn is_hedge(
    quotes: Seq<OptionQuote>,
    short: OptionQuote,
    cfg: EngineConfig,
    j: int,
) -> bool {
    &&& 0 <= j < quotes.len()
    &&& hedge_fits(quotes[j], short, cfg)
    &&& forall|k: int|
        0 <= k < quotes.len() && hedge_fits(#[trigger] quotes[k], short, cfg) ==> quotes[j].strike
            <= quotes[k].strike && (k < j ==> quotes[j].strike < quotes[k].strike)
}

/// The index of the quote that protects `short`.
pub open spec fn hedge_of(quotes: Seq<OptionQuote>, short: OptionQuote, cfg: EngineConfig) -> int {
    choose|j: int| is_hedge(quotes, short, cfg, j)
}

/// Whether `short` can be sold as part of a put credit spread.
pub open spec fn spread_fits(
    quotes: Seq<OptionQuote>,
    short: OptionQuote,
    spot: int,
    max_collateral: int,
    cfg: EngineConfig,
    today: int,
) -> bool {
    let d = short.expiry - today;
    let long = quotes[hedge_of(quotes, short, cfg)];
    let net = short.spec_mid() - long.spec_mid();
    &&& short.right == Right::Put
    &&& short.strike < spot
    &&& short_gates(short, spot, d, cfg)
    &&& exists|j: int| is_hedge(quotes, short, cfg, j)
    &&& net >= cfg.hedge_min_credit
    &&& contracts(max_collateral, short.strike as int) >= 1
    &&& yield_on(net, short.strike - long.strike, d) >= cfg.min_annualized_yield * 1_000
}

/// The rank of a put credit spread.
pub open spec fn spread_score(
    quotes: Seq<OptionQuote>,
    short: OptionQuote,
    spot: int,
    cfg: EngineConfig,
    today: int,
) -> int {
    let d = short.expiry - today;
    let long = quotes[hedge_of(quotes, short, cfg)];
    score_of(
        yield_on(short.spec_mid() - long.spec_mid(), short.strike - long.strike, d),
        resolved_delta(short, spot, d)->0,
        cfg,
    )
}

/// Whether the `i`-th quote is the short leg of the best spread: it fits, none
/// that fits ranks higher, and none before it ranks as high.
pub open spec fn spread_best(
    quotes: Seq<OptionQuote>,
    upto: int,
    spot: int,
    max_collateral: int,
    cfg: EngineConfig,
    today: int,
    i: int,
) -> bool {
    &&& 0 <= i < upto
    &&& spread_fits(quotes, quotes[i], spot, max_collateral, cfg, today)
    &&& forall|j: int|
        0 <= j < upto && spread_fits(
            quotes,
            #[trigger] quotes[j],
            spot,
            max_collateral,
            cfg,
            today,
        ) ==> spread_score(quotes, quotes[j], spot, cfg, today) <= spread_score(
            quotes,
            quotes[i],
            spot,
            cfg,
            today,
        ) && (j < i ==> spread_score(quotes, quotes[j], spot, cfg, today) < spread_score(
            quotes,
            quotes[i],
            spot,
            cfg,
            today,
        ))
}

/// The suggestion to sell `short` and to buy `long` below it.
pub open spec fn spread_suggestion(
    symbol: Seq<char>,
    short: OptionQuote,
    long: OptionQuote,
    spot: int,
    max_collateral: int,
    today: int,
) -> SuggestionView {
    let d = short.expiry - today;
    let qty = contracts(max_collateral, short.strike as int);
    let ad = resolved_delta(short, spot, d)->0;
    let credit = short.spec_mid() - long.spec_mid();
    let net = cents(credit);
    let width = short.strike - long.strike;
    let ann = yield_on(credit, width, d);
    SuggestionView {
        symbol,
        kind: KindView::SellPutSpread {
            long_strike: long.strike as int,
            long_price: cents(long.spec_mid()),
        },
        right: Right::Put,
        strike: short.strike as int,
        underlying_price: spot,
        expiry: short.expiry as int,
        dte: d,
        quantity: qty,
        limit_price: net,
        delta: Some(ad),
        premium_total: net * 100 * qty,
        capital_required: width * 100 * qty,
        annualized_yield: ann,
        rationale: "Put spread "@ + dec_text(short.strike as int, 1) + "/"@ + dec_text(
            long.strike as int,
            1,
        ) + " ("@ + dec_text(ad, 2) + "Δ short), "@ + int_text(d) + "DTE, $"@ + dec_text(net, 2)
            + " credit, $"@ + dec_text(width * 100, 0) + " width → "@ + ratio_text(
            ann,
            10_000_000,
            1,
        ) + "% annualized, max loss $"@ + dec_text((width - net) * 100 * qty, 0),
    }
}

proof fn lemma_hedge_unique(quotes: Seq<OptionQuote>, short: OptionQuote, cfg: EngineConfig, j: int)
    requires
        is_hedge(quotes, short, cfg, j),
    ensures
        hedge_of(quotes, short, cfg) == j,
{
    let k = hedge_of(quotes, short, cfg);
    assert(is_hedge(quotes, short, cfg, k));
    assert(hedge_fits(quotes[k], short, cfg));
    assert(hedge_fits(quotes[j], short, cfg));
}

fn fits_as_hedge(q: &OptionQuote, short: &OptionQuote, cfg: &EngineConfig) -> (r: bool)
    requires
        q.wf(),
        short.wf(),
    ensures
        r == hedge_fits(*q, *short, *cfg),
{
    let s: i128 = short.strike as i128;
    let part: i128 = 1_000_000 - cfg.hedge_pct_below as i128;
    proof {
        assert(-0x7000_0000_0000_0000_0000_0000_0000_0000 <= s * part
            <= 0x7000_0000_0000_0000_0000_0000_0000_0000) by (nonlinear_arith)
            requires
                -1_000_000_000_000_000_000 <= s <= 1_000_000_000_000_000_000,
                -10_000_000_000_000_000_000 <= part <= 10_000_000_000_000_000_000,
        ;
    }
    q.right == Right::Put && q.expiry == short.expiry && q.strike < short.strike && q.strike as i128
        * 1_000_000 >= s * part && q.mid() > 0 && q.mid() < short.mid()
}

/// The first of the lowest quotes that can protect `short`.
fn find_hedge(quotes: &[OptionQuote], short: &OptionQuote, cfg: &EngineConfig) -> (r: Option<usize>)
    requires
        chain_wf(quotes@),
        short.wf(),
    ensures
        r is Some <==> exists|j: int| is_hedge(quotes@, *short, *cfg, j),
        r is Some ==> r->0 < quotes@.len() && is_hedge(quotes@, *short, *cfg, r->0 as int)
            && hedge_of(quotes@, *short, *cfg) == r->0,
{
    let mut best: Option<usize> = None;
    let mut i: usize = 0;
    while i < quotes.len()
        invariant
            i <= quotes@.len(),
            chain_wf(quotes@),
            short.wf(),
            best is None ==> forall|k: int|
                0 <= k < i ==> !hedge_fits(#[trigger] quotes@[k], *short, *cfg),
            best is Some ==> best->0 < i && hedge_fits(quotes@[best->0 as int], *short, *cfg) && (
            forall|k: int|
                0 <= k < i && hedge_fits(#[trigger] quotes@[k], *short, *cfg)
                    ==> quotes@[best->0 as int].strike <= quotes@[k].strike && (k < best->0
                    ==> quotes@[best->0 as int].strike < quotes@[k].strike)),
        decreases quotes@.len() - i,
    {
        let q = quotes[i];
        if fits_as_hedge(&q, short, cfg) {
            let lower = match best {
                None => true,
                Some(b) => q.strike < quotes[b].strike,
            };
            if lower {
                best = Some(i);
            }
        }
        i = i + 1;
    }
    proof {
        match best {
            Some(b) => {
                assert(is_hedge(quotes@, *short, *cfg, b as int));
                lemma_hedge_unique(quotes@, *short, *cfg, b as int);
            },
            None => {
                assert forall|j: int| !is_hedge(quotes@, *short, *cfg, j) by {
                    if is_hedge(quotes@, *short, *cfg, j) {
                        assert(hedge_fits(quotes@[j], *short, *cfg));
                    }
                }
            },
        }
    }
    best
}

/// The rank of the spread with the given short leg and the index of its
/// protection, or `None` where it does not fit.
fn spread_rank(
    quotes: &[OptionQuote],
    short: &OptionQuote,
    spot: i64,
    max_collateral: i64,
    cfg: &EngineConfig,
    today: i32,
) -> (r: Option<(i128, usize)>)
    requires
        chain_wf(quotes@),
        short.wf(),
    ensures
        r is Some <==> spread_fits(
            quotes@,
            *short,
            spot as int,
            max_collateral as int,
            *cfg,
            today as int,
        ),
        r is Some ==> (r->0).0 == spread_score(quotes@, *short, spot as int, *cfg, today as int),
        r is Some ==> (r->0).1 < quotes@.len() && is_hedge(quotes@, *short, *cfg, (r->0).1 as int)
            && (r->0).1 == hedge_of(quotes@, *short, *cfg),
{
    if short.right != Right::Put || short.strike >= spot {
        return None;
    }
    let d: i64 = dte(today, short.expiry);
    let ad = match passes_short_gates(short, spot, d, cfg) {
        None => {
            return None;
        },
        Some(x) => x,
    };
    let k = match find_hedge(quotes, short, cfg) {
        None => {
            return None;
        },
        Some(x) => x,
    };
    let long = quotes[k];
    let width: i64 = short.strike - long.strike;
    let net: i64 = short.mid() - long.mid();
    if net < cfg.hedge_min_credit {
        return None;
    }
    if contracts_for(max_collateral, short.strike) < 1 {
        return None;
    }
    let ann: i128 = annualized_yield(net, width, d);
    if ann < cfg.min_annualized_yield as i128 * 1_000 {
        return None;
    }
    Some((entry_score(ann, ad, cfg), k))
}

/// Whether `r` is the put credit spread to sell: the best one of the chain, or
/// `None` where there is no spot price or nothing fits.
pub open spec fn spread_answer(
    symbol: Seq<char>,
    spot: int,
    quotes: Seq<OptionQuote>,
    max_collateral: int,
    cfg: EngineConfig,
    today: int,
    r: Option<SuggestionView>,
) -> bool {
    match r {
        None => spot <= 0 || (forall|i: int|
            0 <= i < quotes.len() ==> !spread_fits(
                quotes,
                #[trigger] quotes[i],
                spot,
                max_collateral,
                cfg,
                today,
            )),
        Some(s) => spot > 0 && exists|i: int|
            {
                &&& #[trigger] spread_best(
                    quotes,
                    quotes.len() as int,
                    spot,
                    max_collateral,
                    cfg,
                    today,
                    i,
                )
                &&& s == spread_suggestion(
                    symbol,
                    quotes[i],
                    quotes[hedge_of(quotes, quotes[i], cfg)],
                    spot,
                    max_collateral,
                    today,
                )
            },
    }
}

/// Chooses the best defined-risk put credit spread for `symbol`, or `None` where
/// nothing fits: a short put with the gates of a cash-secured put, protected by a
/// cheaper long put below it. `max_collateral` sizes the position against the
/// short strike, as it does for a cash-secured put; the capital held is only the
/// width of the spread.
pub fn select_put_spread(
    symbol: &str,
    underlying: UnderlyingQuote,
    quotes: &[OptionQuote],
    max_collateral: i64,
    cfg: &EngineConfig,
    today: i32,
) -> (r: Option<Suggestion>)
    requires
        chain_wf(quotes@),
        is_price(underlying.last as int),
    ensures
        spread_answer(
            symbol@,
            underlying.last as int,
            quotes@,
            max_collateral as int,
            *cfg,
            today as int,
            opt_view(r),
        ),
        r is Some ==> (r->0)@.wf(),
{
    let spot: i64 = underlying.last;
    if spot <= 0 {
        return None;
    }
    let mut best: Option<(i128, usize, usize)> = None;
    let mut i: usize = 0;
    while i < quotes.len()
        invariant
            i <= quotes@.len(),
            chain_wf(quotes@),
            best is None ==> forall|j: int|
                0 <= j < i ==> !spread_fits(
                    quotes@,
                    #[trigger] quotes@[j],
                    spot as int,
                    max_collateral as int,
                    *cfg,
                    today as int,
                ),
            best is Some ==> (best->0).1 < i && spread_best(
                quotes@,
                i as int,
                spot as int,
                max_collateral as int,
                *cfg,
                today as int,
                (best->0).1 as int,
            ) && (best->0).0 == spread_score(
                quotes@,
                quotes@[(best->0).1 as int],
                spot as int,
                *cfg,
                today as int,
            ),
            best is Some ==> (best->0).2 < quotes@.len() && is_hedge(
                quotes@,
                quotes@[(best->0).1 as int],
                *cfg,
                (best->0).2 as int,
            ) && (best->0).2 == hedge_of(quotes@, quotes@[(best->0).1 as int], *cfg),
        decreases quotes@.len() - i,
    {
        let q = quotes[i];
        let fit = spread_rank(quotes, &q, spot, max_collateral, cfg, today);
        if let Some((score, k)) = fit {
            let better = match best {
                None => true,
                Some((b, _, _)) => score > b,
            };
            if better {
                best = Some((score, i, k));
            }
        }
        i = i + 1;
    }
    match best {
        None => None,
        Some((_, s, k)) => Some(
            spread_build(symbol, &quotes[s], &quotes[k], spot, max_collateral, cfg, today),
        ),
    }
}

fn spread_build(
    symbol: &str,
    short: &OptionQuote,
    long: &OptionQuote,
    spot: i64,
    max_collateral: i64,
    cfg: &EngineConfig,
    today: i32,
) -> (r: Suggestion)
    requires
        short.wf(),
        long.wf(),
        is_price(spot as int),
        hedge_fits(*long, *short, *cfg),
        short_gates(*short, spot as int, short.expiry - today, *cfg),
    ensures
        r@ == spread_suggestion(
            symbol@,
            *short,
            *long,
            spot as int,
            max_collateral as int,
            today as int,
        ),
        r@.wf(),
{
    let d: i64 = dte(today, short.expiry);
    let ad: i64 = match passes_short_gates(short, spot, d, cfg) {
        Some(x) => x,
        None => 0,
    };
    let qty: i32 = contracts_for(max_collateral, short.strike);
    let width: i64 = short.strike - long.strike;
    let credit: i64 = short.mid() - long.mid();
    let ann: i128 = annualized_yield(credit, width, d);
    let net: i64 = round_cents(credit);
    let long_price: i64 = round_cents(long.mid());
    let total: i128 = money_of(net, qty);
    let capital: i128 = money_of(width, qty);
    let loss: i128 = money_of(width - net, qty);
    let rationale = spread_rationale(short.strike, long.strike, ad, d, net, width, ann, loss);
    Suggestion {
        symbol: own(symbol),
        kind: ActionKind::SellPutSpread { long_strike: long.strike, long_price },
        right: Right::Put,
        strike: short.strike,
        underlying_price: spot,
        expiry: short.expiry,
        dte: d,
        quantity: qty,
        limit_price: net,
        delta: Some(ad),
        premium_total: total,
        capital_required: capital,
        annualized_yield: ann,
        rationale,
    }
}

fn spread_rationale(
    short: i64,
    long: i64,
    ad: i64,
    d: i64,
    net: i64,
    width: i64,
    ann: i128,
    loss: i128,
) -> (r: String)
    requires
        -crate::fixed::MAX_PART <= ann <= crate::fixed::MAX_PART,
        crate::fixed::is_money(loss as int),
    ensures
        r@ == "Put spread "@ + dec_text(short as int, 1) + "/"@ + dec_text(long as int, 1) + " ("@
            + dec_text(ad as int, 2) + "Δ short), "@ + int_text(d as int) + "DTE, $"@ + dec_text(
            net as int,
            2,
        ) + " credit, $"@ + dec_text(width * 100, 0) + " width → "@ + ratio_text(
            ann as int,
            10_000_000,
            1,
        ) + "% annualized, max loss $"@ + dec_text(loss as int, 0),
{
    let mut s = String::from_str("Put spread ");
    push_dec(&mut s, short as i128, 1);
    s.append("/");
    push_dec(&mut s, long as i128, 1);
    s.append(" (");
    push_dec(&mut s, ad as i128, 2);
    s.append("Δ short), ");
    push_int(&mut s, d as i128);
    s.append("DTE, $");
    push_dec(&mut s, net as i128, 2);
    s.append(" credit, $");
    push_dec(&mut s, width as i128 * 100, 0);
    s.append(" width → ");
    push_ratio(&mut s, ann, 10_000_000, 1);
    s.append("% annualized, max loss $");
    push_dec(&mut s, loss, 0);
    s
}

/// A suggested spread is a genuine one: its long leg stands below the short one
/// in the same expiry, within the configured distance, and costs less; it is
/// sized as the cash-secured put on the short leg would be.
pub proof fn law_spread_is_hedged(
    symbol: Seq<char>,
    quotes: Seq<OptionQuote>,
    short: OptionQuote,
    spot: int,
    max_collateral: int,
    cfg: EngineConfig,
    today: int,
)
    requires
        spread_fits(quotes, short, spot, max_collateral, cfg, today),
    ensures
        ({
            let long = quotes[hedge_of(quotes, short, cfg)];
            let s = spread_suggestion(symbol, short, long, spot, max_collateral, today);
            &&& long.expiry == short.expiry
            &&& long.strike < short.strike
            &&& short.strike * (SCALE - cfg.hedge_pct_below) <= long.strike * SCALE
            &&& long.spec_mid() < short.spec_mid()
            &&& s.capital_required > 0
            &&& s.quantity == csp_suggestion(
                symbol,
                short,
                spot,
                max_collateral,
                today,
            ).quantity
        }),
{
    let j = choose|j: int| is_hedge(quotes, short, cfg, j);
    lemma_hedge_unique(quotes, short, cfg, j);
    let long = quotes[j];
    let qty = contracts(max_collateral, short.strike as int);
    assert((short.strike - long.strike) * 100 * qty > 0) by (nonlinear_arith)
        requires
            short.strike > long.strike,
            qty >= 1,
    ;
}

} // verus!

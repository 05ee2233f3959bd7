//! Covered calls: the income leg after assignment.

use vstd::prelude::*;
use vstd::string::*;
use crate::dates::dte;
use crate::engine::csp::money_of;
use crate::engine::math::{
    annualized_yield, entry_score, passes_short_gates, resolved_delta, score_of, short_gates,
    yield_on,
};
use crate::engine::types::{
    chain_wf, opt_view, ActionKind, EngineConfig, KindView, OptionQuote, Right, SharePosition,
    Suggestion, SuggestionView, UnderlyingQuote,
};
use crate::fixed::{
    cents, dec_text, int_text, is_price, push_dec, push_int, push_ratio, ratio_text, round_cents,
    SCALE,
};
use crate::text::own;

verus! {

/// Whole lots of 100 in a number of shares.
pub open spec fn lots(shares: int) -> int {
    if shares >= 0 {
        shares / 100
    } else {
        -((-shares) / 100)
    }
}

/// Whether a quote can be written as a covered call: not below cost basis plus
/// the configured margin, and within the gates of a new short.
pub open spec fn cc_fits(
    q: OptionQuote,
    spot: int,
    basis: int,
    cfg: EngineConfig,
    today: int,
) -> bool {
    let d = q.expiry - today;
    &&& q.right == Right::Call
    &&& q.strike * SCALE >= basis * (SCALE + cfg.cc_min_pct_above_basis)
    &&& short_gates(q, spot, d, cfg)
    &&& yield_on(q.spec_mid(), spot, d) >= cfg.min_annualized_yield * 1_000
}

/// The rank of a covered call; its yield is on the market value of the shares.
pub open spec fn cc_score(q: OptionQuote, spot: int, cfg: EngineConfig, today: int) -> int {
    let d = q.expiry - today;
    score_of(yield_on(q.spec_mid(), spot, d), resolved_delta(q, spot, d)->0, cfg)
}

/// Whether the `i`-th of the first `upto` quotes is the best covered call.
pub open spec fn cc_best(
    quotes: Seq<OptionQuote>,
    upto: int,
    spot: int,
    basis: int,
    cfg: EngineConfig,
    today: int,
    i: int,
) -> bool {
    &&& 0 <= i < upto
    &&& cc_fits(quotes[i], spot, basis, cfg, today)
    &&& forall|j: int|
        0 <= j < upto && cc_fits(#[trigger] quotes[j], spot, basis, cfg, today) ==> cc_score(
            quotes[j],
            spot,
            cfg,
            today,
        ) <= cc_score(quotes[i], spot, cfg, today) && (j < i ==> cc_score(
            quotes[j],
            spot,
            cfg,
            today,
        ) < cc_score(quotes[i], spot, cfg, today))
}

/// The suggestion to write `available` calls of the quote `q`.
pub open spec fn cc_suggestion(
    symbol: Seq<char>,
    q: OptionQuote,
    spot: int,
    basis: int,
    available: int,
    today: int,
) -> SuggestionView {
    let d = q.expiry - today;
    let ad = resolved_delta(q, spot, d)->0;
    let ann = yield_on(q.spec_mid(), spot, d);
    SuggestionView {
        symbol,
        kind: KindView::SellCall,
        right: Right::Call,
        strike: q.strike as int,
        underlying_price: spot,
        expiry: q.expiry as int,
        dte: d,
        quantity: available,
        limit_price: cents(q.spec_mid()),
        delta: Some(ad),
        premium_total: cents(q.spec_mid()) * 100 * available,
        capital_required: 0,
        annualized_yield: ann,
        rationale: "CC "@ + dec_text(ad, 2) + "Δ, "@ + int_text(d) + "DTE, strike $"@ + dec_text(
            q.strike as int,
            2,
        ) + " (basis $"@ + dec_text(basis, 2) + "), $"@ + dec_text(q.spec_mid(), 2)
            + " credit → "@ + ratio_text(ann, 10_000_000, 1) + "% annualized"@,
    }
}

/// Whether `r` is the covered call to write: the best one of the chain, or `None`
/// where there is no spot price, no free lot, or nothing fits.
pub open spec fn cc_answer(
    symbol: Seq<char>,
    spot: int,
    shares: SharePosition,
    committed: int,
    quotes: Seq<OptionQuote>,
    cfg: EngineConfig,
    today: int,
    r: Option<SuggestionView>,
) -> bool {
    let available = lots(shares.shares as int) - committed;
    let basis = shares.cost_basis as int;
    match r {
        None => spot <= 0 || available < 1 || (forall|i: int|
            0 <= i < quotes.len() ==> !cc_fits(#[trigger] quotes[i], spot, basis, cfg, today)),
        Some(s) => spot > 0 && available >= 1 && exists|i: int|
            {
                &&& #[trigger] cc_best(quotes, quotes.len() as int, spot, basis, cfg, today, i)
                &&& s == cc_suggestion(symbol, quotes[i], spot, basis, available, today)
            },
    }
}

/// Chooses the best covered call to write against held shares, or `None`. Never a
/// strike below cost basis, and only against lots not already committed.
pub fn select_covered_call(
    symbol: &str,
    underlying: UnderlyingQuote,
    shares: SharePosition,
    committed_call_contracts: i32,
    quotes: &[OptionQuote],
    cfg: &EngineConfig,
    today: i32,
) -> (r: Option<Suggestion>)
    requires
        chain_wf(quotes@),
        is_price(underlying.last as int),
        lots(shares.shares as int) - committed_call_contracts <= i32::MAX,
    ensures
        cc_answer(
            symbol@,
            underlying.last as int,
            shares,
            committed_call_contracts as int,
            quotes@,
            *cfg,
            today as int,
            opt_view(r),
        ),
        r is Some ==> (r->0)@.wf(),
{
    let spot: i64 = underlying.last;
    if spot <= 0 {
        return None;
    }
    let whole: i128 = if shares.shares >= 0 {
        shares.shares as i128 / 100
    } else {
        -((-(shares.shares as i128)) / 100)
    };
    let available: i128 = whole - committed_call_contracts as i128;
    if available < 1 {
        return None;
    }
    let basis: i64 = shares.cost_basis;
    let mut best: Option<(i128, usize)> = None;
    let mut i: usize = 0;
    while i < quotes.len()
        invariant
            i <= quotes@.len(),
            spot > 0,
            best is None ==> forall|j: int|
                0 <= j < i ==> !cc_fits(
                    #[trigger] quotes@[j],
                    spot as int,
                    basis as int,
                    *cfg,
                    today as int,
                ),
            best is Some ==> (best->0).1 < i && cc_best(
                quotes@,
                i as int,
                spot as int,
                basis as int,
                *cfg,
                today as int,
                (best->0).1 as int,
            ) && (best->0).0 == cc_score(
                quotes@[(best->0).1 as int],
                spot as int,
                *cfg,
                today as int,
            ),
        decreases quotes@.len() - i,
    {
        let q = quotes[i];
        let fit = cc_rank(&q, spot, basis, cfg, today);
        if let Some(score) = fit {
            let better = match best {
                None => true,
                Some((b, _)) => score > b,
            };
            if better {
                best = Some((score, i));
            }
        }
        i = i + 1;
    }
    match best {
        None => None,
        Some((_, k)) => Some(cc_build(symbol, &quotes[k], spot, basis, available as i32, cfg, today)),
    }
}

fn cc_rank(q: &OptionQuote, spot: i64, basis: i64, cfg: &EngineConfig, today: i32) -> (r: Option<
    i128,
>)
    ensures
        r is Some <==> cc_fits(*q, spot as int, basis as int, *cfg, today as int),
        r is Some ==> r->0 == cc_score(*q, spot as int, *cfg, today as int),
{
    let b: i128 = basis as i128;
    let part: i128 = 1_000_000 + cfg.cc_min_pct_above_basis as i128;
    proof {
        assert(-0x7000_0000_0000_0000_0000_0000_0000_0000 <= b * part
            <= 0x7000_0000_0000_0000_0000_0000_0000_0000) by (nonlinear_arith)
            requires
                -0x8000_0000_0000_0000 <= b <= 0x8000_0000_0000_0000,
                -0x9000_0000_0000_0000 <= part <= 0x9000_0000_0000_0000,
        ;
    }
    if q.right != Right::Call || (q.strike as i128 * 1_000_000) < b * part {
        return None;
    }
    let d: i64 = dte(today, q.expiry);
    match passes_short_gates(q, spot, d, cfg) {
        None => None,
        Some(ad) => {
            let ann: i128 = annualized_yield(q.mid(), spot, d);
            if ann < cfg.min_annualized_yield as i128 * 1_000 {
                None
            } else {
                Some(entry_score(ann, ad, cfg))
            }
        },
    }
}

fn cc_build(
    symbol: &str,
    q: &OptionQuote,
    spot: i64,
    basis: i64,
    available: i32,
    cfg: &EngineConfig,
    today: i32,
) -> (r: Suggestion)
    requires
        q.wf(),
        is_price(spot as int),
        cc_fits(*q, spot as int, basis as int, *cfg, today as int),
    ensures
        r@ == cc_suggestion(
            symbol@,
            *q,
            spot as int,
            basis as int,
            available as int,
            today as int,
        ),
        r@.wf(),
{
    let d: i64 = dte(today, q.expiry);
    let ad: i64 = match passes_short_gates(q, spot, d, cfg) {
        Some(x) => x,
        None => 0,
    };
    let premium: i64 = q.mid();
    let ann: i128 = annualized_yield(premium, spot, d);
    let limit: i64 = round_cents(premium);
    let mut s = String::from_str("CC ");
    push_dec(&mut s, ad as i128, 2);
    s.append("Δ, ");
    push_int(&mut s, d as i128);
    s.append("DTE, strike $");
    push_dec(&mut s, q.strike as i128, 2);
    s.append(" (basis $");
    push_dec(&mut s, basis as i128, 2);
    s.append("), $");
    push_dec(&mut s, premium as i128, 2);
    s.append(" credit → ");
    push_ratio(&mut s, ann, 10_000_000, 1);
    s.append("% annualized");
    let total: i128 = money_of(limit, available);
    Suggestion {
        symbol: own(symbol),
        kind: ActionKind::SellCall,
        right: Right::Call,
        strike: q.strike,
        underlying_price: spot,
        expiry: q.expiry,
        dte: d,
        quantity: available,
        limit_price: limit,
        delta: Some(ad),
        premium_total: total,
        capital_required: 0,
        annualized_yield: ann,
        rationale: s,
    }
}

/// A suggested call never caps the shares below their cost basis (for a margin
/// that is not negative), and never writes more contracts than there are free lots.
pub proof fn law_call_above_basis(
    symbol: Seq<char>,
    spot: int,
    shares: SharePosition,
    committed: int,
    quotes: Seq<OptionQuote>,
    cfg: EngineConfig,
    today: int,
    s: SuggestionView,
)
    requires
        cc_answer(symbol, spot, shares, committed, quotes, cfg, today, Some(s)),
        cfg.cc_min_pct_above_basis >= 0,
        shares.cost_basis >= 0,
    ensures
        s.strike >= shares.cost_basis,
        s.quantity + committed <= lots(shares.shares as int),
        s.capital_required == 0,
{
    let basis = shares.cost_basis as int;
    let i = choose|i: int|
        {
            &&& #[trigger] cc_best(quotes, quotes.len() as int, spot, basis, cfg, today, i)
            &&& s == cc_suggestion(
                symbol,
                quotes[i],
                spot,
                basis,
                lots(shares.shares as int) - committed,
                today,
            )
        };
    let k = quotes[i].strike as int;
    let pct = cfg.cc_min_pct_above_basis as int;
    assert(k >= basis) by (nonlinear_arith)
        requires
            k * 1_000_000 >= basis * (1_000_000 + pct),
            basis >= 0,
            pct >= 0,
    ;
}

} // verus!

//! What a suggestion says of itself, in its own figures, and which advice a plan holds.

use vstd::prelude::*;
use crate::engine::covered_call::{cc_answer, cc_best, cc_suggestion};
use crate::engine::csp::{
    csp_answer, csp_best, csp_suggestion, hedge_of, spread_answer, spread_best, spread_suggestion,
};
use crate::engine::manage::manage_answer;
use crate::engine::structures::assemble::StructureParams;
use crate::engine::structures::payoff::breakevens_of;
use crate::engine::structures::structure_answer;
use crate::engine::types::{
    EngineConfig, OpenShortOption, OptionQuote, Right, SharePosition, StructureKind,
    SuggestionView,
};
use crate::engine::{advises_each, given, is_advice, is_plan, SymbolContext};
use crate::fixed::{dec_text, int_text, ratio_text};

verus! {

// --- reasons ---------------------------------------------------------------

/// The reason for a put: its delta, days, price and yield.
pub proof fn law_put_reason(
    symbol: Seq<char>,
    spot: int,
    quotes: Seq<OptionQuote>,
    budget: int,
    cfg: EngineConfig,
    today: int,
    s: SuggestionView,
) -> (i: int)
    requires
        csp_answer(symbol, spot, quotes, budget, cfg, today, Some(s)),
    ensures
        0 <= i < quotes.len(),
        quotes[i].strike == s.strike,
        quotes[i].expiry == s.expiry,
        s.delta is Some,
        s.rationale == "CSP "@ + dec_text(s.delta->0, 2) + "Δ, "@ + int_text(s.dte) + "DTE, $"@
            + dec_text(quotes[i].spec_mid(), 2) + " credit → "@ + ratio_text(
            s.annualized_yield,
            10_000_000,
            1,
        ) + "% annualized"@,
{
    choose|i: int|
        {
            &&& #[trigger] csp_best(quotes, spot, budget, cfg, today, i)
            &&& s == csp_suggestion(symbol, quotes[i], spot, budget, today)
        }
}

/// The reason for a call: its delta, days and strike, the basis of the shares, its price
/// and its yield.
pub proof fn law_call_reason(
    symbol: Seq<char>,
    spot: int,
    shares: SharePosition,
    committed: int,
    quotes: Seq<OptionQuote>,
    cfg: EngineConfig,
    today: int,
    s: SuggestionView,
) -> (i: int)
    requires
        cc_answer(symbol, spot, shares, committed, quotes, cfg, today, Some(s)),
    ensures
        0 <= i < quotes.len(),
        quotes[i].strike == s.strike,
        quotes[i].expiry == s.expiry,
        s.delta is Some,
        s.rationale == "CC "@ + dec_text(s.delta->0, 2) + "Δ, "@ + int_text(s.dte)
            + "DTE, strike $"@ + dec_text(s.strike, 2) + " (basis $"@ + dec_text(
            shares.cost_basis as int,
            2,
        ) + "), $"@ + dec_text(quotes[i].spec_mid(), 2) + " credit → "@ + ratio_text(
            s.annualized_yield,
            10_000_000,
            1,
        ) + "% annualized"@,
{
    let basis = shares.cost_basis as int;
    let free = crate::engine::covered_call::lots(shares.shares as int) - committed;
    choose|i: int|
        {
            &&& #[trigger] cc_best(quotes, quotes.len() as int, spot, basis, cfg, today, i)
            &&& s == cc_suggestion(symbol, quotes[i], spot, basis, free, today)
        }
}

/// The reason for a spread: its strikes, the delta of its short, its days, credit and
/// width, its yield, and the width less the credit on all shares as its worst loss.
pub proof fn law_spread_reason(
    symbol: Seq<char>,
    spot: int,
    quotes: Seq<OptionQuote>,
    budget: int,
    cfg: EngineConfig,
    today: int,
    s: SuggestionView,
)
    requires
        spread_answer(symbol, spot, quotes, budget, cfg, today, Some(s)),
    ensures
        s.kind is SellPutSpread,
        s.delta is Some,
        ({
            let width = s.strike - s.kind->long_strike;
            s.rationale == "Put spread "@ + dec_text(s.strike, 1) + "/"@ + dec_text(
                s.kind->long_strike,
                1,
            ) + " ("@ + dec_text(s.delta->0, 2) + "Δ short), "@ + int_text(s.dte) + "DTE, $"@
                + dec_text(s.limit_price, 2) + " credit, $"@ + dec_text(width * 100, 0)
                + " width → "@ + ratio_text(s.annualized_yield, 10_000_000, 1)
                + "% annualized, max loss $"@ + dec_text(
                (width - s.limit_price) * 100 * s.quantity,
                0,
            )
        }),
{
    let i = choose|i: int|
        {
            &&& #[trigger] spread_best(quotes, quotes.len() as int, spot, budget, cfg, today, i)
            &&& s == spread_suggestion(
                symbol,
                quotes[i],
                quotes[hedge_of(quotes, quotes[i], cfg)],
                spot,
                budget,
                today,
            )
        };
}

/// The reason for a close: the percentage of the credit that is captured at the price now.
/// The reason for a roll: the delta, whether the short is in the money, and the days left.
pub proof fn law_managed_reason(
    symbol: Seq<char>,
    pos: OpenShortOption,
    current: OptionQuote,
    spot: int,
    cfg: EngineConfig,
    today: int,
)
    ensures
        ({
            let r = manage_answer(symbol, pos, current, spot, cfg, today);
            let left = pos.expiry - today;
            let itm = (pos.right == Right::Put && spot < pos.strike) || (pos.right == Right::Call
                && spot > pos.strike);
            let shown = if r is Some && (r->0).delta is Some {
                (r->0).delta->0
            } else {
                0
            };
            &&& r is Some && (r->0).kind is CloseForProfit && pos.entry_credit > 0 ==> (
            r->0).rationale == "Take profit: "@ + ratio_text(
                (pos.entry_credit - current.spec_mid()) * 100,
                pos.entry_credit as int,
                0,
            ) + "% of max premium captured"@
            &&& r is Some && (r->0).kind is Roll && itm ==> (r->0).rationale == "Defend: Δ"@
                + dec_text(shown, 2) + ", ITM"@ + ", "@ + int_text(left) + "DTE — roll to ~"@
                + int_text(cfg.max_dte as int) + "DTE for a net credit"@
            &&& r is Some && (r->0).kind is Roll && !itm ==> (r->0).rationale == "Defend: Δ"@
                + dec_text(shown, 2) + ""@ + ", "@ + int_text(left) + "DTE — roll to ~"@ + int_text(
                cfg.max_dte as int,
            ) + "DTE for a net credit"@
        }),
{
}

/// The reason for a structure of defined risk: its credit, its worst loss, its first and
/// its last breakeven and its number.
#[verifier::rlimit(40)]
pub proof fn law_structure_reason(
    params: StructureParams,
    symbol: Seq<char>,
    spot: int,
    quotes: Seq<OptionQuote>,
    today: int,
)
    requires
        structure_answer(params, symbol, spot, quotes, today) is Some,
        params.kind != StructureKind::ShortStrangle,
    ensures
        ({
            let s = structure_answer(params, symbol, spot, quotes, today)->0;
            let zeros = breakevens_of(s.kind->OpenStructure_legs);
            let (lo, hi) = if zeros.len() > 0 {
                (zeros.first(), zeros.last())
            } else {
                (0, 0)
            };
            s.rationale == params.kind.spec_label() + " "@ + int_text(s.dte) + "DTE: net credit $"@
                + dec_text(s.limit_price, 2) + ", max loss $"@ + dec_text(s.capital_required, 0)
                + ", breakeven $"@ + dec_text(lo, 0) + "–$"@ + dec_text(hi, 0) + " (×"@ + int_text(
                s.quantity,
            ) + ")"@
        }),
{
}

// --- what a plan holds -----------------------------------------------------

proof fn lemma_given(advice: Seq<Option<SuggestionView>>, x: SuggestionView)
    ensures
        given(advice).contains(x) <==> exists|i: int|
            0 <= i < advice.len() && #[trigger] advice[i] == Some(x),
        given(advice).len() <= advice.len(),
    decreases advice.len(),
{
    if advice.len() > 0 {
        let rest = advice.drop_last();
        lemma_given(rest, x);
        let (front, all) = (given(rest), given(advice));
        if all.contains(x) {
            let k = choose|k: int| 0 <= k < all.len() && all[k] == x;
            if k < front.len() {
                assert(front[k] == x);
                let i = choose|i: int| 0 <= i < rest.len() && #[trigger] rest[i] == Some(x);
                assert(advice[i] == Some(x));
            } else {
                assert(advice[advice.len() - 1] == Some(x));
            }
        }
        if exists|i: int| 0 <= i < advice.len() && #[trigger] advice[i] == Some(x) {
            let i = choose|i: int| 0 <= i < advice.len() && #[trigger] advice[i] == Some(x);
            if i < rest.len() {
                assert(rest[i] == Some(x));
                let k = choose|k: int| 0 <= k < front.len() && front[k] == x;
                assert(all[k] == x);
            } else {
                assert(all[front.len() as int] == x);
            }
        }
    }
}

/// A plan holds exactly the advice on its symbols, and no more suggestions than symbols.
pub proof fn law_plan_holds(
    contexts: Seq<SymbolContext>,
    cfg: EngineConfig,
    today: int,
    hedged: bool,
    plan: Seq<SuggestionView>,
    x: SuggestionView,
)
    requires
        is_plan(contexts, cfg, today, hedged, plan),
    ensures
        plan.contains(x) <==> exists|i: int|
            0 <= i < contexts.len() && is_advice(
                #[trigger] contexts[i],
                cfg,
                today,
                hedged,
                Some(x),
            ),
        plan.len() <= contexts.len(),
{
    broadcast use vstd::seq_lib::group_to_multiset_ensures;

    let advice = choose|advice: Seq<Option<SuggestionView>>| #[trigger]
        advises_each(contexts, cfg, today, hedged, advice) && plan == crate::engine::ranked(
            given(advice),
        );
    crate::engine::law_ranked(given(advice));
    lemma_given(advice, x);
    assert(plan.to_multiset().count(x) == given(advice).to_multiset().count(x));
    assert(plan.to_multiset().len() == given(advice).to_multiset().len());
    if exists|i: int| 0 <= i < advice.len() && #[trigger] advice[i] == Some(x) {
        let i = choose|i: int| 0 <= i < advice.len() && #[trigger] advice[i] == Some(x);
        assert(is_advice(contexts[i], cfg, today, hedged, advice[i]));
    }
    if exists|i: int|
        0 <= i < contexts.len() && is_advice(#[trigger] contexts[i], cfg, today, hedged, Some(x)) {
        let i = choose|i: int|
            0 <= i < contexts.len() && is_advice(
                #[trigger] contexts[i],
                cfg,
                today,
                hedged,
                Some(x),
            );
        assert(is_advice(contexts[i], cfg, today, hedged, advice[i]));
        crate::engine::law_advice_unique(contexts[i], cfg, today, hedged, advice[i], Some(x));
        assert(advice[i] == Some(x));
    }
}

} // verus!

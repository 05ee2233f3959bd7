//! Open short options: taking profit and defending.

use vstd::prelude::*;
use vstd::string::*;
use crate::dates::dte;
use crate::engine::csp::money_of;
use crate::engine::math::{resolve_abs_delta, resolved_delta};
use crate::engine::types::{
    opt_view, ActionKind, EngineConfig, KindView, OpenShortOption, OptionQuote, Right, Suggestion,
    SuggestionView, UnderlyingQuote,
};
use crate::fixed::{
    cents, dec_text, int_text, is_price, max, push_dec, push_int, push_ratio, ratio_text,
    round_cents, SCALE,
};
use crate::text::own;

verus! {

impl OpenShortOption {
    /// Whether the strike is in the range of prices.
    pub open spec fn wf(self) -> bool {
        is_price(self.strike as int)
    }
}

/// Whether enough of the credit is captured: the part of it by which the price
/// has fallen is at least the configured fraction. Without a credit nothing is
/// captured.
pub open spec fn profit_taken(entry_credit: int, price: int, cfg: EngineConfig) -> bool {
    if entry_credit > 0 {
        (entry_credit - price) * SCALE >= cfg.take_profit_pct * entry_credit
    } else {
        0 >= cfg.take_profit_pct
    }
}

/// Whether a short of the given right and strike is in the money.
pub open spec fn in_the_money(right: Right, strike: int, spot: int) -> bool {
    match right {
        Right::Put => spot < strike,
        Right::Call => spot > strike,
    }
}

/// The delta by which a short is judged; a short on its last day counts as one
/// day from expiry.
pub open spec fn short_delta(
    pos: OpenShortOption,
    current: OptionQuote,
    spot: int,
    today: int,
) -> Option<int> {
    resolved_delta(current, spot, max(pos.expiry - today, 1))
}

/// Whether a short is to be defended: its delta is above the configured one, or
/// it is in the money near expiry.
pub open spec fn is_tested(
    pos: OpenShortOption,
    current: OptionQuote,
    spot: int,
    cfg: EngineConfig,
    today: int,
) -> bool {
    let ad = short_delta(pos, current, spot, today);
    ||| ad is Some && ad->0 > cfg.roll_delta
    ||| in_the_money(pos.right, pos.strike as int, spot) && pos.expiry - today <= cfg.roll_dte
}

/// The suggestion to buy a short back.
pub open spec fn close_suggestion(
    symbol: Seq<char>,
    pos: OpenShortOption,
    current: OptionQuote,
    spot: int,
    today: int,
) -> SuggestionView {
    let price = current.spec_mid();
    SuggestionView {
        symbol,
        kind: KindView::CloseForProfit,
        right: pos.right,
        strike: pos.strike as int,
        underlying_price: spot,
        expiry: pos.expiry as int,
        dte: pos.expiry - today,
        quantity: pos.quantity as int,
        limit_price: cents(price),
        delta: current.spec_abs_delta(),
        premium_total: cents(price) * 100 * pos.quantity,
        capital_required: 0,
        annualized_yield: 0,
        rationale: "Take profit: "@ + (if pos.entry_credit > 0 {
            ratio_text((pos.entry_credit - price) * 100, pos.entry_credit as int, 0)
        } else {
            "0"@
        }) + "% of max premium captured"@,
    }
}

/// The suggestion to roll a short out to the longest configured expiry at the
/// same strike.
pub open spec fn roll_suggestion(
    symbol: Seq<char>,
    pos: OpenShortOption,
    current: OptionQuote,
    spot: int,
    cfg: EngineConfig,
    today: int,
) -> SuggestionView {
    let ad = short_delta(pos, current, spot, today);
    SuggestionView {
        symbol,
        kind: KindView::Roll { to_expiry: today + cfg.max_dte, to_strike: pos.strike as int },
        right: pos.right,
        strike: pos.strike as int,
        underlying_price: spot,
        expiry: pos.expiry as int,
        dte: pos.expiry - today,
        quantity: pos.quantity as int,
        limit_price: cents(current.spec_mid()),
        delta: ad,
        premium_total: cents(current.spec_mid()) * 100 * pos.quantity,
        capital_required: 0,
        annualized_yield: 0,
        rationale: "Defend: Δ"@ + dec_text(
            match ad {
                Some(x) => x,
                None => 0,
            },
            2,
        ) + (if in_the_money(pos.right, pos.strike as int, spot) {
            ", ITM"@
        } else {
            ""@
        }) + ", "@ + int_text(pos.expiry - today) + "DTE — roll to ~"@ + int_text(
            cfg.max_dte as int,
        ) + "DTE for a net credit"@,
    }
}

/// What to do with an open short: buy it back once enough is captured, else roll
/// it when tested, else nothing.
pub open spec fn manage_answer(
    symbol: Seq<char>,
    pos: OpenShortOption,
    current: OptionQuote,
    spot: int,
    cfg: EngineConfig,
    today: int,
) -> Option<SuggestionView> {
    if profit_taken(pos.entry_credit as int, current.spec_mid(), cfg) {
        Some(close_suggestion(symbol, pos, current, spot, today))
    } else if is_tested(pos, current, spot, cfg, today) {
        Some(roll_suggestion(symbol, pos, current, spot, cfg, today))
    } else {
        None
    }
}

/// Whether the day to which the short is rolled can be numbered, where it is
/// rolled at all.
pub open spec fn roll_day_fits(
    pos: OpenShortOption,
    current: OptionQuote,
    spot: int,
    cfg: EngineConfig,
    today: int,
) -> bool {
    !profit_taken(pos.entry_credit as int, current.spec_mid(), cfg) && is_tested(
        pos,
        current,
        spot,
        cfg,
        today,
    ) ==> i32::MIN <= today + cfg.max_dte <= i32::MAX
}

/// Decides whether an open short option should be closed for profit or defended.
/// `current` is the live quote of the contract.
pub fn manage_short_option(
    symbol: &str,
    pos: &OpenShortOption,
    current: &OptionQuote,
    underlying: UnderlyingQuote,
    cfg: &EngineConfig,
    today: i32,
) -> (r: Option<Suggestion>)
    requires
        pos.wf(),
        current.wf(),
        is_price(underlying.last as int),
        roll_day_fits(*pos, *current, underlying.last as int, *cfg, today as int),
    ensures
        opt_view(r) == manage_answer(
            symbol@,
            *pos,
            *current,
            underlying.last as int,
            *cfg,
            today as int,
        ),
        r is Some ==> (r->0)@.wf(),
{
    let d: i64 = dte(today, pos.expiry);
    let price: i64 = current.mid();
    let credit: i128 = pos.entry_credit as i128;
    let captured: i128 = credit - price as i128;
    let want: i128 = cfg.take_profit_pct as i128;
    proof {
        assert(-0x7000_0000_0000_0000_0000_0000_0000_0000 <= want * credit
            <= 0x7000_0000_0000_0000_0000_0000_0000_0000) by (nonlinear_arith)
            requires
                -0x8000_0000_0000_0000 <= want <= 0x8000_0000_0000_0000,
                -0x8000_0000_0000_0000 <= credit <= 0x8000_0000_0000_0000,
        ;
    }
    let enough = if pos.entry_credit > 0 {
        captured * 1_000_000 >= want * credit
    } else {
        0 >= cfg.take_profit_pct
    };
    let limit: i64 = round_cents(price);
    let total: i128 = money_of(limit, pos.quantity);
    if enough {
        let mut s = String::from_str("Take profit: ");
        if pos.entry_credit > 0 {
            push_ratio(&mut s, captured * 100, credit, 0);
        } else {
            s.append("0");
        }
        s.append("% of max premium captured");
        return Some(
            Suggestion {
                symbol: own(symbol),
                kind: ActionKind::CloseForProfit,
                right: pos.right,
                strike: pos.strike,
                underlying_price: underlying.last,
                expiry: pos.expiry,
                dte: d,
                quantity: pos.quantity,
                limit_price: limit,
                delta: current.abs_delta(),
                premium_total: total,
                capital_required: 0,
                annualized_yield: 0,
                rationale: s,
            },
        );
    }
    let near: i64 = if d > 1 {
        d
    } else {
        1
    };
    let abs_delta = resolve_abs_delta(current, underlying.last, near);
    let itm = match pos.right {
        Right::Put => underlying.last < pos.strike,
        Right::Call => underlying.last > pos.strike,
    };
    let tested = match abs_delta {
        Some(ad) => ad > cfg.roll_delta,
        None => false,
    };
    if tested || (itm && d <= cfg.roll_dte) {
        let to_expiry: i32 = (today as i64 + cfg.max_dte) as i32;
        let shown: i64 = match abs_delta {
            Some(ad) => ad,
            None => 0,
        };
        let mut s = String::from_str("Defend: Δ");
        push_dec(&mut s, shown as i128, 2);
        s.append(if itm {
            ", ITM"
        } else {
            ""
        });
        s.append(", ");
        push_int(&mut s, d as i128);
        s.append("DTE — roll to ~");
        push_int(&mut s, cfg.max_dte as i128);
        s.append("DTE for a net credit");
        return Some(
            Suggestion {
                symbol: own(symbol),
                kind: ActionKind::Roll { to_expiry, to_strike: pos.strike },
                right: pos.right,
                strike: pos.strike,
                underlying_price: underlying.last,
                expiry: pos.expiry,
                dte: d,
                quantity: pos.quantity,
                limit_price: limit,
                delta: abs_delta,
                premium_total: total,
                capital_required: 0,
                annualized_yield: 0,
                rationale: s,
            },
        );
    }
    None
}

/// Taking profit comes before defending: a short that has earned enough is never
/// rolled, and a roll keeps strike, right and quantity.
pub proof fn law_profit_before_defence(
    symbol: Seq<char>,
    pos: OpenShortOption,
    current: OptionQuote,
    spot: int,
    cfg: EngineConfig,
    today: int,
)
    ensures
        ({
            let r = manage_answer(symbol, pos, current, spot, cfg, today);
            &&& (profit_taken(pos.entry_credit as int, current.spec_mid(), cfg) ==> r is Some
                && (r->0).kind == KindView::CloseForProfit)
            &&& (r is Some ==> (r->0).strike == pos.strike && (r->0).right == pos.right
                && (r->0).quantity == pos.quantity)
            &&& (r is Some && (r->0).kind is Roll ==> (r->0).kind->to_strike == pos.strike)
        }),
{
}

} // verus!

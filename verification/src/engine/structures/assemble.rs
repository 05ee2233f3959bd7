//! From chosen legs to a sized suggestion.

use vstd::prelude::*;
use vstd::string::*;
use crate::dates::dte;
use crate::engine::csp::money_of;
use crate::engine::math::units_in;
use crate::engine::structures::payoff::{
    breakevens, breakevens_of, credit_of, ints, legs_wf, max_loss, max_loss_per_share, net_credit,
};
use crate::engine::types::{
    opt_int, opt_view, ActionKind, KindView, StructureKind, StructureLeg, Suggestion,
    SuggestionView,
};
use crate::fixed::{
    cents, dec_text, floor_div, floor_of, int_text, is_money, is_price, push_dec, push_int,
    round_cents_wide,
};
use crate::text::own;

verus! {

/// Parameters of one short-dated structure: one of these defines a roster slot.
/// Deltas, fractions, points and money are in millionths.
#[derive(Debug, Clone)]
pub struct StructureParams {
    /// Display name of the slot.
    pub name: String,
    pub kind: StructureKind,
    /// Underlying symbol.
    pub underlying: String,
    /// Days to expiration to target (0 = same day).
    pub dte: i64,
    /// Target size of the delta of the short put legs.
    pub short_delta: i64,
    /// Target size of the delta of the short call leg; 0 reuses `short_delta`.
    pub call_delta: i64,
    /// Width of the protective wings in strike points.
    pub wing_points: i64,
    /// Acceptable distance from the target delta of a short strike.
    pub delta_tol: i64,
    /// Skip a structure whose net credit per share is below this.
    pub min_credit: i64,
    /// Size so that the defined loss per position stays within this budget.
    pub max_risk: i64,
    /// Minutes after the regular-session open to place the entry.
    pub entry_minutes_after_open: i64,
    /// Buy to close once this fraction of the credit is captured.
    pub profit_target_pct: i64,
    /// Stop at this multiple of the credit (0 = none).
    pub stop_loss_mult: i64,
    /// Force a close at this wall-clock time if still open (`HH:MM`, Eastern).
    pub time_stop_hhmm: Option<String>,
    /// Repeat entries every so many minutes (0 = single entry).
    pub meic_interval_min: i64,
    /// Whether the scheduler may trade this slot.
    pub automate: bool,
    /// Whether the naked strangle is allowed.
    pub allow_naked: bool,
}

impl StructureParams {
    /// Whether these are the parameters of a slot for which nothing is
    /// configured, but for the name, the kind and those given here.
    pub open spec fn standard_but(
        self,
        name: Seq<char>,
        kind: StructureKind,
        dte: int,
        short_delta: int,
        wing_points: int,
        min_credit: int,
        max_risk: int,
        entry: int,
        target: int,
        stop: int,
    ) -> bool {
        &&& self.name@ == name
        &&& self.kind == kind
        &&& self.underlying@ == "SPX"@
        &&& self.dte == dte
        &&& self.short_delta == short_delta
        &&& self.call_delta == 130_000
        &&& self.wing_points == wing_points
        &&& self.delta_tol == 80_000
        &&& self.min_credit == min_credit
        &&& self.max_risk == max_risk
        &&& self.entry_minutes_after_open == entry
        &&& self.profit_target_pct == target
        &&& self.stop_loss_mult == stop
        &&& self.time_stop_hhmm is None
        &&& self.meic_interval_min == 0
        &&& !self.automate
        &&& !self.allow_naked
    }
}

impl Default for StructureParams {
    fn default() -> (r: Self)
        ensures
            r.standard_but(
                "SPX 0DTE Iron Condor"@,
                StructureKind::IronCondor,
                0,
                130_000,
                25_000_000,
                500_000,
                2_500_000_000,
                45,
                400_000,
                0,
            ),
    {
        StructureParams {
            name: own("SPX 0DTE Iron Condor"),
            kind: StructureKind::IronCondor,
            underlying: own("SPX"),
            dte: 0,
            short_delta: 130_000,
            call_delta: 130_000,
            wing_points: 25_000_000,
            delta_tol: 80_000,
            min_credit: 500_000,
            max_risk: 2_500_000_000,
            entry_minutes_after_open: 45,
            profit_target_pct: 400_000,
            stop_loss_mult: 0,
            time_stop_hhmm: None,
            meic_interval_min: 0,
            automate: false,
            allow_naked: false,
        }
    }
}

/// How many contracts keep the loss within the budget: 0 where one alone is over
/// it, or where there is no loss to size against.
pub open spec fn sized(max_loss_per_share: int, max_risk: int) -> int {
    let each = max_loss_per_share * 100;
    if each <= 0 || max_risk < 0 {
        0
    } else {
        units_in(max_risk, each)
    }
}

/// Contracts to trade so that the defined loss stays within `max_risk`.
pub fn size_qty(max_loss_per_share: i128, max_risk: i64) -> (r: i32)
    requires
        is_money(max_loss_per_share as int),
    ensures
        r == sized(max_loss_per_share as int, max_risk as int),
        r >= 0,
{
    let each: i128 = max_loss_per_share * 100;
    if each <= 0 || max_risk < 0 {
        return 0;
    }
    let q: i128 = max_risk as i128 / each;
    proof {
        assert(q >= 0) by (nonlinear_arith)
            requires
                q == max_risk as int / each as int,
                max_risk >= 0,
                each > 0,
        ;
    }
    if q > 2_147_483_647 {
        i32::MAX
    } else {
        q as i32
    }
}

/// The contracts that a budget allows never risk more than the budget.
pub proof fn law_size_within_budget(loss: int, max_risk: int)
    requires
        sized(loss, max_risk) >= 1,
    ensures
        loss * 100 * sized(loss, max_risk) <= max_risk,
{
    let each = loss * 100;
    let q = max_risk / each;
    let n = sized(loss, max_risk);
    assert(each * n <= max_risk) by (nonlinear_arith)
        requires
            each > 0,
            0 <= n <= q,
            q == max_risk / each,
    ;
}

/// The first of a list of prices, 0 where it is empty.
pub open spec fn first_or_zero(s: Seq<int>) -> int {
    if s.len() > 0 {
        s[0]
    } else {
        0
    }
}

/// The last of a list of prices, 0 where it is empty.
pub open spec fn last_or_zero(s: Seq<int>) -> int {
    if s.len() > 0 {
        s.last()
    } else {
        0
    }
}

/// The suggestion to open a defined-risk structure: sized by the risk budget,
/// `None` where the credit is too small or one contract is over the budget. The
/// yield is the single-trade return on risk.
pub open spec fn defined_risk(
    params: StructureParams,
    symbol: Seq<char>,
    spot: int,
    expiry: int,
    today: int,
    legs: Seq<StructureLeg>,
    primary: StructureLeg,
) -> Option<SuggestionView> {
    let net = cents(credit_of(legs));
    let loss = max_loss(legs);
    let qty = sized(loss, params.max_risk as int);
    let capital = cents(loss) * 100 * qty;
    let zeros = breakevens_of(legs);
    if net < params.min_credit || qty < 1 {
        None
    } else {
        Some(
            SuggestionView {
                symbol,
                kind: KindView::OpenStructure { kind: params.kind, legs },
                right: primary.right,
                strike: primary.strike as int,
                underlying_price: spot,
                expiry,
                dte: expiry - today,
                quantity: qty,
                limit_price: net,
                delta: opt_int(primary.delta),
                premium_total: net * 100 * qty,
                capital_required: capital,
                annualized_yield: floor_div(net * 1_000_000_000, loss),
                rationale: params.kind.spec_label() + " "@ + int_text(expiry - today)
                    + "DTE: net credit $"@ + dec_text(net, 2) + ", max loss $"@ + dec_text(
                    capital,
                    0,
                ) + ", breakeven $"@ + dec_text(first_or_zero(zeros), 0) + "–$"@ + dec_text(
                    last_or_zero(zeros),
                    0,
                ) + " (×"@ + int_text(qty) + ")"@,
            },
        )
    }
}

/// Assembles the suggestion for a defined-risk structure. `primary` is the leg
/// whose strike, right and delta the suggestion shows.
pub fn build_defined_risk(
    params: &StructureParams,
    symbol: &str,
    spot: i64,
    expiry: i32,
    today: i32,
    legs: Vec<StructureLeg>,
    primary: StructureLeg,
) -> (r: Option<Suggestion>)
    requires
        legs_wf(legs@),
        legs@.len() <= 4,
        is_price(spot as int),
        primary.wf(),
    ensures
        opt_view(r) == defined_risk(
            *params,
            symbol@,
            spot as int,
            expiry as int,
            today as int,
            legs@,
            primary,
        ),
        r is Some ==> (r->0)@.wf(),
{
    let wide: i128 = round_cents_wide(net_credit(legs.as_slice()));
    let net: i64 = wide as i64;
    if net < params.min_credit {
        return None;
    }
    let loss: i128 = max_loss_per_share(legs.as_slice());
    let qty: i32 = size_qty(loss, params.max_risk);
    if qty < 1 {
        return None;
    }
    let zeros = breakevens(legs.as_slice());
    let lo: i64 = if zeros.len() > 0 {
        zeros[0]
    } else {
        0
    };
    let hi: i64 = if zeros.len() > 0 {
        zeros[zeros.len() - 1]
    } else {
        0
    };
    assert(lo == first_or_zero(ints(zeros@)));
    assert(hi == last_or_zero(ints(zeros@)));
    let shown: i128 = round_cents_wide(loss);
    let capital: i128 = money_of(shown as i64, qty);
    let total: i128 = money_of(net, qty);
    let ror: i128 = floor_of(wide * 1_000_000_000, loss);
    proof {
        lemma_quotient(wide * 1_000_000_000, loss as int);
    }
    let d: i64 = dte(today, expiry);
    let mut s = String::from_str(params.kind.label());
    s.append(" ");
    push_int(&mut s, d as i128);
    s.append("DTE: net credit $");
    push_dec(&mut s, wide, 2);
    s.append(", max loss $");
    push_dec(&mut s, capital, 0);
    s.append(", breakeven $");
    push_dec(&mut s, lo as i128, 0);
    s.append("–$");
    push_dec(&mut s, hi as i128, 0);
    s.append(" (×");
    push_int(&mut s, qty as i128);
    s.append(")");
    Some(
        Suggestion {
            symbol: own(symbol),
            kind: ActionKind::OpenStructure { kind: params.kind, legs },
            right: primary.right,
            strike: primary.strike,
            underlying_price: spot,
            expiry,
            dte: d,
            quantity: qty,
            limit_price: net,
            delta: primary.delta,
            premium_total: total,
            capital_required: capital,
            annualized_yield: ror,
            rationale: s,
        },
    )
}

proof fn lemma_quotient(a: int, b: int)
    requires
        b >= 1,
        -10_000_000_000_000_000_000_000_000_000 <= a <= 10_000_000_000_000_000_000_000_000_000,
    ensures
        -10_000_000_000_000_000_000_000_000_000 <= a / b <= 10_000_000_000_000_000_000_000_000_000,
{
    assert(-10_000_000_000_000_000_000_000_000_000 <= a / b
        <= 10_000_000_000_000_000_000_000_000_000) by (nonlinear_arith)
        requires
            b >= 1,
            -10_000_000_000_000_000_000_000_000_000 <= a <= 10_000_000_000_000_000_000_000_000_000,
    ;
}

} // verus!

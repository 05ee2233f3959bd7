//! What is transmitted and recorded, in the terms of the suggestion, the settings and
//! the broker's reply.

use vstd::prelude::*;
use crate::config::TradingMode;
use crate::decimal::short_text;
use crate::engine::types::{LegSide, Right, StructureLeg, SuggestionView};
use crate::fixed::int_text;
use crate::ibkr::{OpenOrderInfo, OptionOrder, PositionRow, Side};
use crate::positions::collateral_of;
use crate::store::models::{EntryView, PendingRollRow, ZeroDtePositionRow};
use crate::tui::app::App;
use crate::tui::events::{
    end_of, first_waiting, is_close_at, is_entry_at, is_zerodte_step, OrderEnd, ZerodteStep,
};
use crate::tui::legs::{combo_of, cost_of, leg_text, lemma_leg_text, ComboLeg};
use crate::tui::orders::{
    armed_after, is_plan_of, recorded, verdict_of, OrderPlan, OutcomeView, Verdict,
};
use crate::tui::rolls::{
    is_leg_order, is_pending, near_price, open_entry, open_gate, parted, roll_fate, roll_gate,
    roll_net, roll_stage, OpenGate, PendingRoll, RollFate, RollGate,
    RollStage, RollTarget,
};

verus! {

// --- guardrails ------------------------------------------------------------

/// Whether live trading waits for its confirmation.
pub open spec fn is_locked(app: App) -> bool {
    &&& app.cfg.connection.mode == TradingMode::Live
    &&& app.cfg.guardrails.require_live_confirmation
    &&& !app.live_confirmed
}

/// Whether a put sold by the suggestion would tie up more cash than is allowed: a
/// hundred shares at its strike for each contract, beside what is tied up.
pub open spec fn is_over_cap(app: App, s: SuggestionView) -> bool {
    let tied = collateral_of(app.broker_positions@, app.broker_positions@.len() as int);
    &&& s.kind is SellPut || s.kind is SellPutSpread
    &&& tied + s.strike * 100 * s.quantity > app.cfg.guardrails.max_total_deployed
}

/// An order passes exactly where the app is armed, trading is allowed, the order is
/// within its size, live trading is not locked and the cash suffices; and otherwise
/// the first of these that fails is the one that is named.
pub proof fn law_verdict(app: App, s: SuggestionView)
    ensures
        ({
            let g = app.cfg.guardrails;
            let v = verdict_of(app, s);
            let big = s.quantity > g.max_contracts_per_order;
            let may = app.armed && !g.read_only;
            &&& v == Verdict::Pass <==> may && !big && !is_locked(app) && !is_over_cap(app, s)
            &&& v == Verdict::OverCap <==> may && !big && !is_locked(app) && is_over_cap(app, s)
            &&& v == Verdict::LiveLocked <==> may && !big && is_locked(app)
            &&& v == Verdict::TooManyContracts <==> may && big
            &&& v == Verdict::ReadOnly <==> app.armed && g.read_only
            &&& v == Verdict::Disarmed <==> !app.armed
        }),
{
}

// --- the order of a suggestion ---------------------------------------------

/// Whether an entry holds the terms of a suggestion and no outcome.
pub open spec fn has_order_terms(
    e: EntryView,
    s: SuggestionView,
    action: Seq<char>,
    right: Seq<char>,
    expiry: Seq<char>,
) -> bool {
    &&& e.symbol == s.symbol
    &&& e.action == action
    &&& e.right == Some(right)
    &&& e.strike == Some(s.strike)
    &&& e.expiry == Some(expiry)
    &&& e.quantity == s.quantity
    &&& e.limit_price == Some(s.limit_price)
    &&& e.status == ""@
    &&& e.ibkr_order_id is None
    &&& e.premium is None
}

/// Whether the plan trades the one contract of a suggestion on the given side.
pub open spec fn trades_one(
    p: OrderPlan,
    s: SuggestionView,
    expiry: Seq<char>,
    sells: bool,
    right: Seq<char>,
    action: Seq<char>,
) -> bool {
    match p {
        OrderPlan::Single { order, entry } => {
            &&& order.symbol@ == s.symbol
            &&& order.expiry_yyyymmdd@ == expiry
            &&& order.strike == s.strike
            &&& order.right@ == right
            &&& (sells ==> order.side == Side::Sell)
            &&& (!sells ==> order.side == Side::Buy)
            &&& order.quantity == s.quantity
            &&& order.limit == s.limit_price
            &&& has_order_terms(entry@, s, action, right, expiry)
            &&& entry@.note is None
        },
        _ => false,
    }
}

/// A put or a call that is suggested is sold, and one that is to be closed is bought:
/// the contract, the number and the limit of the suggestion.
pub proof fn law_single_order(p: OrderPlan, s: SuggestionView, expiry: Seq<char>)
    requires
        is_plan_of(p, s, expiry),
    ensures
        s.kind is SellPut ==> trades_one(p, s, expiry, true, "P"@, "SellPut"@),
        s.kind is SellCall ==> trades_one(p, s, expiry, true, "C"@, "SellCall"@),
        s.kind is CloseForProfit && s.right == Right::Put ==> trades_one(
            p,
            s,
            expiry,
            false,
            "P"@,
            "Close"@,
        ),
        s.kind is CloseForProfit && s.right == Right::Call ==> trades_one(
            p,
            s,
            expiry,
            false,
            "C"@,
            "Close"@,
        ),
{
}

/// A spread sells the put at the suggested strike and buys the put at its long strike,
/// for the suggested credit; a roll leads to the suggested contract; and neither is
/// ever sent as something else.
pub proof fn law_spread_order(p: OrderPlan, s: SuggestionView, expiry: Seq<char>)
    requires
        is_plan_of(p, s, expiry),
    ensures
        s.kind is SellPutSpread ==> match p {
            OrderPlan::Spread { order, entry } => {
                &&& order.symbol@ == s.symbol
                &&& order.expiry_yyyymmdd@ == expiry
                &&& order.short_strike == s.strike
                &&& order.long_strike == s.kind->SellPutSpread_long_strike
                &&& order.quantity == s.quantity
                &&& order.net_credit == s.limit_price
                &&& has_order_terms(entry@, s, "SellPutSpread"@, "P"@, expiry)
            },
            _ => false,
        },
        s.kind is Roll ==> match p {
            OrderPlan::Roll { near_expiry, to_expiry, to_strike } => {
                &&& near_expiry@ == expiry
                &&& to_expiry == s.kind->to_expiry
                &&& to_strike == s.kind->to_strike
            },
            _ => false,
        },
{
}

/// A structure is sent as one package of its legs for the suggested credit.
pub proof fn law_structure_order(p: OrderPlan, s: SuggestionView, expiry: Seq<char>)
    requires
        is_plan_of(p, s, expiry),
        s.kind is OpenStructure,
    ensures
        match p {
            OrderPlan::Combo { order, entry } => {
                &&& order.symbol@ == s.symbol
                &&& order.expiry_yyyymmdd@ == expiry
                &&& order.legs@ == combo_of(s.kind->OpenStructure_legs)
                &&& order.quantity == s.quantity
                &&& order.net_credit == s.limit_price
                &&& entry@.symbol == s.symbol
                &&& entry@.strike == Some(s.strike)
                &&& entry@.expiry == Some(expiry)
                &&& entry@.quantity == s.quantity
                &&& entry@.limit_price == Some(s.limit_price)
                &&& entry@.status == ""@
            },
            _ => false,
        },
{
}

// --- packages --------------------------------------------------------------

/// Whether a leg of a package trades what a leg of a structure does.
pub open spec fn trades_leg(c: ComboLeg, l: StructureLeg) -> bool {
    &&& c.strike == l.strike
    &&& c.right == l.right
    &&& c.action == Side::Sell <==> l.side == LegSide::Sell
}

/// How many of the legs trade what `c` does.
pub open spec fn legs_like(legs: Seq<StructureLeg>, c: ComboLeg) -> int
    decreases legs.len(),
{
    if legs.len() == 0 {
        0
    } else if trades_leg(c, legs.last()) {
        legs_like(legs.drop_last(), c) + 1
    } else {
        legs_like(legs.drop_last(), c)
    }
}

proof fn lemma_legs_like(legs: Seq<StructureLeg>, c: ComboLeg)
    ensures
        legs_like(legs, c) == crate::tui::legs::count_of(legs, c),
    decreases legs.len(),
{
    if legs.len() > 0 {
        lemma_legs_like(legs.drop_last(), c);
        assert(trades_leg(c, legs.last()) == crate::tui::legs::same_contract(c, legs.last()));
    }
}

/// A package holds every leg of the structure on its side, as often as the structure
/// does, and each contract and side once.
pub proof fn law_package(legs: Seq<StructureLeg>)
    requires
        legs.len() < i32::MAX,
    ensures
        forall|i: int|
            0 <= i < combo_of(legs).len() ==> (#[trigger] combo_of(legs)[i]).ratio == legs_like(
                legs,
                combo_of(legs)[i],
            ),
        forall|i: int, k: int|
            0 <= i < combo_of(legs).len() && 0 <= k < combo_of(legs).len() && i != k ==> {
                let (a, b) = (#[trigger] combo_of(legs)[i], #[trigger] combo_of(legs)[k]);
                a.strike != b.strike || a.right != b.right || a.action != b.action
            },
        forall|k: int|
            0 <= k < legs.len() ==> exists|i: int|
                0 <= i < combo_of(legs).len() && trades_leg(
                    #[trigger] combo_of(legs)[i],
                    #[trigger] legs[k],
                ),
{
    crate::tui::legs::law_combo_merges(legs);
    assert forall|i: int| 0 <= i < combo_of(legs).len() implies (
    #[trigger] combo_of(legs)[i]).ratio == legs_like(legs, combo_of(legs)[i]) by {
        lemma_legs_like(legs, combo_of(legs)[i]);
    }
    assert forall|i: int, k: int|
        0 <= i < combo_of(legs).len() && 0 <= k < combo_of(legs).len() && i != k implies {
        let (a, b) = (#[trigger] combo_of(legs)[i], #[trigger] combo_of(legs)[k]);
        a.strike != b.strike || a.right != b.right || a.action != b.action
    } by {
        if i < k {
            assert(!crate::tui::legs::same_trade(combo_of(legs)[i], combo_of(legs)[k]));
        } else {
            assert(!crate::tui::legs::same_trade(combo_of(legs)[k], combo_of(legs)[i]));
        }
    }
    assert forall|k: int| 0 <= k < legs.len() implies exists|i: int|
        0 <= i < combo_of(legs).len() && trades_leg(
            #[trigger] combo_of(legs)[i],
            #[trigger] legs[k],
        ) by {
        let i = choose|i: int|
            0 <= i < combo_of(legs).len() && crate::tui::legs::same_contract(
                #[trigger] combo_of(legs)[i],
                legs[k],
            );
        assert(trades_leg(combo_of(legs)[i], legs[k]));
    }
}

/// What a further leg adds to the cost of closing a package: its price for each lot
/// that was sold, and less by that for each lot that was bought.
pub proof fn law_cost_adds_up(legs: Seq<ComboLeg>, prices: Seq<i64>, n: int)
    requires
        0 <= n < legs.len(),
        legs.len() == prices.len(),
    ensures
        cost_of(legs, prices, 0) == 0,
        legs[n].action == Side::Sell ==> cost_of(legs, prices, n + 1) == cost_of(legs, prices, n)
            + prices[n] * legs[n].ratio,
        legs[n].action == Side::Buy ==> cost_of(legs, prices, n + 1) == cost_of(legs, prices, n)
            - prices[n] * legs[n].ratio,
{
}

// --- outcomes --------------------------------------------------------------

/// What the journal says of an order: `submitted` with the broker's id and the
/// premium, `previewed` with the premium, or `rejected` with the reason; nothing else
/// changes. Only a submitted order disarms.
pub proof fn law_recorded(base: EntryView, o: OutcomeView, premium: int, armed: bool)
    ensures
        ({
            let r = recorded(base, o, premium);
            &&& r.symbol == base.symbol
            &&& r.action == base.action
            &&& r.right == base.right
            &&& r.strike == base.strike
            &&& r.expiry == base.expiry
            &&& r.quantity == base.quantity
            &&& r.limit_price == base.limit_price
            &&& o is Submitted ==> r.status == "submitted"@ && r.ibkr_order_id == Some(
                o->Submitted_0,
            ) && r.premium == Some(premium) && r.note == base.note
            &&& o is Preview ==> r.status == "previewed"@ && r.premium == Some(premium)
                && r.ibkr_order_id == base.ibkr_order_id && r.note == base.note
            &&& o is Failed ==> r.status == "rejected"@ && r.note == Some(o->Failed_0) && r.premium
                == base.premium && r.ibkr_order_id == base.ibkr_order_id
            &&& o is Submitted ==> !armed_after(armed, o)
            &&& !(o is Submitted) ==> armed_after(armed, o) == armed
        }),
{
}

/// How an order ended, by the broker's word for it, and the journal's word for that.
pub proof fn law_order_end(status: Seq<char>)
    ensures
        end_of(status) == Some(OrderEnd::Filled) <==> status == "Filled"@,
        end_of(status) == Some(OrderEnd::Cancelled) <==> status == "Cancelled"@ || status
            == "ApiCancelled"@,
        end_of(status) == Some(OrderEnd::Rejected) <==> status == "Inactive"@,
        OrderEnd::Filled.word() == "filled"@,
        OrderEnd::Cancelled.word() == "cancelled"@,
        OrderEnd::Rejected.word() == "rejected"@,
{
    reveal_strlit("Filled");
    reveal_strlit("Cancelled");
    reveal_strlit("ApiCancelled");
    reveal_strlit("Inactive");
    assert("Filled"@.len() == 6);
    assert("Cancelled"@.len() == 9);
    assert("ApiCancelled"@.len() == 12);
    assert("Inactive"@.len() == 8);
}

// --- rolls -----------------------------------------------------------------

/// Whether the watchlist marks the symbol as one that may not be traded.
pub open spec fn is_barred(app: App, symbol: Seq<char>) -> bool {
    exists|i: int|
        0 <= i < app.watchlist@.len() && (#[trigger] app.watchlist@[i]).symbol@ == symbol
            && app.watchlist@[i].tradable == Some(0i64)
}

/// Whether a roll of the symbol is pending.
pub open spec fn is_rolling(app: App, symbol: Seq<char>) -> bool {
    exists|i: int|
        0 <= i < app.pending_rolls@.len() && (#[trigger] app.pending_rolls@[i]).symbol@ == symbol
}

proof fn lemma_roll_words(app: App, symbol: Seq<char>)
    ensures
        is_barred(app, symbol) == crate::live::is_blocked(app.watchlist@, symbol),
        is_rolling(app, symbol) == crate::tui::rolls::in_flight(app.pending_rolls@, symbol),
{
    if is_barred(app, symbol) {
        let i = choose|i: int|
            0 <= i < app.watchlist@.len() && (#[trigger] app.watchlist@[i]).symbol@ == symbol
                && app.watchlist@[i].tradable == Some(0i64);
        assert(app.watchlist@[i].blocked());
    }
    if crate::live::is_blocked(app.watchlist@, symbol) {
        let i = choose|i: int|
            0 <= i < app.watchlist@.len() && (#[trigger] app.watchlist@[i]).symbol@ == symbol
                && app.watchlist@[i].blocked();
        assert(app.watchlist@[i].tradable == Some(0i64));
    }
}

/// A roll stops where the symbol may not be traded, then where one of it is pending,
/// then where no target is found, then where the target brings less than the close
/// costs, then where the broker refuses the new leg; the short is bought back only
/// past all of these.
pub proof fn law_roll_stages(
    app: App,
    symbol: Seq<char>,
    target: Option<RollTarget>,
    near_cost: int,
    far: Option<OutcomeView>,
)
    ensures
        ({
            let stage = roll_stage(app, symbol, target, near_cost, far);
            let free = !is_barred(app, symbol) && !is_rolling(app, symbol);
            let pays = target is Some && target->0.credit >= near_cost;
            &&& stage == RollStage::Blocked <==> is_barred(app, symbol)
            &&& stage == RollStage::InFlight <==> !is_barred(app, symbol) && is_rolling(app, symbol)
            &&& stage == RollStage::Unresolved <==> free && target is None
            &&& stage == RollStage::Debit <==> free && target is Some && target->0.credit
                < near_cost
            &&& stage == RollStage::CheckFar <==> free && pays && far is None
            &&& stage == RollStage::Refused <==> free && pays && far is Some && far->0 is Failed
            &&& stage == RollStage::CloseNear <==> free && pays && far is Some && !(
            far->0 is Failed)
        }),
{
    lemma_roll_words(app, symbol);
}

/// A preview is made of a roll that is pending too, and of nothing that may not be
/// traded.
pub proof fn law_roll_gate(app: App, symbol: Seq<char>, preview: bool)
    ensures
        ({
            let g = roll_gate(app, symbol, preview);
            &&& g == RollGate::Blocked <==> is_barred(app, symbol)
            &&& g == RollGate::InFlight <==> !is_barred(app, symbol) && !preview && is_rolling(
                app,
                symbol,
            )
            &&& g == RollGate::Go <==> !is_barred(app, symbol) && (preview || !is_rolling(
                app,
                symbol,
            ))
        }),
{
    lemma_roll_words(app, symbol);
}

/// The new leg of a roll is opened exactly where the broker is reached, trading is
/// allowed and the leg is within the size of an order.
pub proof fn law_open_leg(app: App, p: PendingRoll)
    ensures
        ({
            let g = app.cfg.guardrails;
            let big = p.quantity > g.max_contracts_per_order;
            &&& open_gate(app, p) == OpenGate::Go <==> app.connected && !g.read_only && !big
            &&& open_gate(app, p) == OpenGate::Offline <==> !app.connected
            &&& open_gate(app, p) == OpenGate::ReadOnly <==> app.connected && g.read_only
            &&& open_gate(app, p) == OpenGate::TooManyContracts <==> app.connected && !g.read_only
                && big
        }),
{
}

// --- the legs of a roll ----------------------------------------------------

/// An order of one leg of a roll is for that contract, on that side, in that number and at
/// that limit.
pub proof fn law_roll_leg(
    o: OptionOrder,
    symbol: Seq<char>,
    right: Right,
    strike: int,
    expiry: Seq<char>,
    side: Side,
    quantity: int,
    limit: int,
)
    requires
        is_leg_order(o, symbol, right, strike, expiry, side, quantity, limit),
    ensures
        o.symbol@ == symbol,
        o.expiry_yyyymmdd@ == expiry,
        o.strike == strike,
        right == Right::Put ==> o.right@ == "P"@,
        right == Right::Call ==> o.right@ == "C"@,
        o.side == side,
        o.quantity == quantity,
        o.limit == limit,
{
}

/// A pending roll closes what the suggestion names and opens the target: the same symbol,
/// right and number, at the strike, expiry and credit of the target.
pub proof fn law_pending_roll(
    p: PendingRoll,
    s: SuggestionView,
    near_expiry: Seq<char>,
    target: RollTarget,
    id: Seq<char>,
)
    requires
        is_pending(p, s, near_expiry, target, id),
    ensures
        p.symbol@ == s.symbol,
        p.right == s.right,
        p.quantity == s.quantity,
        p.near_strike == s.strike,
        p.near_expiry@ == near_expiry,
        p.to_strike == target.strike,
        p.to_expiry@ == target.expiry@,
        p.far_limit == target.credit,
        p.close_oid@ == id,
        !p.reconstructed,
        ({
            let e = open_entry(p);
            &&& e.action == "RollOpen"@
            &&& e.symbol == s.symbol
            &&& e.strike == Some(target.strike as int)
            &&& e.expiry == Some(target.expiry@)
            &&& e.quantity == s.quantity
            &&& e.limit_price == Some(target.credit as int)
            &&& s.right == Right::Put ==> e.right == Some("P"@)
            &&& s.right == Right::Call ==> e.right == Some("C"@)
        }),
{
}

/// A stored roll is taken up with the contract, the target, the number and the limit that
/// were stored, and is known to be of a prior session.
pub proof fn law_roll_taken_up(p: PendingRoll, row: PendingRollRow)
    requires
        p.takes_up(row),
        i32::MIN <= row.quantity <= i32::MAX,
    ensures
        p.symbol@ == row.symbol@,
        row.right@ == "P"@ ==> p.right == Right::Put,
        row.right@ == "C"@ ==> p.right == Right::Call,
        p.near_strike == row.near_strike,
        p.near_expiry@ == row.near_expiry@,
        p.to_strike == row.to_strike,
        p.to_expiry@ == row.to_expiry@,
        p.quantity == row.quantity,
        p.far_limit == row.far_limit,
        p.close_oid@ == row.close_oid@,
        p.reconstructed,
{
    crate::engine::types::law_right_code_reads_back(Right::Put);
    crate::engine::types::law_right_code_reads_back(Right::Call);
}

/// The close of a roll is priced at the quote, and at the price of the suggestion where the
/// short is not quoted; what is left of the credit is the net.
pub proof fn law_roll_price(s: SuggestionView, quote: Option<i64>, target: RollTarget, cost: int)
    ensures
        quote is Some ==> near_price(s, quote) == quote->0,
        quote is None ==> near_price(s, quote) == s.limit_price,
        roll_net(target, cost) + cost == target.credit,
{
}

/// A stored leg begins with `B` where it is bought and with `S` where it is sold, and its
/// fields are side, strike, right and ratio.
pub proof fn law_stored_leg(l: ComboLeg)
    ensures
        ({
            let side = if l.action == Side::Buy {
                'B'
            } else {
                'S'
            };
            let right = if l.right == Right::Put {
                'P'
            } else {
                'C'
            };
            leg_text(l) == seq![side].push(':') + short_text(l.strike as int) + seq![':']
                + seq![right] + seq![':'] + int_text(l.ratio as int)
        }),
{
    lemma_leg_text(l);
}

// --- after a restart -------------------------------------------------------

/// Whether a row is a short option of the symbol at the strike and expiry, its right
/// beginning with the given letter in either case.
pub open spec fn is_short_of(
    r: PositionRow,
    symbol: Seq<char>,
    call: bool,
    strike: int,
    expiry: Seq<char>,
) -> bool {
    &&& r.symbol@ == symbol
    &&& r.security_type@ == "Option"@
    &&& r.position < 0
    &&& r.strike == strike
    &&& r.expiry@ == expiry
    &&& r.right@.len() > 0
    &&& (call ==> r.right@.first() == 'C' || r.right@.first() == 'c')
    &&& (!call ==> r.right@.first() == 'P' || r.right@.first() == 'p')
}

pub proof fn lemma_short_of(
    r: PositionRow,
    symbol: Seq<char>,
    right: Right,
    strike: int,
    expiry: Seq<char>,
)
    ensures
        crate::data::holds_short(r, symbol, right.spec_code(), strike, expiry) == is_short_of(
            r,
            symbol,
            right == Right::Call,
            strike,
            expiry,
        ),
{
    reveal_strlit("P");
    reveal_strlit("C");
    let code = right.spec_code();
    assert(code.len() == 1);
    let s = r.right@;
    if s.len() > 0 {
        assert(crate::data::upper_starts(s, code) <==> crate::text::upper(s[0]) == code[0]) by {
            if crate::text::upper(s[0]) == code[0] {
                assert forall|i: int| 0 <= i < code.len() implies crate::text::upper(
                    #[trigger] s[i],
                ) == code[i] by {
                    assert(i == 0);
                }
            }
        }
    }
}

/// A roll whose close is gone is given up exactly where its short is still held, and
/// completed otherwise.
pub proof fn law_roll_fate(p: PendingRoll, positions: Seq<PositionRow>)
    ensures
        roll_fate(p, positions) == RollFate::Abandon <==> exists|i: int|
            0 <= i < positions.len() && is_short_of(
                #[trigger] positions[i],
                p.symbol@,
                p.right == Right::Call,
                p.near_strike as int,
                p.near_expiry@,
            ),
        roll_fate(p, positions) == RollFate::Abandon || roll_fate(p, positions)
            == RollFate::Complete,
{
    assert forall|i: int| 0 <= i < positions.len() implies is_short_of(
        #[trigger] positions[i],
        p.symbol@,
        p.right == Right::Call,
        p.near_strike as int,
        p.near_expiry@,
    ) == crate::data::holds_short(
        positions[i],
        p.symbol@,
        p.right.spec_code(),
        p.near_strike as int,
        p.near_expiry@,
    ) by {
        lemma_short_of(
            positions[i],
            p.symbol@,
            p.right,
            p.near_strike as int,
            p.near_expiry@,
        );
    }
}

/// Whether the close of a roll of a prior session is no longer open at the broker.
pub open spec fn is_gone(p: PendingRoll, open: Seq<OpenOrderInfo>) -> bool {
    p.reconstructed && forall|i: int|
        0 <= i < open.len() ==> (#[trigger] open[i]).order_id@ != p.close_oid@
}

/// After a restart the rolls are parted in two: those whose close is gone, and the
/// others; none is lost and none is made up.
pub proof fn law_rolls_parted(rolls: Seq<PendingRoll>, open: Seq<OpenOrderInfo>, p: PendingRoll)
    ensures
        parted(rolls, open, true).contains(p) <==> rolls.contains(p) && is_gone(p, open),
        parted(rolls, open, false).contains(p) <==> rolls.contains(p) && !is_gone(p, open),
        parted(rolls, open, true).len() + parted(rolls, open, false).len() == rolls.len(),
    decreases rolls.len(),
{
    if rolls.len() > 0 {
        let (rest, last) = (rolls.drop_last(), rolls.last());
        law_rolls_parted(rest, open, p);
        assert(crate::tui::rolls::ended_unseen(last, open) == is_gone(last, open));
        assert(rolls =~= rest.push(last));
        assert(rolls.contains(p) <==> rest.contains(p) || p == last) by {
            lemma_push_contains(rest, last, p);
        }
        lemma_push_contains(parted(rest, open, true), last, p);
        lemma_push_contains(parted(rest, open, false), last, p);
    }
}

proof fn lemma_push_contains(s: Seq<PendingRoll>, last: PendingRoll, p: PendingRoll)
    ensures
        s.push(last).contains(p) <==> s.contains(p) || p == last,
{
    if s.contains(p) {
        let i = choose|i: int| 0 <= i < s.len() && s[i] == p;
        assert(s.push(last)[i] == p);
    }
    assert(s.push(last)[s.len() as int] == last);
    if s.push(last).contains(p) && p != last {
        let i = choose|i: int| 0 <= i < s.push(last).len() && s.push(last)[i] == p;
        assert(s[i] == p);
    }
}

/// An order event reaches the first roll whose close has its id; one of a prior session
/// only where the journal knows the id too.
pub proof fn law_roll_waits(rolls: Seq<PendingRoll>, oid: Seq<char>, known: bool, i: int)
    ensures
        first_waiting(rolls, oid, known, i) <==> {
            &&& 0 <= i < rolls.len()
            &&& rolls[i].close_oid@ == oid
            &&& rolls[i].reconstructed ==> known
            &&& forall|j: int|
                0 <= j < i ==> (#[trigger] rolls[j]).close_oid@ != oid || (rolls[j].reconstructed
                    && !known)
        },
{
}

// --- automated positions ---------------------------------------------------

/// Whether the `i`-th position is the first that waits for its entry under the id.
pub open spec fn waits_for_entry(
    positions: Seq<ZeroDtePositionRow>,
    oid: Seq<char>,
    i: int,
) -> bool {
    &&& 0 <= i < positions.len()
    &&& positions[i].entry_oid@ == oid
    &&& positions[i].status@ == "pending"@
    &&& forall|j: int|
        0 <= j < i ==> (#[trigger] positions[j]).entry_oid@ != oid || positions[j].status@
            != "pending"@
}

/// Whether the `i`-th position is the first whose close has the id.
pub open spec fn waits_for_close(
    positions: Seq<ZeroDtePositionRow>,
    oid: Seq<char>,
    i: int,
) -> bool {
    &&& 0 <= i < positions.len()
    &&& positions[i].close_oid is Some
    &&& (positions[i].close_oid->0)@ == oid
    &&& forall|j: int|
        0 <= j < i ==> (#[trigger] positions[j]).close_oid is None || (positions[j].close_oid->0)@
            != oid
}

/// A filled entry gets its profit-close, where the broker is reached; an entry that ends
/// otherwise is over; a filled close ends its position; and nothing else happens.
pub proof fn law_position_event(
    positions: Seq<ZeroDtePositionRow>,
    connected: bool,
    oid: Seq<char>,
    end: Option<OrderEnd>,
    r: ZerodteStep,
    i: int,
)
    requires
        is_zerodte_step(positions, connected, oid, end, r),
    ensures
        end is None ==> r == ZerodteStep::Nothing,
        waits_for_entry(positions, oid, i) && end == Some(OrderEnd::Filled) && connected
            ==> r is PlaceClose && r->PlaceClose_0 == i,
        waits_for_entry(positions, oid, i) && end == Some(OrderEnd::Filled) && !connected
            ==> r == ZerodteStep::Nothing,
        waits_for_entry(positions, oid, i) && end is Some && end->0 != OrderEnd::Filled
            ==> r is EntryEnded && r->EntryEnded_0 == i && r->EntryEnded_1 == end->0,
        (forall|k: int| !waits_for_entry(positions, oid, k)) && waits_for_close(positions, oid, i)
            && end == Some(OrderEnd::Filled) ==> r is Closed && r->Closed_0 == i,
        r is PlaceClose ==> end == Some(OrderEnd::Filled) && connected && waits_for_entry(
            positions,
            oid,
            r->PlaceClose_0 as int,
        ),
        r is Closed ==> end == Some(OrderEnd::Filled) && waits_for_close(
            positions,
            oid,
            r->Closed_0 as int,
        ),
        r is EntryEnded ==> waits_for_entry(positions, oid, r->EntryEnded_0 as int) && end == Some(
            r->EntryEnded_1,
        ) && r->EntryEnded_1 != OrderEnd::Filled,
{
    assert forall|k: int| #![auto]
        is_entry_at(positions, oid, k) == waits_for_entry(positions, oid, k) by {}
    assert forall|k: int| #![auto]
        is_close_at(positions, oid, k) == waits_for_close(positions, oid, k) by {}
    if waits_for_entry(positions, oid, i) {
        assert(is_entry_at(positions, oid, i));
        assert forall|k: int| is_entry_at(positions, oid, k) implies k == i by {
            if k < i {
                assert(positions[k].entry_oid@ != oid || positions[k].status@ != "pending"@);
            } else if i < k {
                assert(!crate::tui::events::entry_matches(positions[i], oid));
            }
        }
    }
    if waits_for_close(positions, oid, i) {
        assert(is_close_at(positions, oid, i));
        assert forall|k: int| is_close_at(positions, oid, k) implies k == i by {
            if k < i {
                assert(positions[k].close_oid is None || (positions[k].close_oid->0)@ != oid);
            } else if i < k {
                assert(!crate::tui::events::close_matches(positions[i], oid));
            }
        }
    }
}

} // verus!

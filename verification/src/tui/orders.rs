//! From a suggestion to an order: the guardrails, the order itself, and what is
//! recorded of its outcome.

use vstd::prelude::*;
use vstd::string::*;
use crate::dates::{code_text, expiry_code, is_day};
use crate::engine::csp::money_of;
use crate::engine::types::{
    opt_int, ActionKind, KindView, Right, StructureKind, StructureLeg, Suggestion, SuggestionView,
};
use crate::fixed::{dec_text, int_text, push_dec, push_int, MAX_PART};
use crate::ibkr::{rows_wf, OptionOrder, OrderOutcome, OrderState, Side, SpreadOrder};
use crate::positions::{collateral_of, deployed_put_collateral};
use crate::store::journal_status;
use crate::store::models::{blank_entry, EntryView, NewJournalEntry};
use crate::text::own;
use crate::tui::app::{App, SugList, LIVE_CONFIRM_PHRASE};
use crate::tui::legs::{combo_legs_from, combo_of, ComboOrder};

verus! {

// --- guardrails ------------------------------------------------------------

/// Whether an order may be transmitted, or which guardrail stops it.
#[derive(Debug, Clone, Copy, PartialEq, Eq, Structural)]
pub enum Verdict {
    Disarmed,
    ReadOnly,
    TooManyContracts,
    LiveLocked,
    OverCap,
    Pass,
}

/// The collateral that a new entry adds: the notional of its short strike.
pub open spec fn notional(s: SuggestionView) -> int {
    s.strike * 100 * s.quantity
}

/// The collateral already deployed.
pub open spec fn deployed(app: App) -> int {
    collateral_of(app.broker_positions@, app.broker_positions@.len() as int)
}

/// Whether an action ties up put collateral.
pub open spec fn ties_collateral(k: KindView) -> bool {
    k is SellPut || k is SellPutSpread
}

/// The guardrails, in the order in which they stop an order: armed, not
/// read-only, within the contract limit, confirmed for live trading, and within
/// the deployment cap.
pub open spec fn verdict_of(app: App, s: SuggestionView) -> Verdict {
    let g = app.cfg.guardrails;
    if !app.armed {
        Verdict::Disarmed
    } else if g.read_only {
        Verdict::ReadOnly
    } else if s.quantity > g.max_contracts_per_order {
        Verdict::TooManyContracts
    } else if !app.live_open() {
        Verdict::LiveLocked
    } else if ties_collateral(s.kind) && deployed(app) + notional(s) > g.max_total_deployed {
        Verdict::OverCap
    } else {
        Verdict::Pass
    }
}

/// What the status line says of a stopped order.
pub open spec fn verdict_text(app: App, s: SuggestionView) -> Seq<char> {
    let g = app.cfg.guardrails;
    match verdict_of(app, s) {
        Verdict::Disarmed => "disarmed — press `A` to arm before executing"@,
        Verdict::ReadOnly => "read_only = true in config — disable to transmit"@,
        Verdict::TooManyContracts => "blocked: quantity "@ + int_text(s.quantity)
            + " exceeds max_contracts_per_order "@ + int_text(g.max_contracts_per_order as int),
        Verdict::LiveLocked => "LIVE not confirmed — press `L` and type "@ + LIVE_CONFIRM_PHRASE@
            + " to unlock real-money orders this session"@,
        Verdict::OverCap => "blocked: total CSP collateral $"@ + dec_text(
            deployed(app) + notional(s),
            0,
        ) + " would exceed max_total_deployed $"@ + dec_text(g.max_total_deployed as int, 0)
            + " ($"@ + dec_text(deployed(app), 0) + " already deployed)"@,
        Verdict::Pass => ""@,
    }
}

// --- journal entries -------------------------------------------------------

/// The journal entry of a suggestion's order, before its outcome is known.
pub open spec fn entry_of(s: SuggestionView, expiry: Seq<char>, right: Seq<char>) -> EntryView {
    EntryView {
        symbol: s.symbol,
        action: s.kind.key(),
        right: Some(right),
        strike: Some(s.strike),
        expiry: Some(expiry),
        quantity: s.quantity,
        limit_price: Some(s.limit_price),
        ..blank_entry()
    }
}

/// The journal entry of a suggestion's order, before its outcome is known.
pub fn journal_entry_for(sug: &Suggestion, expiry: &str, right: &str) -> (r: NewJournalEntry)
    ensures
        r@ == entry_of(sug@, expiry@, right@),
{
    NewJournalEntry {
        symbol: own(sug.symbol.as_str()),
        action: sug.kind.persist_key(),
        right: Some(own(right)),
        strike: Some(sug.strike),
        expiry: Some(own(expiry)),
        quantity: sug.quantity as i64,
        limit_price: Some(sug.limit_price),
        status: own(""),
        ibkr_order_id: None,
        premium: None,
        note: None,
    }
}

/// An order's outcome as the broker gave it.
pub enum OutcomeView {
    Preview { margin: Option<int>, commission: Option<int>, status: Seq<char> },
    Submitted(Seq<char>),
    Failed(Seq<char>),
}

/// What came back from the broker.
pub open spec fn outcome_view(o: Result<OrderOutcome, String>) -> OutcomeView {
    match o {
        Ok(OrderOutcome::Preview(s)) => OutcomeView::Preview {
            margin: opt_int(s.initial_margin_after),
            commission: opt_int(s.commission),
            status: s.status@,
        },
        Ok(OrderOutcome::Submitted(id)) => OutcomeView::Submitted(id@),
        Err(e) => OutcomeView::Failed(e@),
    }
}

/// The journal entry once the outcome is known: previewed or submitted with the
/// premium, or rejected with the reason as its note.
pub open spec fn recorded(base: EntryView, o: OutcomeView, premium: int) -> EntryView {
    match o {
        OutcomeView::Preview { .. } => EntryView {
            status: journal_status::PREVIEWED@,
            premium: Some(premium),
            ..base
        },
        OutcomeView::Submitted(id) => EntryView {
            status: journal_status::SUBMITTED@,
            ibkr_order_id: Some(id),
            premium: Some(premium),
            ..base
        },
        OutcomeView::Failed(e) => EntryView {
            status: journal_status::REJECTED@,
            note: Some(e),
            ..base
        },
    }
}

fn record(
    base: NewJournalEntry,
    outcome: &Result<OrderOutcome, String>,
    premium: i128,
) -> (r: NewJournalEntry)
    ensures
        r@ == recorded(base@, outcome_view(*outcome), premium as int),
{
    let mut e = base;
    match outcome {
        Ok(OrderOutcome::Preview(_)) => {
            e.status = own(journal_status::PREVIEWED);
            e.premium = Some(premium);
        },
        Ok(OrderOutcome::Submitted(id)) => {
            e.status = own(journal_status::SUBMITTED);
            e.ibkr_order_id = Some(own(id.as_str()));
            e.premium = Some(premium);
        },
        Err(x) => {
            e.status = own(journal_status::REJECTED);
            e.note = Some(own(x.as_str()));
        },
    }
    e
}

/// An optional amount in dollars with `places` digits behind the point, or a
/// question mark.
pub open spec fn amount_text(x: Option<int>, places: nat) -> Seq<char> {
    match x {
        Some(v) => "$"@ + dec_text(v, places),
        None => "?"@,
    }
}

fn amount_string(x: Option<i64>, places: u8) -> (r: String)
    requires
        places <= 2,
    ensures
        r@ == amount_text(opt_int(x), places as nat),
{
    match x {
        Some(v) => {
            let mut s = String::from_str("$");
            push_dec(&mut s, v as i128, places);
            s
        },
        None => own("?"),
    }
}

/// Margin and commission of a what-if preview as texts, with `?` where the broker
/// gave none.
pub fn preview_margin_commission(state: &OrderState) -> (r: (String, String))
    ensures
        r.0@ == amount_text(opt_int(state.initial_margin_after), 0),
        r.1@ == amount_text(opt_int(state.commission), 2),
{
    (amount_string(state.initial_margin_after, 0), amount_string(state.commission, 2))
}

/// One what-if leg in a few words.
pub open spec fn summary_text(o: OutcomeView) -> Seq<char> {
    match o {
        OutcomeView::Preview { margin, .. } => "margin "@ + amount_text(margin, 0),
        OutcomeView::Submitted(_) => "?"@,
        OutcomeView::Failed(e) => "err: "@ + e,
    }
}

/// One what-if leg in a few words: its margin, or the error.
pub fn preview_summary(res: &Result<OrderOutcome, String>) -> (r: String)
    ensures
        r@ == summary_text(outcome_view(*res)),
{
    match res {
        Ok(OrderOutcome::Preview(state)) => {
            let mut s = String::from_str("margin ");
            let m = preview_margin_commission(state).0;
            s.append(m.as_str());
            s
        },
        Ok(OrderOutcome::Submitted(_)) => own("?"),
        Err(e) => {
            let mut s = String::from_str("err: ");
            s.append(e.as_str());
            s
        },
    }
}

// --- orders ----------------------------------------------------------------

/// Side and right of a single-leg order; `None` for an action that is none.
pub open spec fn single_side(k: KindView, right: Right) -> Option<(Side, Right)> {
    match k {
        KindView::SellPut => Some((Side::Sell, Right::Put)),
        KindView::SellCall => Some((Side::Sell, Right::Call)),
        KindView::CloseForProfit => Some((Side::Buy, right)),
        _ => None,
    }
}

/// Side and right of a suggestion's single-leg order: entries sell, a close buys;
/// rolls, spreads and structures are no single-leg orders.
pub fn side_and_right(sug: &Suggestion) -> (r: Option<(Side, Right)>)
    ensures
        r == single_side(sug@.kind, sug@.right),
{
    match sug.kind {
        ActionKind::SellPut => Some((Side::Sell, Right::Put)),
        ActionKind::SellCall => Some((Side::Sell, Right::Call)),
        ActionKind::CloseForProfit => Some((Side::Buy, sug.right)),
        _ => None,
    }
}

/// The order that a suggestion leads to.
#[derive(Debug, Clone)]
pub enum OrderPlan {
    Single { order: OptionOrder, entry: NewJournalEntry },
    Spread { order: SpreadOrder, entry: NewJournalEntry },
    Combo { order: ComboOrder, entry: NewJournalEntry },
    /// A roll of the suggestion's short to the given target.
    Roll { near_expiry: String, to_expiry: i32, to_strike: i64 },
}

/// Whether `o` is the single-leg order of a suggestion.
pub open spec fn is_single(
    o: OptionOrder,
    s: SuggestionView,
    expiry: Seq<char>,
    side: Side,
    right: Right,
) -> bool {
    &&& o.symbol@ == s.symbol
    &&& o.expiry_yyyymmdd@ == expiry
    &&& o.strike == s.strike
    &&& o.right@ == right.spec_code()
    &&& o.side == side
    &&& o.quantity == s.quantity
    &&& o.limit == s.limit_price
}

/// The journal note of a put spread.
pub open spec fn spread_note(s: SuggestionView, long_strike: int) -> Seq<char> {
    "put credit spread: sell "@ + dec_text(s.strike, 1) + "P / buy "@ + dec_text(long_strike, 1)
        + "P, net credit "@ + dec_text(s.limit_price, 2)
}

/// The journal note of a structure.
pub open spec fn combo_note(s: SuggestionView, kind: StructureKind, legs: int) -> Seq<char> {
    kind.spec_label() + " "@ + int_text(s.dte) + "DTE: "@ + int_text(legs)
        + "-leg combo, net credit "@ + dec_text(s.limit_price, 2) + ", max loss $"@ + dec_text(
        s.capital_required,
        0,
    )
}

/// Whether `p` is the order that the suggestion leads to.
pub open spec fn is_plan_of(p: OrderPlan, s: SuggestionView, expiry: Seq<char>) -> bool {
    match s.kind {
        KindView::Roll { to_expiry, to_strike } => match p {
            OrderPlan::Roll { near_expiry, to_expiry: e, to_strike: k } => near_expiry@ == expiry
                && e == to_expiry && k == to_strike,
            _ => false,
        },
        KindView::SellPutSpread { long_strike, .. } => match p {
            OrderPlan::Spread { order, entry } => {
                &&& order.symbol@ == s.symbol
                &&& order.expiry_yyyymmdd@ == expiry
                &&& order.short_strike == s.strike
                &&& order.long_strike == long_strike
                &&& order.quantity == s.quantity
                &&& order.net_credit == s.limit_price
                &&& entry@ == (EntryView {
                    note: Some(spread_note(s, long_strike)),
                    ..entry_of(s, expiry, "P"@)
                })
            },
            _ => false,
        },
        KindView::OpenStructure { kind, legs } => match p {
            OrderPlan::Combo { order, entry } => {
                &&& order.symbol@ == s.symbol
                &&& order.expiry_yyyymmdd@ == expiry
                &&& order.legs@ == combo_of(legs)
                &&& order.quantity == s.quantity
                &&& order.net_credit == s.limit_price
                &&& entry@ == (EntryView {
                    note: Some(combo_note(s, kind, combo_of(legs).len() as int)),
                    ..entry_of(s, expiry, s.right.spec_code())
                })
            },
            _ => false,
        },
        _ => match p {
            OrderPlan::Single { order, entry } => {
                let (side, right) = single_side(s.kind, s.right)->0;
                is_single(order, s, expiry, side, right) && entry@ == entry_of(
                    s,
                    expiry,
                    right.spec_code(),
                )
            },
            _ => false,
        },
    }
}

fn plan_single(sug: &Suggestion, expiry: &str, side: Side, right: Right) -> (r: OrderPlan)
    requires
        single_side(sug@.kind, sug@.right) == Some((side, right)),
    ensures
        is_plan_of(r, sug@, expiry@),
{
    OrderPlan::Single {
        order: OptionOrder {
            symbol: own(sug.symbol.as_str()),
            expiry_yyyymmdd: own(expiry),
            strike: sug.strike,
            right: own(right.code()),
            side,
            quantity: sug.quantity,
            limit: sug.limit_price,
        },
        entry: journal_entry_for(sug, expiry, right.code()),
    }
}

fn plan_spread(sug: &Suggestion, expiry: &str, long_strike: i64) -> (r: OrderPlan)
    requires
        sug@.kind is SellPutSpread,
        sug@.kind->SellPutSpread_long_strike == long_strike,
    ensures
        is_plan_of(r, sug@, expiry@),
{
    let mut note = String::from_str("put credit spread: sell ");
    push_dec(&mut note, sug.strike as i128, 1);
    note.append("P / buy ");
    push_dec(&mut note, long_strike as i128, 1);
    note.append("P, net credit ");
    push_dec(&mut note, sug.limit_price as i128, 2);
    let mut entry = journal_entry_for(sug, expiry, "P");
    entry.note = Some(note);
    OrderPlan::Spread {
        order: SpreadOrder {
            symbol: own(sug.symbol.as_str()),
            expiry_yyyymmdd: own(expiry),
            short_strike: sug.strike,
            long_strike,
            quantity: sug.quantity,
            net_credit: sug.limit_price,
        },
        entry,
    }
}

fn plan_combo(sug: &Suggestion, expiry: &str, kind: StructureKind, legs: &Vec<StructureLeg>) -> (r:
    OrderPlan)
    requires
        sug@.wf(),
        sug@.kind == (KindView::OpenStructure { kind, legs: legs@ }),
    ensures
        is_plan_of(r, sug@, expiry@),
{
    let combo = combo_legs_from(legs);
    let mut note = own(kind.label());
    note.append(" ");
    push_int(&mut note, sug.dte as i128);
    note.append("DTE: ");
    push_int(&mut note, combo.len() as i128);
    note.append("-leg combo, net credit ");
    push_dec(&mut note, sug.limit_price as i128, 2);
    note.append(", max loss $");
    push_dec(&mut note, sug.capital_required, 0);
    let mut entry = journal_entry_for(sug, expiry, sug.right.code());
    entry.note = Some(note);
    OrderPlan::Combo {
        order: ComboOrder {
            symbol: own(sug.symbol.as_str()),
            expiry_yyyymmdd: own(expiry),
            legs: combo,
            quantity: sug.quantity,
            net_credit: sug.limit_price,
        },
        entry,
    }
}

/// The order that a suggestion leads to, its expiry as `YYYYMMDD`.
pub fn order_plan(sug: &Suggestion, expiry: &str) -> (r: OrderPlan)
    requires
        sug@.wf(),
    ensures
        is_plan_of(r, sug@, expiry@),
{
    match &sug.kind {
        ActionKind::Roll { to_expiry, to_strike } => OrderPlan::Roll {
            near_expiry: own(expiry),
            to_expiry: *to_expiry,
            to_strike: *to_strike,
        },
        ActionKind::SellPutSpread { long_strike, .. } => plan_spread(sug, expiry, *long_strike),
        ActionKind::OpenStructure { kind, legs } => plan_combo(sug, expiry, *kind, legs),
        ActionKind::SellPut => plan_single(sug, expiry, Side::Sell, Right::Put),
        ActionKind::SellCall => plan_single(sug, expiry, Side::Sell, Right::Call),
        ActionKind::CloseForProfit => plan_single(sug, expiry, Side::Buy, sug.right),
    }
}

impl App {
    /// Which guardrail stops the order of a suggestion, if any.
    pub fn execute_verdict(&self, sug: &Suggestion) -> (r: Verdict)
        requires
            rows_wf(self.broker_positions@),
        ensures
            r == verdict_of(*self, sug@),
    {
        let g = &self.cfg.guardrails;
        if !self.armed {
            return Verdict::Disarmed;
        }
        if g.read_only {
            return Verdict::ReadOnly;
        }
        if sug.quantity > g.max_contracts_per_order {
            return Verdict::TooManyContracts;
        }
        if !self.live_gate_ok() {
            return Verdict::LiveLocked;
        }
        let ties = matches!(sug.kind, ActionKind::SellPut | ActionKind::SellPutSpread { .. });
        if ties {
            let held: i128 = deployed_put_collateral(self.broker_positions.as_slice());
            let more: i128 = money_of(sug.strike, sug.quantity);
            if held + more > g.max_total_deployed as i128 {
                return Verdict::OverCap;
            }
        }
        Verdict::Pass
    }

    fn say_verdict(&self, sug: &Suggestion, v: Verdict) -> (r: String)
        requires
            rows_wf(self.broker_positions@),
            v == verdict_of(*self, sug@),
        ensures
            r@ == verdict_text(*self, sug@),
    {
        match v {
            Verdict::Disarmed => own("disarmed — press `A` to arm before executing"),
            Verdict::ReadOnly => own("read_only = true in config — disable to transmit"),
            Verdict::TooManyContracts => {
                let mut s = String::from_str("blocked: quantity ");
                push_int(&mut s, sug.quantity as i128);
                s.append(" exceeds max_contracts_per_order ");
                push_int(&mut s, self.cfg.guardrails.max_contracts_per_order as i128);
                s
            },
            Verdict::LiveLocked => {
                let mut s = String::from_str("LIVE not confirmed — press `L` and type ");
                s.append(LIVE_CONFIRM_PHRASE);
                s.append(" to unlock real-money orders this session");
                s
            },
            Verdict::OverCap => {
                let held: i128 = deployed_put_collateral(self.broker_positions.as_slice());
                let more: i128 = money_of(sug.strike, sug.quantity);
                let mut s = String::from_str("blocked: total CSP collateral $");
                push_money(&mut s, held + more);
                s.append(" would exceed max_total_deployed $");
                push_dec(&mut s, self.cfg.guardrails.max_total_deployed as i128, 0);
                s.append(" ($");
                push_money(&mut s, held);
                s.append(" already deployed)");
                s
            },
            Verdict::Pass => own(""),
        }
    }

    /// Starts the order of a suggestion: a preview goes straight on, an execution
    /// only past every guardrail; neither goes on without a connection. What
    /// stops it stands on the status line.
    pub fn start_order(&mut self, sug: &Suggestion, preview: bool) -> (r: Option<OrderPlan>)
        requires
            old(self).wf(),
            sug@.wf(),
            is_day(sug.expiry as int),
        ensures
            *final(self) == (App { status: final(self).status, ..*old(self) }),
            r is Some <==> old(self).connected && (preview || verdict_of(*old(self), sug@)
                == Verdict::Pass),
            r is Some ==> final(self).status == old(self).status && is_plan_of(
                r->0,
                sug@,
                code_text(sug.expiry as int),
            ),
            !preview && verdict_of(*old(self), sug@) != Verdict::Pass ==> final(self).status@
                == verdict_text(*old(self), sug@),
            (preview || verdict_of(*old(self), sug@) == Verdict::Pass) && !old(self).connected
                ==> final(self).status@ == "not connected — start IB Gateway first"@,
    {
        if !preview {
            let v = self.execute_verdict(sug);
            if v != Verdict::Pass {
                let s = self.say_verdict(sug, v);
                self.status = s;
                return None;
            }
        }
        if !self.connected {
            self.status = own("not connected — start IB Gateway first");
            return None;
        }
        match expiry_code(sug.expiry) {
            Some(expiry) => Some(order_plan(sug, expiry.as_str())),
            None => None,
        }
    }
}

fn push_money(s: &mut String, x: i128)
    requires
        -MAX_PART <= x <= MAX_PART,
    ensures
        final(s)@ == old(s)@ + dec_text(x as int, 0),
{
    crate::fixed::push_ratio(s, x, 1_000_000, 0);
}

/// Nothing is transmitted unless the app is armed, not read-only, the quantity is
/// within the limit, live trading is confirmed where that is asked for, the
/// collateral stays within the deployment cap, and there is a connection.
pub proof fn law_guardrails_hold(app: App, s: SuggestionView)
    requires
        verdict_of(app, s) == Verdict::Pass,
    ensures
        app.armed,
        !app.cfg.guardrails.read_only,
        s.quantity <= app.cfg.guardrails.max_contracts_per_order,
        app.cfg.connection.live() && app.cfg.guardrails.require_live_confirmation
            ==> app.live_confirmed,
        ties_collateral(s.kind) ==> deployed(app) + s.strike * 100 * s.quantity
            <= app.cfg.guardrails.max_total_deployed,
{
}

// --- outcomes --------------------------------------------------------------

/// `preview` or `execute`.
pub open spec fn mode_word(preview: bool) -> Seq<char> {
    if preview {
        "preview"@
    } else {
        "execute"@
    }
}

/// Whether the app stays armed after an outcome: a submitted order disarms.
pub open spec fn armed_after(armed: bool, o: OutcomeView) -> bool {
    armed && !(o is Submitted)
}

/// What the status line says of a single-leg order's outcome.
pub open spec fn single_status(
    s: SuggestionView,
    right: Seq<char>,
    preview: bool,
    o: OutcomeView,
) -> Seq<char> {
    let order = s.symbol + " "@ + s.kind.key() + " "@ + dec_text(s.strike, 1) + right + "@"@
        + dec_text(s.limit_price, 2);
    match o {
        OutcomeView::Preview { margin, commission, status } => "preview "@ + order + ": margin "@
            + amount_text(margin, 0) + " · commission "@ + amount_text(commission, 2) + " · "@
            + status,
        OutcomeView::Submitted(id) => "submitted "@ + order + " → id "@ + id,
        OutcomeView::Failed(e) => mode_word(preview) + " error: "@ + e,
    }
}

/// What the status line says of a spread's outcome.
pub open spec fn spread_status(
    s: SuggestionView,
    long_strike: int,
    preview: bool,
    o: OutcomeView,
) -> Seq<char> {
    let order = s.symbol + " put spread "@ + dec_text(s.strike, 1) + "/"@ + dec_text(
        long_strike,
        1,
    ) + " @"@ + dec_text(s.limit_price, 2) + "cr ×"@ + int_text(s.quantity);
    match o {
        OutcomeView::Preview { margin, commission, status } => "preview "@ + order + ": margin "@
            + amount_text(margin, 0) + " · commission "@ + amount_text(commission, 2) + " · "@
            + status,
        OutcomeView::Submitted(id) => "submitted "@ + order + " → id "@ + id,
        OutcomeView::Failed(e) => mode_word(preview) + " spread error: "@ + e,
    }
}

/// What the status line says of a structure's outcome.
pub open spec fn combo_status(
    s: SuggestionView,
    kind: StructureKind,
    preview: bool,
    o: OutcomeView,
) -> Seq<char> {
    match o {
        OutcomeView::Preview { margin, commission, status } => "preview "@ + s.symbol + " "@
            + kind.spec_label() + " ×"@ + int_text(s.quantity) + ": margin "@ + amount_text(
            margin,
            0,
        ) + " (≈max loss $"@ + dec_text(s.capital_required, 0) + ") · commission "@ + amount_text(
            commission,
            2,
        ) + " · "@ + status,
        OutcomeView::Submitted(id) => "submitted "@ + s.symbol + " "@ + kind.spec_label() + " ×"@
            + int_text(s.quantity) + " @"@ + dec_text(s.limit_price, 2) + "cr → id "@ + id,
        OutcomeView::Failed(e) => mode_word(preview) + " "@ + kind.spec_label() + " error: "@ + e,
    }
}

/// The status line after the outcome of a suggestion's order.
pub open spec fn outcome_status(s: SuggestionView, preview: bool, o: OutcomeView) -> Seq<char> {
    match s.kind {
        KindView::SellPutSpread { long_strike, .. } => spread_status(s, long_strike, preview, o),
        KindView::OpenStructure { kind, .. } => combo_status(s, kind, preview, o),
        _ => single_status(
            s,
            match single_side(s.kind, s.right) {
                Some((_, right)) => right.spec_code(),
                None => ""@,
            },
            preview,
            o,
        ),
    }
}

fn say_single(sug: &Suggestion, right: &str, preview: bool, o: &Result<OrderOutcome, String>) -> (r:
    String)
    requires
        sug@.wf(),
    ensures
        r@ == single_status(sug@, right@, preview, outcome_view(*o)),
{
    let mut order = own(sug.symbol.as_str());
    order.append(" ");
    let key = sug.kind.persist_key();
    order.append(key.as_str());
    order.append(" ");
    push_dec(&mut order, sug.strike as i128, 1);
    order.append(right);
    order.append("@");
    push_dec(&mut order, sug.limit_price as i128, 2);
    match o {
        Ok(OrderOutcome::Preview(state)) => {
            let (margin, commission) = preview_margin_commission(state);
            let mut s = String::from_str("preview ");
            s.append(order.as_str());
            s.append(": margin ");
            s.append(margin.as_str());
            s.append(" · commission ");
            s.append(commission.as_str());
            s.append(" · ");
            s.append(state.status.as_str());
            s
        },
        Ok(OrderOutcome::Submitted(id)) => {
            let mut s = String::from_str("submitted ");
            s.append(order.as_str());
            s.append(" → id ");
            s.append(id.as_str());
            s
        },
        Err(e) => {
            let mut s = if preview {
                own("preview")
            } else {
                own("execute")
            };
            s.append(" error: ");
            s.append(e.as_str());
            s
        },
    }
}

fn say_spread(
    sug: &Suggestion,
    long_strike: i64,
    preview: bool,
    o: &Result<OrderOutcome, String>,
) -> (r: String)
    requires
        sug@.wf(),
    ensures
        r@ == spread_status(sug@, long_strike as int, preview, outcome_view(*o)),
{
    let mut order = own(sug.symbol.as_str());
    order.append(" put spread ");
    push_dec(&mut order, sug.strike as i128, 1);
    order.append("/");
    push_dec(&mut order, long_strike as i128, 1);
    order.append(" @");
    push_dec(&mut order, sug.limit_price as i128, 2);
    order.append("cr ×");
    push_int(&mut order, sug.quantity as i128);
    match o {
        Ok(OrderOutcome::Preview(state)) => {
            let (margin, commission) = preview_margin_commission(state);
            let mut s = String::from_str("preview ");
            s.append(order.as_str());
            s.append(": margin ");
            s.append(margin.as_str());
            s.append(" · commission ");
            s.append(commission.as_str());
            s.append(" · ");
            s.append(state.status.as_str());
            s
        },
        Ok(OrderOutcome::Submitted(id)) => {
            let mut s = String::from_str("submitted ");
            s.append(order.as_str());
            s.append(" → id ");
            s.append(id.as_str());
            s
        },
        Err(e) => {
            let mut s = if preview {
                own("preview")
            } else {
                own("execute")
            };
            s.append(" spread error: ");
            s.append(e.as_str());
            s
        },
    }
}

fn say_combo(
    sug: &Suggestion,
    kind: StructureKind,
    preview: bool,
    o: &Result<OrderOutcome, String>,
) -> (r: String)
    requires
        sug@.wf(),
    ensures
        r@ == combo_status(sug@, kind, preview, outcome_view(*o)),
{
    match o {
        Ok(OrderOutcome::Preview(state)) => {
            let (margin, commission) = preview_margin_commission(state);
            let mut s = String::from_str("preview ");
            s.append(sug.symbol.as_str());
            s.append(" ");
            s.append(kind.label());
            s.append(" ×");
            push_int(&mut s, sug.quantity as i128);
            s.append(": margin ");
            s.append(margin.as_str());
            s.append(" (≈max loss $");
            push_dec(&mut s, sug.capital_required, 0);
            s.append(") · commission ");
            s.append(commission.as_str());
            s.append(" · ");
            s.append(state.status.as_str());
            s
        },
        Ok(OrderOutcome::Submitted(id)) => {
            let mut s = String::from_str("submitted ");
            s.append(sug.symbol.as_str());
            s.append(" ");
            s.append(kind.label());
            s.append(" ×");
            push_int(&mut s, sug.quantity as i128);
            s.append(" @");
            push_dec(&mut s, sug.limit_price as i128, 2);
            s.append("cr → id ");
            s.append(id.as_str());
            s
        },
        Err(e) => {
            let mut s = if preview {
                own("preview")
            } else {
                own("execute")
            };
            s.append(" ");
            s.append(kind.label());
            s.append(" error: ");
            s.append(e.as_str());
            s
        },
    }
}

impl App {
    /// Starts the preview of the suggestion at a place of a list.
    pub fn ui_preview(&mut self, list: SugList, i: usize) -> (r: Option<OrderPlan>)
        requires
            old(self).wf(),
            old(self).listed(list, i as int) is Some ==> is_day(
                (old(self).listed(list, i as int)->0).expiry,
            ),
        ensures
            *final(self) == (App { status: final(self).status, ..*old(self) }),
            old(self).listed(list, i as int) is None ==> *final(self) == *old(self),
            old(self).listed(list, i as int) is Some && !old(self).connected ==> final(self).status@
                == "not connected — start IB Gateway first"@,
            r is Some <==> old(self).connected && old(self).listed(list, i as int) is Some,
            r is Some ==> *final(self) == *old(self),
            r is Some ==> is_plan_of(
                r->0,
                old(self).listed(list, i as int)->0,
                code_text((old(self).listed(list, i as int)->0).expiry),
            ),
    {
        let found = match self.sug_at(list, i) {
            Some(s) => Some(s.copied()),
            None => None,
        };
        match found {
            Some(s) => self.start_order(&s, true),
            None => None,
        }
    }

    /// Starts the execution of the suggestion at a place of a list, past every
    /// guardrail.
    pub fn ui_execute(&mut self, list: SugList, i: usize) -> (r: Option<OrderPlan>)
        requires
            old(self).wf(),
            old(self).listed(list, i as int) is Some ==> is_day(
                (old(self).listed(list, i as int)->0).expiry,
            ),
        ensures
            *final(self) == (App { status: final(self).status, ..*old(self) }),
            old(self).listed(list, i as int) is None ==> *final(self) == *old(self),
            r is Some <==> old(self).connected && old(self).listed(list, i as int) is Some
                && verdict_of(*old(self), old(self).listed(list, i as int)->0) == Verdict::Pass,
            r is Some ==> *final(self) == *old(self),
            r is Some ==> is_plan_of(
                r->0,
                old(self).listed(list, i as int)->0,
                code_text((old(self).listed(list, i as int)->0).expiry),
            ),
            old(self).listed(list, i as int) is Some && verdict_of(
                *old(self),
                old(self).listed(list, i as int)->0,
            ) != Verdict::Pass ==> final(self).status@ == verdict_text(
                *old(self),
                old(self).listed(list, i as int)->0,
            ),
            old(self).listed(list, i as int) is Some && verdict_of(
                *old(self),
                old(self).listed(list, i as int)->0,
            ) == Verdict::Pass && !old(self).connected ==> final(self).status@
                == "not connected — start IB Gateway first"@,
    {
        let found = match self.sug_at(list, i) {
            Some(s) => Some(s.copied()),
            None => None,
        };
        match found {
            Some(s) => self.start_order(&s, false),
            None => None,
        }
    }

    /// Takes over the outcome of a suggestion's order (not of a roll): the status
    /// line, the disarming after a submission, and the journal entry to record.
    pub fn finish_order(
        &mut self,
        sug: &Suggestion,
        preview: bool,
        entry: NewJournalEntry,
        outcome: &Result<OrderOutcome, String>,
    ) -> (r: NewJournalEntry)
        requires
            sug@.wf(),
        ensures
            *final(self) == (App {
                status: final(self).status,
                armed: armed_after(old(self).armed, outcome_view(*outcome)),
                ..*old(self)
            }),
            final(self).status@ == outcome_status(sug@, preview, outcome_view(*outcome)),
            r@ == recorded(entry@, outcome_view(*outcome), sug.premium_total as int),
    {
        let status = match &sug.kind {
            ActionKind::SellPutSpread { long_strike, .. } => say_spread(
                sug,
                *long_strike,
                preview,
                outcome,
            ),
            ActionKind::OpenStructure { kind, .. } => say_combo(sug, *kind, preview, outcome),
            _ => {
                let right = match side_and_right(sug) {
                    Some((_, r)) => r.code(),
                    None => "",
                };
                say_single(sug, right, preview, outcome)
            },
        };
        self.status = status;
        if let Ok(OrderOutcome::Submitted(_)) = outcome {
            self.armed = false;
        }
        record(entry, outcome, sug.premium_total)
    }
}

} // verus!

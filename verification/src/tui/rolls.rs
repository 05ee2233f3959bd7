//! Rolls: a buy-to-close leg first, the sell-to-open leg once it has filled.

use vstd::prelude::*;
use vstd::string::*;
use crate::data::{holds_short, position_has_short};
use crate::engine::csp::money_of;
use crate::engine::types::{Right, Suggestion, SuggestionView};
use crate::fixed::{abs, dec_text, int_text, push_dec, push_int, MAX_PRICE};
use crate::ibkr::{OpenOrderInfo, OptionOrder, OrderOutcome, PositionRow, Side};
use crate::live::is_blocked;
use crate::store::journal_status;
use crate::store::models::{blank_entry, EntryView, NewJournalEntry, PendingRollRow};
use crate::text::{own, same_text};
use crate::tui::app::App;
use crate::tui::orders::{outcome_view, preview_summary, summary_text, OutcomeView};

verus! {

/// A roll whose close leg is to fill before its open leg is transmitted.
#[derive(Debug, Clone)]
pub struct PendingRoll {
    pub symbol: String,
    /// Right of both legs.
    pub right: Right,
    /// The near (closing) leg.
    pub near_strike: i64,
    pub near_expiry: String,
    pub to_strike: i64,
    /// Listed expiry of the new leg (`YYYYMMDD`).
    pub to_expiry: String,
    pub quantity: i32,
    pub far_limit: i64,
    /// Order id of the buy-to-close leg.
    pub close_oid: String,
    /// Whether it was taken up from a prior session. Only such a roll is
    /// reconciled against open orders; the others are driven by order events.
    pub reconstructed: bool,
}

/// A whole number held within 32 bits by dropping its higher bits.
pub open spec fn low_i32(x: i64) -> i32 {
    x as i32
}

impl PendingRoll {
    /// Whether this roll takes up the stored one.
    pub open spec fn takes_up(self, row: PendingRollRow) -> bool {
        &&& self.symbol@ == row.symbol@
        &&& self.right == Right::of_code(row.right@)
        &&& self.near_strike == row.near_strike
        &&& self.near_expiry@ == row.near_expiry@
        &&& self.to_strike == row.to_strike
        &&& self.to_expiry@ == row.to_expiry@
        &&& self.quantity == low_i32(row.quantity)
        &&& self.far_limit == row.far_limit
        &&& self.close_oid@ == row.close_oid@
        &&& self.reconstructed
    }

    /// Takes up a stored roll.
    pub fn from_row(r: PendingRollRow) -> (p: Self)
        ensures
            p.takes_up(r),
    {
        let right = Right::from_code(r.right.as_str());
        PendingRoll {
            symbol: r.symbol,
            right,
            near_strike: r.near_strike,
            near_expiry: r.near_expiry,
            to_strike: r.to_strike,
            to_expiry: r.to_expiry,
            quantity: #[verifier::truncate]
            (r.quantity as i32),
            far_limit: r.far_limit,
            close_oid: r.close_oid,
            reconstructed: true,
        }
    }

    /// The row under which a roll is stored; its time is set on insert.
    pub fn to_row(&self) -> (r: PendingRollRow)
        ensures
            r.symbol@ == self.symbol@,
            r.right@ == self.right.spec_code(),
            r.near_strike == self.near_strike,
            r.near_expiry@ == self.near_expiry@,
            r.to_strike == self.to_strike,
            r.to_expiry@ == self.to_expiry@,
            r.quantity == self.quantity,
            r.far_limit == self.far_limit,
            r.close_oid@ == self.close_oid@,
            r.created_at@ == ""@,
    {
        PendingRollRow {
            close_oid: own(self.close_oid.as_str()),
            symbol: own(self.symbol.as_str()),
            right: own(self.right.code()),
            near_strike: self.near_strike,
            near_expiry: own(self.near_expiry.as_str()),
            to_strike: self.to_strike,
            to_expiry: own(self.to_expiry.as_str()),
            quantity: self.quantity as i64,
            far_limit: self.far_limit,
            created_at: own(""),
        }
    }
}

/// Takes up the stored rolls of a prior session.
pub fn rolls_of(rows: Vec<PendingRollRow>) -> (r: Vec<PendingRoll>)
    ensures
        r@.len() == rows@.len(),
        forall|i: int| 0 <= i < rows@.len() ==> (#[trigger] r@[i]).takes_up(rows@[i]),
{
    let mut out: Vec<PendingRoll> = Vec::new();
    let mut i: usize = 0;
    while i < rows.len()
        invariant
            i <= rows@.len(),
            out@.len() == i,
            forall|k: int| 0 <= k < i ==> (#[trigger] out@[k]).takes_up(rows@[k]),
        decreases rows@.len() - i,
    {
        let row = &rows[i];
        let copy = PendingRollRow {
            close_oid: own(row.close_oid.as_str()),
            symbol: own(row.symbol.as_str()),
            right: own(row.right.as_str()),
            near_strike: row.near_strike,
            near_expiry: own(row.near_expiry.as_str()),
            to_strike: row.to_strike,
            to_expiry: own(row.to_expiry.as_str()),
            quantity: row.quantity,
            far_limit: row.far_limit,
            created_at: own(row.created_at.as_str()),
        };
        out.push(PendingRoll::from_row(copy));
        i = i + 1;
    }
    out
}

/// A roll that is stored and taken up again is the same roll.
pub proof fn law_roll_survives_restart(p: PendingRoll, row: PendingRollRow, q: PendingRoll)
    requires
        row.symbol@ == p.symbol@,
        row.right@ == p.right.spec_code(),
        row.near_strike == p.near_strike,
        row.near_expiry@ == p.near_expiry@,
        row.to_strike == p.to_strike,
        row.to_expiry@ == p.to_expiry@,
        row.quantity == p.quantity,
        row.far_limit == p.far_limit,
        row.close_oid@ == p.close_oid@,
        q.takes_up(row),
    ensures
        q.symbol@ == p.symbol@,
        q.right == p.right,
        q.near_strike == p.near_strike,
        q.near_expiry@ == p.near_expiry@,
        q.to_strike == p.to_strike,
        q.to_expiry@ == p.to_expiry@,
        q.quantity == p.quantity,
        q.far_limit == p.far_limit,
        q.close_oid@ == p.close_oid@,
{
    crate::engine::types::law_right_code_reads_back(p.right);
}

// --- orders of a roll ------------------------------------------------------

/// The listed contract that a roll opens, with its current credit per share.
#[derive(Debug, Clone)]
pub struct RollTarget {
    pub expiry: String,
    pub strike: i64,
    pub credit: i64,
}

impl RollTarget {
    pub open spec fn wf(self) -> bool {
        -2 * MAX_PRICE <= self.credit <= 2 * MAX_PRICE
    }
}

/// The journal entry of one leg of a roll, before action and status are set.
pub open spec fn roll_entry(
    symbol: Seq<char>,
    right: Seq<char>,
    strike: int,
    expiry: Seq<char>,
    quantity: int,
    limit: int,
) -> EntryView {
    EntryView {
        symbol,
        right: Some(right),
        strike: Some(strike),
        expiry: Some(expiry),
        quantity,
        limit_price: Some(limit),
        ..blank_entry()
    }
}

/// The journal entry of one leg of a roll, before action and status are set.
pub fn roll_leg_journal(
    symbol: &str,
    right: &str,
    strike: i64,
    expiry: &str,
    quantity: i32,
    limit: i64,
) -> (r: NewJournalEntry)
    ensures
        r@ == roll_entry(
            symbol@,
            right@,
            strike as int,
            expiry@,
            quantity as int,
            limit as int,
        ),
{
    NewJournalEntry {
        symbol: own(symbol),
        action: own(""),
        right: Some(own(right)),
        strike: Some(strike),
        expiry: Some(own(expiry)),
        quantity: quantity as i64,
        limit_price: Some(limit),
        status: own(""),
        ibkr_order_id: None,
        premium: None,
        note: None,
    }
}

/// Whether `o` is the order of one leg of a roll.
pub open spec fn is_leg_order(
    o: OptionOrder,
    symbol: Seq<char>,
    right: Right,
    strike: int,
    expiry: Seq<char>,
    side: Side,
    quantity: int,
    limit: int,
) -> bool {
    &&& o.symbol@ == symbol
    &&& o.expiry_yyyymmdd@ == expiry
    &&& o.strike == strike
    &&& o.right@ == right.spec_code()
    &&& o.side == side
    &&& o.quantity == quantity
    &&& o.limit == limit
}

/// The two orders of a roll: buy the near short back at `near_cost`, sell the
/// target at its credit.
pub fn roll_orders(sug: &Suggestion, near_expiry: &str, target: &RollTarget, near_cost: i64) -> (r: (
    OptionOrder,
    OptionOrder,
))
    ensures
        is_leg_order(
            r.0,
            sug.symbol@,
            sug.right,
            sug.strike as int,
            near_expiry@,
            Side::Buy,
            sug.quantity as int,
            near_cost as int,
        ),
        is_leg_order(
            r.1,
            sug.symbol@,
            sug.right,
            target.strike as int,
            target.expiry@,
            Side::Sell,
            sug.quantity as int,
            target.credit as int,
        ),
{
    (
        OptionOrder {
            symbol: own(sug.symbol.as_str()),
            expiry_yyyymmdd: own(near_expiry),
            strike: sug.strike,
            right: own(sug.right.code()),
            side: Side::Buy,
            quantity: sug.quantity,
            limit: near_cost,
        },
        OptionOrder {
            symbol: own(sug.symbol.as_str()),
            expiry_yyyymmdd: own(target.expiry.as_str()),
            strike: target.strike,
            right: own(sug.right.code()),
            side: Side::Sell,
            quantity: sug.quantity,
            limit: target.credit,
        },
    )
}

/// Whether a roll of the symbol is in flight.
pub open spec fn in_flight(rolls: Seq<PendingRoll>, symbol: Seq<char>) -> bool {
    exists|i: int| 0 <= i < rolls.len() && (#[trigger] rolls[i]).symbol@ == symbol
}

/// Whether a roll may go on past its first checks.
#[derive(Debug, Clone, Copy, PartialEq, Eq, Structural)]
pub enum RollGate {
    /// The symbol may not be opened anew.
    Blocked,
    /// A close of the symbol is already working.
    InFlight,
    Go,
}

/// The first checks of a roll; a preview does not mind one in flight.
pub open spec fn roll_gate(app: App, symbol: Seq<char>, preview: bool) -> RollGate {
    if is_blocked(app.watchlist@, symbol) {
        RollGate::Blocked
    } else if !preview && in_flight(app.pending_rolls@, symbol) {
        RollGate::InFlight
    } else {
        RollGate::Go
    }
}

/// The net credit of a roll per share.
pub open spec fn roll_net(target: RollTarget, near_cost: int) -> int {
    target.credit - near_cost
}

/// What the status line says of a previewed roll.
pub open spec fn roll_preview_status(
    s: SuggestionView,
    target: RollTarget,
    near_cost: int,
    near: OutcomeView,
    far: OutcomeView,
) -> Seq<char> {
    let r = s.right.spec_code();
    let net = roll_net(target, near_cost);
    "preview roll "@ + s.symbol + ": close "@ + dec_text(s.strike, 1) + r + "@"@ + dec_text(
        near_cost,
        2,
    ) + " ["@ + summary_text(near) + "] → open "@ + dec_text(target.strike as int, 1) + r + " "@
        + target.expiry@ + "@"@ + dec_text(target.credit as int, 2) + " ["@ + summary_text(far)
        + "]; net "@ + (if net >= 0 {
        "credit"@
    } else {
        "debit"@
    }) + " $"@ + dec_text(abs(net), 2) + "/sh"@
}

/// The journal note of a previewed roll.
pub open spec fn roll_preview_note(
    s: SuggestionView,
    near_expiry: Seq<char>,
    target: RollTarget,
    near_cost: int,
) -> Seq<char> {
    let r = s.right.spec_code();
    let net = roll_net(target, near_cost);
    "close "@ + dec_text(s.strike, 1) + r + " "@ + near_expiry + "@"@ + dec_text(near_cost, 2)
        + " / open "@ + dec_text(target.strike as int, 1) + r + " "@ + target.expiry@ + "@"@
        + dec_text(target.credit as int, 2) + "; net "@ + (if net >= 0 {
        "+"@
    } else {
        "-"@
    }) + dec_text(abs(net), 2)
}

/// What is done next in executing a roll.
#[derive(Debug)]
pub enum RollAct {
    /// Nothing more.
    Stop,
    /// The new leg is put to a what-if, which transmits nothing.
    CheckFar(OptionOrder),
    /// The close of the near leg is transmitted.
    CloseNear(OptionOrder),
}

/// How far the execution of a roll has come.
#[derive(Debug, Clone, Copy, PartialEq, Eq, Structural)]
pub enum RollStage {
    /// The symbol may not be opened anew.
    Blocked,
    /// A close of the symbol is already working.
    InFlight,
    /// There is no listed and priced contract to roll to.
    Unresolved,
    /// The new leg pays less than the close costs.
    Debit,
    /// The new leg is to be put to a what-if.
    CheckFar,
    /// The what-if refused the new leg.
    Refused,
    /// The near leg is to be closed.
    CloseNear,
}

/// What the near leg is bought back at: its price now, or that of the plan where it
/// is not quoted.
pub open spec fn near_price(s: SuggestionView, near_quote: Option<i64>) -> int {
    match near_quote {
        Some(q) => q as int,
        None => s.limit_price,
    }
}

/// What the near leg is bought back at.
pub fn near_cost_of(sug: &Suggestion, near_quote: Option<i64>) -> (r: i64)
    ensures
        r == near_price(sug@, near_quote),
{
    match near_quote {
        Some(q) => q,
        None => sug.limit_price,
    }
}

/// The target behind a reference.
pub open spec fn held_target(target: Option<&RollTarget>) -> Option<RollTarget> {
    match target {
        Some(t) => Some(*t),
        None => None,
    }
}

/// What a what-if gave, where it was asked for.
pub open spec fn check_view(far: Option<&Result<OrderOutcome, String>>) -> Option<OutcomeView> {
    match far {
        Some(o) => Some(outcome_view(*o)),
        None => None,
    }
}

/// How far the execution of a roll has come: first the checks on the symbol, then a
/// target, then a credit, then a what-if of the new leg that passed.
pub open spec fn roll_stage(
    app: App,
    symbol: Seq<char>,
    target: Option<RollTarget>,
    near_cost: int,
    far: Option<OutcomeView>,
) -> RollStage {
    match roll_gate(app, symbol, false) {
        RollGate::Blocked => RollStage::Blocked,
        RollGate::InFlight => RollStage::InFlight,
        RollGate::Go => match target {
            None => RollStage::Unresolved,
            Some(t) => if roll_net(t, near_cost) < 0 {
                RollStage::Debit
            } else {
                match far {
                    None => RollStage::CheckFar,
                    Some(OutcomeView::Failed(_)) => RollStage::Refused,
                    Some(_) => RollStage::CloseNear,
                }
            },
        },
    }
}

/// What the status line says of a roll that stopped.
pub open spec fn stop_status(
    stage: RollStage,
    symbol: Seq<char>,
    target: Option<RollTarget>,
    near_cost: int,
    far: Option<OutcomeView>,
) -> Seq<char> {
    "roll "@ + symbol + (match stage {
        RollStage::Blocked => ": blocked for new positions — close it instead"@,
        RollStage::InFlight => ": already in flight — wait for the close to fill"@,
        RollStage::Unresolved =>
            ": can't resolve/price the new leg — aborted, nothing transmitted"@,
        RollStage::Debit => ": market offers only a net debit ($"@ + dec_text(
            -roll_net(target->0, near_cost),
            2,
        ) + "/sh) — not transmitted; close manually to defend"@,
        _ => ": new leg not openable ("@ + (far->0)->Failed_0
            + ") — aborted, nothing transmitted"@,
    })
}

/// The close of a roll is transmitted only where the symbol is neither blocked nor
/// being rolled, a target is found, it pays at least what the close costs, and a
/// what-if of the new leg has passed.
pub proof fn law_roll_closes_last(
    app: App,
    symbol: Seq<char>,
    target: Option<RollTarget>,
    near_cost: int,
    far: Option<OutcomeView>,
)
    requires
        roll_stage(app, symbol, target, near_cost, far) == RollStage::CloseNear,
    ensures
        !is_blocked(app.watchlist@, symbol),
        !in_flight(app.pending_rolls@, symbol),
        target is Some,
        roll_net(target->0, near_cost) >= 0,
        far is Some,
        !(far->0 is Failed),
        roll_stage(app, symbol, target, near_cost, None) == RollStage::CheckFar,
{
}

/// Once the close of a roll is submitted, none of its symbol is transmitted again,
/// whatever the market offers, until the roll is no longer pending.
pub proof fn law_roll_closes_once(
    before: App,
    after: App,
    s: SuggestionView,
    near_expiry: Seq<char>,
    to: RollTarget,
    id: Seq<char>,
    target: Option<RollTarget>,
    near_cost: int,
    far: Option<OutcomeView>,
)
    requires
        after.pending_rolls@.len() == before.pending_rolls@.len() + 1,
        is_pending(after.pending_rolls@.last(), s, near_expiry, to, id),
    ensures
        in_flight(after.pending_rolls@, s.symbol),
        roll_stage(after, s.symbol, target, near_cost, far) == RollStage::InFlight || roll_stage(
            after,
            s.symbol,
            target,
            near_cost,
            far,
        ) == RollStage::Blocked,
{
    let k = after.pending_rolls@.len() - 1;
    assert(after.pending_rolls@[k].symbol@ == s.symbol);
}

impl App {
    /// The first checks of a roll: what stops it stands on the status line.
    pub fn begin_roll(&mut self, symbol: &str, preview: bool) -> (r: RollGate)
        ensures
            r == roll_gate(*old(self), symbol@, preview),
            *final(self) == (App { status: final(self).status, ..*old(self) }),
            r == RollGate::Go ==> final(self).status == old(self).status,
            r == RollGate::Blocked ==> final(self).status@ == "roll "@ + symbol@
                + ": blocked for new positions — close it instead"@,
            r == RollGate::InFlight ==> final(self).status@ == "roll "@ + symbol@
                + ": already in flight — wait for the close to fill"@,
    {
        if self.is_symbol_blocked(symbol) {
            let mut s = String::from_str("roll ");
            s.append(symbol);
            s.append(": blocked for new positions — close it instead");
            self.status = s;
            return RollGate::Blocked;
        }
        if !preview && self.roll_in_flight(symbol) {
            let mut s = String::from_str("roll ");
            s.append(symbol);
            s.append(": already in flight — wait for the close to fill");
            self.status = s;
            return RollGate::InFlight;
        }
        RollGate::Go
    }

    /// Whether a roll of the symbol is in flight.
    pub fn roll_in_flight(&self, symbol: &str) -> (r: bool)
        ensures
            r == in_flight(self.pending_rolls@, symbol@),
    {
        let mut i: usize = 0;
        while i < self.pending_rolls.len()
            invariant
                i <= self.pending_rolls@.len(),
                forall|k: int| 0 <= k < i ==> (#[trigger] self.pending_rolls@[k]).symbol@ != symbol@,
            decreases self.pending_rolls@.len() - i,
        {
            if same_text(self.pending_rolls[i].symbol.as_str(), symbol) {
                assert(self.pending_rolls@[i as int].symbol@ == symbol@);
                return true;
            }
            i = i + 1;
        }
        false
    }

    /// Notes that no listed contract could be found or priced for a roll.
    pub fn roll_unresolved(&mut self, symbol: &str, preview: bool)
        ensures
            *final(self) == (App { status: final(self).status, ..*old(self) }),
            final(self).status@ == "roll "@ + symbol@ + (if preview {
                ": couldn't resolve/price a listed target leg yet — retry when quotes are live"@
            } else {
                ": can't resolve/price the new leg — aborted, nothing transmitted"@
            }),
    {
        let mut s = String::from_str("roll ");
        s.append(symbol);
        s.append(
            if preview {
                ": couldn't resolve/price a listed target leg yet — retry when quotes are live"
            } else {
                ": can't resolve/price the new leg — aborted, nothing transmitted"
            },
        );
        self.status = s;
    }

    /// Takes over the two what-if outcomes of a previewed roll; the journal entry
    /// to record.
    pub fn finish_roll_preview(
        &mut self,
        sug: &Suggestion,
        near_expiry: &str,
        target: &RollTarget,
        near_cost: i64,
        near: &Result<OrderOutcome, String>,
        far: &Result<OrderOutcome, String>,
    ) -> (r: NewJournalEntry)
        requires
            target.wf(),
            -5 * MAX_PRICE <= near_cost <= 5 * MAX_PRICE,
        ensures
            *final(self) == (App { status: final(self).status, ..*old(self) }),
            final(self).status@ == roll_preview_status(
                sug@,
                *target,
                near_cost as int,
                outcome_view(*near),
                outcome_view(*far),
            ),
            r@ == (EntryView {
                action: "Roll"@,
                status: journal_status::PREVIEWED@,
                premium: Some(roll_net(*target, near_cost as int) * 100 * sug.quantity),
                note: Some(roll_preview_note(sug@, near_expiry@, *target, near_cost as int)),
                ..roll_entry(
                    sug.symbol@,
                    sug.right.spec_code(),
                    target.strike as int,
                    target.expiry@,
                    sug.quantity as int,
                    target.credit as int,
                )
            }),
    {
        let right = sug.right.code();
        let net: i64 = target.credit - near_cost;
        let size: i64 = if net < 0 {
            -net
        } else {
            net
        };
        let mut s = String::from_str("preview roll ");
        s.append(sug.symbol.as_str());
        s.append(": close ");
        push_dec(&mut s, sug.strike as i128, 1);
        s.append(right);
        s.append("@");
        push_dec(&mut s, near_cost as i128, 2);
        s.append(" [");
        let n = preview_summary(near);
        s.append(n.as_str());
        s.append("] → open ");
        push_dec(&mut s, target.strike as i128, 1);
        s.append(right);
        s.append(" ");
        s.append(target.expiry.as_str());
        s.append("@");
        push_dec(&mut s, target.credit as i128, 2);
        s.append(" [");
        let f = preview_summary(far);
        s.append(f.as_str());
        s.append("]; net ");
        s.append(
            if net >= 0 {
                "credit"
            } else {
                "debit"
            },
        );
        s.append(" $");
        push_dec(&mut s, size as i128, 2);
        s.append("/sh");
        self.status = s;
        let mut note = String::from_str("close ");
        push_dec(&mut note, sug.strike as i128, 1);
        note.append(right);
        note.append(" ");
        note.append(near_expiry);
        note.append("@");
        push_dec(&mut note, near_cost as i128, 2);
        note.append(" / open ");
        push_dec(&mut note, target.strike as i128, 1);
        note.append(right);
        note.append(" ");
        note.append(target.expiry.as_str());
        note.append("@");
        push_dec(&mut note, target.credit as i128, 2);
        note.append("; net ");
        note.append(
            if net >= 0 {
                "+"
            } else {
                "-"
            },
        );
        push_dec(&mut note, size as i128, 2);
        let mut e = roll_leg_journal(
            sug.symbol.as_str(),
            right,
            target.strike,
            target.expiry.as_str(),
            sug.quantity,
            target.credit,
        );
        e.action = own("Roll");
        e.status = own(journal_status::PREVIEWED);
        e.premium = Some(money_of(net, sug.quantity));
        e.note = Some(note);
        e
    }

    /// Whether a roll is worth transmitting: the new leg pays at least what the
    /// close costs. A net debit is refused, with the reason on the status line.
    pub fn accept_roll(&mut self, symbol: &str, target: &RollTarget, near_cost: i64) -> (r: bool)
        requires
            target.wf(),
            -5 * MAX_PRICE <= near_cost <= 5 * MAX_PRICE,
        ensures
            r == (roll_net(*target, near_cost as int) >= 0),
            *final(self) == (App { status: final(self).status, ..*old(self) }),
            r ==> final(self).status == old(self).status,
            !r ==> final(self).status@ == "roll "@ + symbol@ + ": market offers only a net debit ($"@
                + dec_text(near_cost - target.credit, 2)
                + "/sh) — not transmitted; close manually to defend"@,
    {
        if target.credit < near_cost {
            let mut s = String::from_str("roll ");
            s.append(symbol);
            s.append(": market offers only a net debit ($");
            push_dec(&mut s, (near_cost - target.credit) as i128, 2);
            s.append("/sh) — not transmitted; close manually to defend");
            self.status = s;
            false
        } else {
            true
        }
    }

    /// Notes that the new leg of a roll was refused by a what-if, before anything
    /// was closed.
    pub fn roll_not_openable(&mut self, symbol: &str, error: &str)
        ensures
            *final(self) == (App { status: final(self).status, ..*old(self) }),
            final(self).status@ == "roll "@ + symbol@ + ": new leg not openable ("@ + error@
                + ") — aborted, nothing transmitted"@,
    {
        let mut s = String::from_str("roll ");
        s.append(symbol);
        s.append(": new leg not openable (");
        s.append(error);
        s.append(") — aborted, nothing transmitted");
        self.status = s;
    }

    /// The next act in executing a roll, by what is known so far: the target contract,
    /// where one was found and priced; the price of the near leg, where it is quoted;
    /// and, once it was asked for, what the what-if of the new leg gave. What stops the
    /// roll stands on the status line. Only the close of the near leg is transmitted;
    /// the new leg waits for its fill.
    pub fn next_roll_act(
        &mut self,
        sug: &Suggestion,
        near_expiry: &str,
        target: Option<&RollTarget>,
        near_quote: Option<i64>,
        far_check: Option<&Result<OrderOutcome, String>>,
    ) -> (r: RollAct)
        requires
            sug@.wf(),
            target is Some ==> (target->0).wf(),
            near_quote is Some ==> -5 * MAX_PRICE <= near_quote->0 <= 5 * MAX_PRICE,
        ensures
            ({
                let cost = near_price(sug@, near_quote);
                let stage = roll_stage(
                    *old(self),
                    sug.symbol@,
                    held_target(target),
                    cost,
                    check_view(far_check),
                );
                &&& *final(self) == (App { status: final(self).status, ..*old(self) })
                &&& r is CheckFar <==> stage == RollStage::CheckFar
                &&& r is CloseNear <==> stage == RollStage::CloseNear
                &&& r is Stop ==> final(self).status@ == stop_status(
                    stage,
                    sug.symbol@,
                    held_target(target),
                    cost,
                    check_view(far_check),
                )
                &&& !(r is Stop) ==> final(self).status == old(self).status
                &&& r is CheckFar ==> is_leg_order(
                    r->CheckFar_0,
                    sug.symbol@,
                    sug.right,
                    (target->0).strike as int,
                    (target->0).expiry@,
                    Side::Sell,
                    sug.quantity as int,
                    (target->0).credit as int,
                )
                &&& r is CloseNear ==> is_leg_order(
                    r->CloseNear_0,
                    sug.symbol@,
                    sug.right,
                    sug.strike as int,
                    near_expiry@,
                    Side::Buy,
                    sug.quantity as int,
                    cost,
                )
            }),
    {
        if self.begin_roll(sug.symbol.as_str(), false) != RollGate::Go {
            return RollAct::Stop;
        }
        let t = match target {
            Some(t) => t,
            None => {
                self.roll_unresolved(sug.symbol.as_str(), false);
                return RollAct::Stop;
            },
        };
        let cost: i64 = near_cost_of(sug, near_quote);
        if !self.accept_roll(sug.symbol.as_str(), t, cost) {
            return RollAct::Stop;
        }
        let (near, far) = roll_orders(sug, near_expiry, t, cost);
        match far_check {
            None => RollAct::CheckFar(far),
            Some(Ok(_)) => RollAct::CloseNear(near),
            Some(Err(e)) => {
                self.roll_not_openable(sug.symbol.as_str(), e.as_str());
                RollAct::Stop
            },
        }
    }

    /// Takes over the outcome of a roll's close leg. Once it is submitted the app
    /// disarms and the roll is pending; the open leg waits for the fill. The rows
    /// to store: the pending roll first, then the journal entry.
    pub fn finish_roll_close(
        &mut self,
        sug: &Suggestion,
        near_expiry: &str,
        target: &RollTarget,
        near_cost: i64,
        outcome: &Result<OrderOutcome, String>,
    ) -> (r: (Option<PendingRollRow>, Option<NewJournalEntry>))
        ensures
            outcome_view(*outcome) is Submitted ==> {
                let id = outcome_view(*outcome)->Submitted_0;
                &&& *final(self) == (App {
                    status: final(self).status,
                    armed: false,
                    pending_rolls: final(self).pending_rolls,
                    ..*old(self)
                })
                &&& final(self).pending_rolls@.len() == old(self).pending_rolls@.len() + 1
                &&& final(self).pending_rolls@.drop_last() == old(self).pending_rolls@
                &&& is_pending(final(self).pending_rolls@.last(), sug@, near_expiry@, *target, id)
                &&& r.0 is Some
                &&& (r.0->0).close_oid@ == id
                &&& (r.0->0).symbol@ == sug.symbol@
                &&& (r.0->0).right@ == sug.right.spec_code()
                &&& (r.0->0).near_strike == sug.strike
                &&& (r.0->0).near_expiry@ == near_expiry@
                &&& (r.0->0).to_strike == target.strike
                &&& (r.0->0).to_expiry@ == target.expiry@
                &&& (r.0->0).quantity == sug.quantity
                &&& (r.0->0).far_limit == target.credit
                &&& (r.0->0).created_at@ == ""@
                &&& r.1 is Some
                &&& (r.1->0)@ == (EntryView {
                    action: "RollClose"@,
                    status: journal_status::SUBMITTED@,
                    ibkr_order_id: Some(id),
                    ..roll_entry(
                        sug.symbol@,
                        sug.right.spec_code(),
                        sug.strike as int,
                        near_expiry@,
                        sug.quantity as int,
                        near_cost as int,
                    )
                })
                &&& final(self).status@ == "roll "@ + sug.symbol@ + ": closing near leg (id "@ + id
                    + "); opening "@ + dec_text(target.strike as int, 1) + sug.right.spec_code()
                    + " "@ + target.expiry@ + "@"@ + dec_text(target.credit as int, 2)
                    + " once it fills"@
            },
            outcome_view(*outcome) is Preview ==> {
                &&& *final(self) == (App { status: final(self).status, ..*old(self) })
                &&& final(self).status@ == "roll: execute unexpectedly returned a preview"@
                &&& r.0 is None
                &&& r.1 is None
            },
            outcome_view(*outcome) is Failed ==> {
                let e = outcome_view(*outcome)->Failed_0;
                &&& *final(self) == (App { status: final(self).status, ..*old(self) })
                &&& final(self).status@ == "roll aborted: couldn't close "@ + sug.symbol@
                    + " near leg: "@ + e
                &&& r.0 is None
                &&& r.1 is Some
                &&& (r.1->0)@ == (EntryView {
                    action: "RollClose"@,
                    status: journal_status::REJECTED@,
                    note: Some(e),
                    ..roll_entry(
                        sug.symbol@,
                        sug.right.spec_code(),
                        sug.strike as int,
                        near_expiry@,
                        sug.quantity as int,
                        sug.limit_price as int,
                    )
                })
            },
    {
        let right = sug.right.code();
        match outcome {
            Ok(OrderOutcome::Submitted(id)) => {
                self.armed = false;
                let pending = PendingRoll {
                    symbol: own(sug.symbol.as_str()),
                    right: sug.right,
                    near_strike: sug.strike,
                    near_expiry: own(near_expiry),
                    to_strike: target.strike,
                    to_expiry: own(target.expiry.as_str()),
                    quantity: sug.quantity,
                    far_limit: target.credit,
                    close_oid: own(id.as_str()),
                    reconstructed: false,
                };
                let row = pending.to_row();
                self.pending_rolls.push(pending);
                assert(self.pending_rolls@.drop_last() =~= old(self).pending_rolls@);
                let mut e = roll_leg_journal(
                    sug.symbol.as_str(),
                    right,
                    sug.strike,
                    near_expiry,
                    sug.quantity,
                    near_cost,
                );
                e.action = own("RollClose");
                e.status = own(journal_status::SUBMITTED);
                e.ibkr_order_id = Some(own(id.as_str()));
                let mut s = String::from_str("roll ");
                s.append(sug.symbol.as_str());
                s.append(": closing near leg (id ");
                s.append(id.as_str());
                s.append("); opening ");
                push_dec(&mut s, target.strike as i128, 1);
                s.append(right);
                s.append(" ");
                s.append(target.expiry.as_str());
                s.append("@");
                push_dec(&mut s, target.credit as i128, 2);
                s.append(" once it fills");
                self.status = s;
                (Some(row), Some(e))
            },
            Ok(OrderOutcome::Preview(_)) => {
                self.status = own("roll: execute unexpectedly returned a preview");
                (None, None)
            },
            Err(x) => {
                let mut e = roll_leg_journal(
                    sug.symbol.as_str(),
                    right,
                    sug.strike,
                    near_expiry,
                    sug.quantity,
                    sug.limit_price,
                );
                e.action = own("RollClose");
                e.status = own(journal_status::REJECTED);
                e.note = Some(own(x.as_str()));
                let mut s = String::from_str("roll aborted: couldn't close ");
                s.append(sug.symbol.as_str());
                s.append(" near leg: ");
                s.append(x.as_str());
                self.status = s;
                (None, Some(e))
            },
        }
    }
}

/// Whether `p` is the pending roll of a suggestion whose close has the given id.
pub open spec fn is_pending(
    p: PendingRoll,
    s: SuggestionView,
    near_expiry: Seq<char>,
    target: RollTarget,
    id: Seq<char>,
) -> bool {
    &&& p.symbol@ == s.symbol
    &&& p.right == s.right
    &&& p.near_strike == s.strike
    &&& p.near_expiry@ == near_expiry
    &&& p.to_strike == target.strike
    &&& p.to_expiry@ == target.expiry@
    &&& p.quantity == s.quantity
    &&& p.far_limit == target.credit
    &&& p.close_oid@ == id
    &&& !p.reconstructed
}

// --- the open leg ----------------------------------------------------------

/// Why the open leg of a roll is held back, if anything does.
#[derive(Debug, Clone, Copy, PartialEq, Eq, Structural)]
pub enum OpenGate {
    Offline,
    ReadOnly,
    TooManyContracts,
    Go,
}

/// The guardrails at the open leg of a roll.
pub open spec fn open_gate(app: App, p: PendingRoll) -> OpenGate {
    if !app.connected {
        OpenGate::Offline
    } else if app.cfg.guardrails.read_only {
        OpenGate::ReadOnly
    } else if p.quantity > app.cfg.guardrails.max_contracts_per_order {
        OpenGate::TooManyContracts
    } else {
        OpenGate::Go
    }
}

/// What is said of a roll whose open leg is held back; the stored roll stays, so
/// that it is tried again.
pub open spec fn held_back_text(app: App, p: PendingRoll) -> Seq<char> {
    "roll "@ + p.symbol@ + match open_gate(app, p) {
        OpenGate::Offline => ": not connected — new leg not opened"@,
        OpenGate::ReadOnly => ": read_only — new leg not opened (kept pending for retry)"@,
        OpenGate::TooManyContracts => ": qty "@ + int_text(p.quantity as int)
            + " over max_contracts_per_order — new leg not opened (kept pending)"@,
        OpenGate::Go => ""@,
    }
}

/// What follows the outcome of a roll's open leg.
#[derive(Debug, Clone)]
pub struct OpenOutcome {
    pub status: String,
    /// Whether the stored roll is to be removed.
    pub remove: bool,
    pub entry: Option<NewJournalEntry>,
}

impl App {
    /// The order of a roll's open leg, or why it is held back.
    pub fn open_rolled_leg(&self, p: &PendingRoll) -> (r: Result<OptionOrder, String>)
        ensures
            r is Ok <==> open_gate(*self, *p) == OpenGate::Go,
            r is Ok ==> is_leg_order(
                r->Ok_0,
                p.symbol@,
                p.right,
                p.to_strike as int,
                p.to_expiry@,
                Side::Sell,
                p.quantity as int,
                p.far_limit as int,
            ),
            r is Err ==> (r->Err_0)@ == held_back_text(*self, *p),
    {
        let mut s = String::from_str("roll ");
        s.append(p.symbol.as_str());
        if !self.connected {
            s.append(": not connected — new leg not opened");
            return Err(s);
        }
        if self.cfg.guardrails.read_only {
            s.append(": read_only — new leg not opened (kept pending for retry)");
            return Err(s);
        }
        if p.quantity > self.cfg.guardrails.max_contracts_per_order {
            let mut t = String::from_str(": qty ");
            push_int(&mut t, p.quantity as i128);
            t.append(" over max_contracts_per_order — new leg not opened (kept pending)");
            s.append(t.as_str());
            return Err(s);
        }
        Ok(
            OptionOrder {
                symbol: own(p.symbol.as_str()),
                expiry_yyyymmdd: own(p.to_expiry.as_str()),
                strike: p.to_strike,
                right: own(p.right.code()),
                side: Side::Sell,
                quantity: p.quantity,
                limit: p.far_limit,
            },
        )
    }
}

/// The journal entry of a roll's open leg, before its status is set.
pub open spec fn open_entry(p: PendingRoll) -> EntryView {
    EntryView {
        action: "RollOpen"@,
        ..roll_entry(
            p.symbol@,
            p.right.spec_code(),
            p.to_strike as int,
            p.to_expiry@,
            p.quantity as int,
            p.far_limit as int,
        )
    }
}

/// What follows the outcome of a roll's open leg: the stored roll is removed only
/// once the open was submitted, so that a refused open is tried again.
pub fn finish_roll_open(p: &PendingRoll, outcome: &Result<OrderOutcome, String>) -> (r: OpenOutcome)
    ensures
        r.remove <==> outcome_view(*outcome) is Submitted,
        match outcome_view(*outcome) {
            OutcomeView::Submitted(id) => {
                &&& r.status@ == "rolled "@ + p.symbol@ + ": close filled, opened "@ + dec_text(
                    p.to_strike as int,
                    1,
                ) + p.right.spec_code() + " "@ + p.to_expiry@ + "→"@ + id
                &&& r.entry is Some
                &&& (r.entry->0)@ == (EntryView {
                    status: journal_status::SUBMITTED@,
                    ibkr_order_id: Some(id),
                    ..open_entry(*p)
                })
            },
            OutcomeView::Preview { .. } => {
                &&& r.status@ == "roll "@ + p.symbol@
                    + ": open leg unexpectedly returned a preview"@
                &&& r.entry is None
            },
            OutcomeView::Failed(e) => {
                &&& r.status@ == "roll "@ + p.symbol@
                    + ": close filled but FAILED to open new leg — now FLAT, will retry: "@ + e
                &&& r.entry is Some
                &&& (r.entry->0)@ == (EntryView {
                    status: journal_status::REJECTED@,
                    note: Some(e),
                    ..open_entry(*p)
                })
            },
        },
{
    let mut entry = roll_leg_journal(
        p.symbol.as_str(),
        p.right.code(),
        p.to_strike,
        p.to_expiry.as_str(),
        p.quantity,
        p.far_limit,
    );
    entry.action = own("RollOpen");
    match outcome {
        Ok(OrderOutcome::Submitted(id)) => {
            entry.status = own(journal_status::SUBMITTED);
            entry.ibkr_order_id = Some(own(id.as_str()));
            let mut s = String::from_str("rolled ");
            s.append(p.symbol.as_str());
            s.append(": close filled, opened ");
            push_dec(&mut s, p.to_strike as i128, 1);
            s.append(p.right.code());
            s.append(" ");
            s.append(p.to_expiry.as_str());
            s.append("→");
            s.append(id.as_str());
            OpenOutcome { status: s, remove: true, entry: Some(entry) }
        },
        Ok(OrderOutcome::Preview(_)) => {
            let mut s = String::from_str("roll ");
            s.append(p.symbol.as_str());
            s.append(": open leg unexpectedly returned a preview");
            OpenOutcome { status: s, remove: false, entry: None }
        },
        Err(e) => {
            entry.status = own(journal_status::REJECTED);
            entry.note = Some(own(e.as_str()));
            let mut s = String::from_str("roll ");
            s.append(p.symbol.as_str());
            s.append(": close filled but FAILED to open new leg — now FLAT, will retry: ");
            s.append(e.as_str());
            OpenOutcome { status: s, remove: false, entry: Some(entry) }
        },
    }
}

/// The open leg of a roll is never transmitted in read-only mode, offline, or
/// above the contract limit.
pub proof fn law_open_leg_guarded(app: App, p: PendingRoll)
    requires
        open_gate(app, p) == OpenGate::Go,
    ensures
        app.connected,
        !app.cfg.guardrails.read_only,
        p.quantity <= app.cfg.guardrails.max_contracts_per_order,
{
}

// --- after a restart -------------------------------------------------------

/// Whether one of the open orders has the given id.
pub open spec fn is_open_order(open: Seq<OpenOrderInfo>, id: Seq<char>) -> bool {
    exists|i: int| 0 <= i < open.len() && (#[trigger] open[i]).order_id@ == id
}

/// Whether an open order has the given id.
pub fn order_is_open(open: &Vec<OpenOrderInfo>, id: &str) -> (r: bool)
    ensures
        r == is_open_order(open@, id@),
{
    let mut i: usize = 0;
    while i < open.len()
        invariant
            i <= open@.len(),
            forall|k: int| 0 <= k < i ==> (#[trigger] open@[k]).order_id@ != id@,
        decreases open@.len() - i,
    {
        if same_text(open[i].order_id.as_str(), id) {
            assert(open@[i as int].order_id@ == id@);
            return true;
        }
        i = i + 1;
    }
    false
}

/// Whether the close of a roll ended while nobody watched: a roll of a prior
/// session whose close is no longer open.
pub open spec fn ended_unseen(p: PendingRoll, open: Seq<OpenOrderInfo>) -> bool {
    p.reconstructed && !is_open_order(open, p.close_oid@)
}

/// The rolls of a list that ended unseen, or the others.
pub open spec fn parted(
    rolls: Seq<PendingRoll>,
    open: Seq<OpenOrderInfo>,
    ended: bool,
) -> Seq<PendingRoll>
    decreases rolls.len(),
{
    if rolls.len() == 0 {
        rolls
    } else if ended_unseen(rolls.last(), open) == ended {
        parted(rolls.drop_last(), open, ended).push(rolls.last())
    } else {
        parted(rolls.drop_last(), open, ended)
    }
}

/// What a roll stands for.
pub open spec fn roll_views(v: Seq<PendingRoll>) -> Seq<RollView> {
    v.map_values(|p: PendingRoll| p@)
}

/// What a [`PendingRoll`] says.
pub struct RollView {
    pub symbol: Seq<char>,
    pub right: Right,
    pub near_strike: int,
    pub near_expiry: Seq<char>,
    pub to_strike: int,
    pub to_expiry: Seq<char>,
    pub quantity: int,
    pub far_limit: int,
    pub close_oid: Seq<char>,
    pub reconstructed: bool,
}

impl View for PendingRoll {
    type V = RollView;

    open spec fn view(&self) -> RollView {
        RollView {
            symbol: self.symbol@,
            right: self.right,
            near_strike: self.near_strike as int,
            near_expiry: self.near_expiry@,
            to_strike: self.to_strike as int,
            to_expiry: self.to_expiry@,
            quantity: self.quantity as int,
            far_limit: self.far_limit as int,
            close_oid: self.close_oid@,
            reconstructed: self.reconstructed,
        }
    }
}

impl PendingRoll {
    /// The same roll, held anew.
    pub fn copied(&self) -> (r: PendingRoll)
        ensures
            r@ == self@,
    {
        PendingRoll {
            symbol: own(self.symbol.as_str()),
            right: self.right,
            near_strike: self.near_strike,
            near_expiry: own(self.near_expiry.as_str()),
            to_strike: self.to_strike,
            to_expiry: own(self.to_expiry.as_str()),
            quantity: self.quantity,
            far_limit: self.far_limit,
            close_oid: own(self.close_oid.as_str()),
            reconstructed: self.reconstructed,
        }
    }
}

/// What becomes of a roll that ended unseen.
#[derive(Debug, Clone, Copy, PartialEq, Eq, Structural)]
pub enum RollFate {
    /// The short is still held: the close did not fill. Drop the roll; the short
    /// is managed as before.
    Abandon,
    /// The short is gone: the close filled. Send the open leg.
    Complete,
}

impl RollFate {
    /// What the journal is told of the close: its end, and a note.
    pub fn journal(self) -> (r: (&'static str, &'static str))
        ensures
            self == RollFate::Abandon ==> r.0@ == journal_status::CANCELLED@ && r.1@
                == "roll close didn't fill (resolved offline); short still open"@,
            self == RollFate::Complete ==> r.0@ == journal_status::FILLED@ && r.1@
                == "close filled while offline"@,
    {
        match self {
            RollFate::Abandon => (
                journal_status::CANCELLED,
                "roll close didn't fill (resolved offline); short still open",
            ),
            RollFate::Complete => (journal_status::FILLED, "close filled while offline"),
        }
    }
}

/// What becomes of a roll that ended unseen, by whether the near short is held.
pub open spec fn roll_fate(p: PendingRoll, positions: Seq<PositionRow>) -> RollFate {
    if exists|i: int|
        0 <= i < positions.len() && holds_short(
            #[trigger] positions[i],
            p.symbol@,
            p.right.spec_code(),
            p.near_strike as int,
            p.near_expiry@,
        ) {
        RollFate::Abandon
    } else {
        RollFate::Complete
    }
}

/// What becomes of a roll whose close ended while nobody watched.
pub fn fate_of(p: &PendingRoll, positions: &[PositionRow]) -> (r: RollFate)
    ensures
        r == roll_fate(*p, positions@),
{
    if position_has_short(
        positions,
        p.symbol.as_str(),
        p.right.code(),
        p.near_strike,
        p.near_expiry.as_str(),
    ) {
        RollFate::Abandon
    } else {
        RollFate::Complete
    }
}

impl App {
    /// Takes out the rolls of a prior session whose close is no longer open; the
    /// others stay, those of this session in any case.
    pub fn take_ended_rolls(&mut self, open: &Vec<OpenOrderInfo>) -> (r: Vec<PendingRoll>)
        ensures
            roll_views(r@) == roll_views(parted(old(self).pending_rolls@, open@, true)),
            roll_views(final(self).pending_rolls@) == roll_views(
                parted(old(self).pending_rolls@, open@, false),
            ),
            *final(self) == (App { pending_rolls: final(self).pending_rolls, ..*old(self) }),
    {
        let mut ended: Vec<PendingRoll> = Vec::new();
        let mut kept: Vec<PendingRoll> = Vec::new();
        let ghost all = self.pending_rolls@;
        let mut i: usize = 0;
        assert(all.take(0) =~= Seq::empty());
        assert(roll_views(ended@) =~= roll_views(parted(all.take(0), open@, true)));
        assert(roll_views(kept@) =~= roll_views(parted(all.take(0), open@, false)));
        while i < self.pending_rolls.len()
            invariant
                i <= all.len(),
                all == self.pending_rolls@,
                *self == *old(self),
                roll_views(ended@) == roll_views(parted(all.take(i as int), open@, true)),
                roll_views(kept@) == roll_views(parted(all.take(i as int), open@, false)),
            decreases all.len() - i,
        {
            let p = &self.pending_rolls[i];
            assert(all.take(i + 1).drop_last() =~= all.take(i as int));
            let ghost (e0, k0) = (roll_views(ended@), roll_views(kept@));
            if p.reconstructed && !order_is_open(open, p.close_oid.as_str()) {
                ended.push(p.copied());
                assert(roll_views(ended@) =~= e0.push(all[i as int]@));
                assert(roll_views(parted(all.take(i + 1), open@, true)) =~= e0.push(
                    all[i as int]@,
                ));
            } else {
                kept.push(p.copied());
                assert(roll_views(kept@) =~= k0.push(all[i as int]@));
                assert(roll_views(parted(all.take(i + 1), open@, false)) =~= k0.push(
                    all[i as int]@,
                ));
            }
            i = i + 1;
        }
        assert(all.take(i as int) =~= all);
        self.pending_rolls = kept;
        ended
    }

    /// Notes that the close of a roll did not fill while offline.
    pub fn roll_abandoned(&mut self, symbol: &str)
        ensures
            *final(self) == (App { status: final(self).status, ..*old(self) }),
            final(self).status@ == "roll "@ + symbol@
                + ": close didn't fill while offline — short still open"@,
    {
        let mut s = String::from_str("roll ");
        s.append(symbol);
        s.append(": close didn't fill while offline — short still open");
        self.status = s;
    }
}

/// A roll of this session is never taken for one that ended unseen: it is left to
/// the order events.
pub proof fn law_session_rolls_kept(rolls: Seq<PendingRoll>, open: Seq<OpenOrderInfo>, i: int)
    requires
        0 <= i < parted(rolls, open, true).len(),
    ensures
        parted(rolls, open, true)[i].reconstructed,
        !is_open_order(open, parted(rolls, open, true)[i].close_oid@),
    decreases rolls.len(),
{
    if rolls.len() > 0 {
        let rest = parted(rolls.drop_last(), open, true);
        if i < rest.len() {
            law_session_rolls_kept(rolls.drop_last(), open, i);
        }
    }
}

} // verus!

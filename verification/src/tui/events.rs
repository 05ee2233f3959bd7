//! What an order event from the broker leads to.

use vstd::prelude::*;
use vstd::string::*;
use crate::fixed::{dec_text, int_string, int_text, push_dec};
use crate::store::journal_status;
use crate::store::models::ZeroDtePositionRow;
use crate::store::zerodte_status;
use crate::text::{opt_text, same_text};
use crate::tui::app::App;
use crate::tui::rolls::PendingRoll;

verus! {

// --- the order's end -------------------------------------------------------

/// How an order ended.
#[derive(Debug, Clone, Copy, PartialEq, Eq, Structural)]
pub enum OrderEnd {
    Filled,
    Cancelled,
    Rejected,
}

impl OrderEnd {
    /// The journal's word for it.
    pub open spec fn word(self) -> Seq<char> {
        match self {
            OrderEnd::Filled => journal_status::FILLED@,
            OrderEnd::Cancelled => journal_status::CANCELLED@,
            OrderEnd::Rejected => journal_status::REJECTED@,
        }
    }

    /// The journal's word for it.
    pub fn text(self) -> (r: &'static str)
        ensures
            r@ == self.word(),
    {
        match self {
            OrderEnd::Filled => journal_status::FILLED,
            OrderEnd::Cancelled => journal_status::CANCELLED,
            OrderEnd::Rejected => journal_status::REJECTED,
        }
    }
}

/// How an order ended by the broker's status text; `None` while it is working.
pub open spec fn end_of(status: Seq<char>) -> Option<OrderEnd> {
    if status == "Filled"@ {
        Some(OrderEnd::Filled)
    } else if status == "Cancelled"@ || status == "ApiCancelled"@ {
        Some(OrderEnd::Cancelled)
    } else if status == "Inactive"@ {
        Some(OrderEnd::Rejected)
    } else {
        None
    }
}

/// How an order ended by the broker's status text.
pub fn order_end(status: &str) -> (r: Option<OrderEnd>)
    ensures
        r == end_of(status@),
{
    if same_text(status, "Filled") {
        Some(OrderEnd::Filled)
    } else if same_text(status, "Cancelled") || same_text(status, "ApiCancelled") {
        Some(OrderEnd::Cancelled)
    } else if same_text(status, "Inactive") {
        Some(OrderEnd::Rejected)
    } else {
        None
    }
}

/// The journal's word for the broker's order status, or `None` for a working
/// state that changes nothing in the journal.
pub fn journal_status_for(ibkr_status: &str) -> (r: Option<&'static str>)
    ensures
        r is Some <==> end_of(ibkr_status@) is Some,
        r is Some ==> (r->0)@ == (end_of(ibkr_status@)->0).word(),
{
    match order_end(ibkr_status) {
        Some(e) => Some(e.text()),
        None => None,
    }
}

/// What the journal is told of a status event.
#[derive(Debug, Clone)]
pub struct JournalStep {
    /// The order's id as text.
    pub oid: String,
    /// How the order ended. `None`: only ask whether the journal knows the order.
    pub end: Option<OrderEnd>,
    /// The note of a fill.
    pub note: Option<String>,
}

/// The note of a fill.
pub open spec fn fill_note(filled: int, price: int) -> Seq<char> {
    "filled "@ + dec_text(filled, 0) + " @ "@ + dec_text(price, 2)
}

/// What the journal is told of a status event: the end of the order, with the
/// fill as a note.
pub fn journal_step(order_id: i32, status: &str, filled: i64, avg_fill_price: i64) -> (r: JournalStep)
    ensures
        r.oid@ == int_text(order_id as int),
        r.end == end_of(status@),
        opt_text(r.note) == (if r.end == Some(OrderEnd::Filled) {
            Some(fill_note(filled as int, avg_fill_price as int))
        } else {
            None
        }),
{
    let end = order_end(status);
    let note = match end {
        Some(OrderEnd::Filled) => {
            let mut s = String::from_str("filled ");
            push_dec(&mut s, filled as i128, 0);
            s.append(" @ ");
            push_dec(&mut s, avg_fill_price as i128, 2);
            Some(s)
        },
        _ => None,
    };
    JournalStep { oid: int_string(order_id as i128), end, note }
}

// --- pending rolls ---------------------------------------------------------

/// Whether a roll waits for the order: its close has the id, and, for a roll of a
/// prior session (whose ids may have been used again), the journal knows it too.
pub open spec fn waits_for(p: PendingRoll, oid: Seq<char>, is_ours: bool) -> bool {
    p.close_oid@ == oid && (is_ours || !p.reconstructed)
}

/// Whether the `i`-th roll is the first that waits for the order.
pub open spec fn first_waiting(
    rolls: Seq<PendingRoll>,
    oid: Seq<char>,
    is_ours: bool,
    i: int,
) -> bool {
    &&& 0 <= i < rolls.len()
    &&& waits_for(rolls[i], oid, is_ours)
    &&& forall|j: int| 0 <= j < i ==> !waits_for(#[trigger] rolls[j], oid, is_ours)
}

/// Whether some roll waits for the order.
pub open spec fn any_waiting(rolls: Seq<PendingRoll>, oid: Seq<char>, is_ours: bool) -> bool {
    exists|i: int| first_waiting(rolls, oid, is_ours, i)
}

/// What a status event means for the pending rolls.
#[derive(Debug, Clone)]
pub enum RollStep {
    /// Neither the journal nor a roll knows the order: it was placed elsewhere.
    Foreign,
    /// No roll changes.
    Nothing,
    /// The close has filled: send the open leg.
    Open(PendingRoll),
    /// The close ended without a full fill: the roll is dropped, also from the
    /// store.
    Dropped { close_oid: String, status: String },
}

/// What is said of a roll whose close was cancelled or rejected.
pub open spec fn dropped_text(symbol: Seq<char>, end: OrderEnd, filled: int) -> Seq<char> {
    "roll "@ + symbol + ": close "@ + end.word() + (if filled > 0 {
        " after partial fill ("@ + dec_text(filled, 0) + " closed); residual short re-managed"@
    } else {
        "; new leg not opened (original short unchanged)"@
    })
}

impl App {
    fn find_waiting(&self, oid: &str, is_ours: bool) -> (r: Option<usize>)
        ensures
            r is Some <==> any_waiting(self.pending_rolls@, oid@, is_ours),
            r is Some ==> first_waiting(self.pending_rolls@, oid@, is_ours, r->0 as int),
    {
        let mut i: usize = 0;
        while i < self.pending_rolls.len()
            invariant
                i <= self.pending_rolls@.len(),
                forall|j: int|
                    0 <= j < i ==> !waits_for(#[trigger] self.pending_rolls@[j], oid@, is_ours),
            decreases self.pending_rolls@.len() - i,
        {
            let p = &self.pending_rolls[i];
            if same_text(p.close_oid.as_str(), oid) && (is_ours || !p.reconstructed) {
                assert(first_waiting(self.pending_rolls@, oid@, is_ours, i as int));
                return Some(i);
            }
            i = i + 1;
        }
        assert forall|k: int| !first_waiting(self.pending_rolls@, oid@, is_ours, k) by {
            if 0 <= k < self.pending_rolls@.len() {
                assert(!waits_for(self.pending_rolls@[k], oid@, is_ours));
            }
        }
        None
    }

    /// What a status event means for the pending rolls. The open leg is only sent
    /// once the close has filled in full; a close that is still working leaves
    /// the roll pending.
    pub fn roll_step(&mut self, oid: &str, is_ours: bool, end: Option<OrderEnd>, filled: i64) -> (r:
        RollStep)
        ensures
            r is Open ==> end == Some(OrderEnd::Filled) && any_waiting(
                old(self).pending_rolls@,
                oid@,
                is_ours,
            ),
            r is Foreign <==> !is_ours && !any_waiting(old(self).pending_rolls@, oid@, is_ours),
            !any_waiting(old(self).pending_rolls@, oid@, is_ours) || end is None ==> *final(self)
                == *old(self) && (r is Foreign || r is Nothing),
            any_waiting(old(self).pending_rolls@, oid@, is_ours) && end is Some ==> exists|i: int|
                {
                    &&& #[trigger] first_waiting(old(self).pending_rolls@, oid@, is_ours, i)
                    &&& final(self).pending_rolls@ == old(self).pending_rolls@.remove(i)
                    &&& *final(self) == (App {
                        pending_rolls: final(self).pending_rolls,
                        ..*old(self)
                    })
                    &&& end == Some(OrderEnd::Filled) ==> r is Open && r->Open_0 == old(
                        self,
                    ).pending_rolls@[i]
                    &&& end != Some(OrderEnd::Filled) ==> r is Dropped && r->close_oid@ == oid@
                        && r->status@ == dropped_text(
                        old(self).pending_rolls@[i].symbol@,
                        end->0,
                        filled as int,
                    )
                },
    {
        match self.find_waiting(oid, is_ours) {
            None => if is_ours {
                RollStep::Nothing
            } else {
                RollStep::Foreign
            },
            Some(i) => match end {
                None => RollStep::Nothing,
                Some(OrderEnd::Filled) => {
                    let p = self.pending_rolls.remove(i);
                    RollStep::Open(p)
                },
                Some(e) => {
                    let p = self.pending_rolls.remove(i);
                    let mut s = String::from_str("roll ");
                    s.append(p.symbol.as_str());
                    s.append(": close ");
                    s.append(e.text());
                    if filled > 0 {
                        let mut t = String::from_str(" after partial fill (");
                        push_dec(&mut t, filled as i128, 0);
                        t.append(" closed); residual short re-managed");
                        s.append(t.as_str());
                    } else {
                        s.append("; new leg not opened (original short unchanged)");
                    }
                    RollStep::Dropped { close_oid: p.close_oid, status: s }
                },
            },
        }
    }
}

// --- automated positions ---------------------------------------------------

/// What a status event means for the automated positions.
#[derive(Debug, Clone, Copy, PartialEq, Eq, Structural)]
pub enum ZerodteStep {
    Nothing,
    /// The entry filled: place the profit-close of the position at this index.
    PlaceClose(usize),
    /// The entry ended without a fill.
    EntryEnded(usize, OrderEnd),
    /// The close filled.
    Closed(usize),
}

/// Whether the `i`-th position is the first whose pending entry has the id.
pub open spec fn is_entry_at(positions: Seq<ZeroDtePositionRow>, oid: Seq<char>, i: int) -> bool {
    &&& 0 <= i < positions.len()
    &&& entry_matches(positions[i], oid)
    &&& forall|j: int| 0 <= j < i ==> !entry_matches(#[trigger] positions[j], oid)
}

/// Whether a position's pending entry has the id.
pub open spec fn entry_matches(p: ZeroDtePositionRow, oid: Seq<char>) -> bool {
    p.entry_oid@ == oid && p.status@ == zerodte_status::PENDING@
}

/// Whether a position's close has the id.
pub open spec fn close_matches(p: ZeroDtePositionRow, oid: Seq<char>) -> bool {
    opt_text(p.close_oid) == Some(oid)
}

/// Whether the `i`-th position is the first whose close has the id.
pub open spec fn is_close_at(positions: Seq<ZeroDtePositionRow>, oid: Seq<char>, i: int) -> bool {
    &&& 0 <= i < positions.len()
    &&& close_matches(positions[i], oid)
    &&& forall|j: int| 0 <= j < i ==> !close_matches(#[trigger] positions[j], oid)
}

/// Whether `r` is what a status event means for the automated positions. A filled
/// entry gets its profit-close (nothing happens offline); a cancelled or rejected
/// one ends; a filled close ends the position.
pub open spec fn is_zerodte_step(
    positions: Seq<ZeroDtePositionRow>,
    connected: bool,
    oid: Seq<char>,
    end: Option<OrderEnd>,
    r: ZerodteStep,
) -> bool {
    if end is None {
        r == ZerodteStep::Nothing
    } else if exists|i: int| is_entry_at(positions, oid, i) {
        if end == Some(OrderEnd::Filled) {
            if connected {
                r is PlaceClose && is_entry_at(positions, oid, r->PlaceClose_0 as int)
            } else {
                r == ZerodteStep::Nothing
            }
        } else {
            r is EntryEnded && is_entry_at(positions, oid, r->EntryEnded_0 as int)
                && r->EntryEnded_1 == end->0
        }
    } else if end == Some(OrderEnd::Filled) && (exists|i: int| is_close_at(positions, oid, i)) {
        r is Closed && is_close_at(positions, oid, r->Closed_0 as int)
    } else {
        r == ZerodteStep::Nothing
    }
}

fn find_entry(positions: &Vec<ZeroDtePositionRow>, oid: &str) -> (r: Option<usize>)
    ensures
        r is Some ==> is_entry_at(positions@, oid@, r->0 as int),
        r is None ==> forall|i: int| !is_entry_at(positions@, oid@, i),
{
    let mut i: usize = 0;
    while i < positions.len()
        invariant
            i <= positions@.len(),
            forall|j: int| 0 <= j < i ==> !entry_matches(#[trigger] positions@[j], oid@),
        decreases positions@.len() - i,
    {
        if same_text(positions[i].entry_oid.as_str(), oid) && same_text(
            positions[i].status.as_str(),
            zerodte_status::PENDING,
        ) {
            return Some(i);
        }
        i = i + 1;
    }
    assert forall|k: int| !is_entry_at(positions@, oid@, k) by {
        if 0 <= k < positions@.len() {
            assert(!entry_matches(positions@[k], oid@));
        }
    }
    None
}

fn find_close(positions: &Vec<ZeroDtePositionRow>, oid: &str) -> (r: Option<usize>)
    ensures
        r is Some ==> is_close_at(positions@, oid@, r->0 as int),
        r is None ==> forall|i: int| !is_close_at(positions@, oid@, i),
{
    let mut i: usize = 0;
    while i < positions.len()
        invariant
            i <= positions@.len(),
            forall|j: int| 0 <= j < i ==> !close_matches(#[trigger] positions@[j], oid@),
        decreases positions@.len() - i,
    {
        let matched = match &positions[i].close_oid {
            Some(c) => same_text(c.as_str(), oid),
            None => false,
        };
        if matched {
            return Some(i);
        }
        i = i + 1;
    }
    assert forall|k: int| !is_close_at(positions@, oid@, k) by {
        if 0 <= k < positions@.len() {
            assert(!close_matches(positions@[k], oid@));
        }
    }
    None
}

/// What a status event means for the automated positions.
pub fn zerodte_step(
    positions: &Vec<ZeroDtePositionRow>,
    connected: bool,
    oid: &str,
    end: Option<OrderEnd>,
) -> (r: ZerodteStep)
    ensures
        is_zerodte_step(positions@, connected, oid@, end, r),
{
    let e = match end {
        Some(e) => e,
        None => {
            return ZerodteStep::Nothing;
        },
    };
    match find_entry(positions, oid) {
        Some(i) => {
            assert(is_entry_at(positions@, oid@, i as int));
            return match e {
                OrderEnd::Filled => if connected {
                    ZerodteStep::PlaceClose(i)
                } else {
                    ZerodteStep::Nothing
                },
                _ => ZerodteStep::EntryEnded(i, e),
            };
        },
        None => {},
    }
    match e {
        OrderEnd::Filled => match find_close(positions, oid) {
            Some(i) => {
                assert(is_close_at(positions@, oid@, i as int));
                ZerodteStep::Closed(i)
            },
            None => ZerodteStep::Nothing,
        },
        _ => ZerodteStep::Nothing,
    }
}

/// What is said of an automated position after an event. `placed` is the outcome
/// of placing the profit-close.
pub open spec fn zerodte_words(
    positions: Seq<ZeroDtePositionRow>,
    step: ZerodteStep,
    placed: Result<String, String>,
) -> Option<Seq<char>> {
    match step {
        ZerodteStep::Nothing => None,
        ZerodteStep::PlaceClose(i) => Some(
            match placed {
                Ok(_) => "⚡ "@ + positions[i as int].strategy@ + " filled → profit-close placed"@,
                Err(e) => "⚡ "@ + positions[i as int].strategy@
                    + " filled, profit-close failed: "@ + e@,
            },
        ),
        ZerodteStep::EntryEnded(i, e) => Some(
            "⚡ "@ + positions[i as int].strategy@ + " entry "@ + e.word(),
        ),
        ZerodteStep::Closed(i) => Some(
            "⚡ "@ + positions[i as int].strategy@ + " profit-closed"@,
        ),
    }
}

/// What is said of an automated position after an event.
pub fn zerodte_text(
    positions: &Vec<ZeroDtePositionRow>,
    step: ZerodteStep,
    placed: &Result<String, String>,
) -> (r: Option<String>)
    requires
        match step {
            ZerodteStep::Nothing => true,
            ZerodteStep::PlaceClose(i) => i < positions@.len(),
            ZerodteStep::EntryEnded(i, _) => i < positions@.len(),
            ZerodteStep::Closed(i) => i < positions@.len(),
        },
    ensures
        opt_text(r) == zerodte_words(positions@, step, *placed),
{
    let mut s = String::from_str("⚡ ");
    match step {
        ZerodteStep::Nothing => None,
        ZerodteStep::PlaceClose(i) => {
            s.append(positions[i].strategy.as_str());
            match placed {
                Ok(_) => {
                    s.append(" filled → profit-close placed");
                },
                Err(e) => {
                    s.append(" filled, profit-close failed: ");
                    s.append(e.as_str());
                },
            }
            Some(s)
        },
        ZerodteStep::EntryEnded(i, e) => {
            s.append(positions[i].strategy.as_str());
            s.append(" entry ");
            s.append(e.text());
            Some(s)
        },
        ZerodteStep::Closed(i) => {
            s.append(positions[i].strategy.as_str());
            s.append(" profit-closed");
            Some(s)
        },
    }
}

// --- settling --------------------------------------------------------------

/// What is refreshed after an event.
#[derive(Debug, Clone, Copy, PartialEq, Eq, Structural)]
pub enum AfterEvent {
    /// A plain acknowledgement: nothing.
    Nothing,
    /// Contracts traded: everything.
    Reload,
    /// Only the journal.
    Journal,
}

/// Whether contracts traded.
pub open spec fn traded(end: Option<OrderEnd>, filled: int) -> bool {
    end == Some(OrderEnd::Filled) || filled > 0
}

/// What the status line says of an event: a roll's outcome first, then that of
/// an automated position, else the order's own.
pub open spec fn event_text(
    oid: Seq<char>,
    end: Option<OrderEnd>,
    filled: int,
    roll: Option<Seq<char>>,
    zerodte: Option<Seq<char>>,
) -> Seq<char> {
    match roll {
        Some(s) => s,
        None => match zerodte {
            Some(s) => s,
            None => match end {
                Some(e) => "order "@ + oid + ": "@ + e.word(),
                None => "order "@ + oid + ": partial fill "@ + dec_text(filled, 0),
            },
        },
    }
}

impl App {
    /// Ends the handling of a status event: whether there is anything to show or
    /// to refresh. Holdings are refreshed whenever contracts traded.
    pub fn settle_event(
        &mut self,
        oid: &str,
        end: Option<OrderEnd>,
        filled: i64,
        roll: Option<String>,
        zerodte: Option<String>,
    ) -> (r: AfterEvent)
        ensures
            ({
                let quiet = end is None && !traded(end, filled as int) && roll is None
                    && zerodte is None;
                &&& r == (if quiet {
                    AfterEvent::Nothing
                } else if old(self).connected && traded(end, filled as int) {
                    AfterEvent::Reload
                } else {
                    AfterEvent::Journal
                })
                &&& *final(self) == (App { status: final(self).status, ..*old(self) })
                &&& quiet ==> final(self).status == old(self).status
                &&& !quiet ==> final(self).status@ == event_text(
                    oid@,
                    end,
                    filled as int,
                    opt_text(roll),
                    opt_text(zerodte),
                )
            }),
    {
        let moved = match end {
            Some(OrderEnd::Filled) => true,
            _ => filled > 0,
        };
        if end.is_none() && !moved && roll.is_none() && zerodte.is_none() {
            return AfterEvent::Nothing;
        }
        self.status = match roll {
            Some(s) => s,
            None => match zerodte {
                Some(s) => s,
                None => {
                    let mut s = String::from_str("order ");
                    s.append(oid);
                    match end {
                        Some(e) => {
                            s.append(": ");
                            s.append(e.text());
                        },
                        None => {
                            s.append(": partial fill ");
                            push_dec(&mut s, filled as i128, 0);
                        },
                    }
                    s
                },
            },
        };
        if self.connected && moved {
            AfterEvent::Reload
        } else {
            AfterEvent::Journal
        }
    }

    /// Shows a notice of the broker.
    pub fn show_notice(&mut self, message: &str)
        ensures
            *final(self) == (App { status: final(self).status, ..*old(self) }),
            final(self).status@ == "broker: "@ + message@,
    {
        let mut s = String::from_str("broker: ");
        s.append(message);
        self.status = s;
    }
}

/// An order placed elsewhere changes nothing: neither the rolls nor anything else
/// of the state.
pub proof fn law_foreign_orders_ignored(rolls: Seq<PendingRoll>, oid: Seq<char>)
    requires
        forall|i: int| 0 <= i < rolls.len() ==> (#[trigger] rolls[i]).close_oid@ != oid,
    ensures
        !any_waiting(rolls, oid, false),
        !any_waiting(rolls, oid, true),
{
}

/// A roll taken up from a prior session is never matched by an order id that the
/// journal does not know.
pub proof fn law_recycled_ids_not_trusted(p: PendingRoll, oid: Seq<char>)
    requires
        p.reconstructed,
    ensures
        !waits_for(p, oid, false),
{
}

} // verus!

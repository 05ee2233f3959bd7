//! What holds of every order that leaves: manual ones, the open leg of a roll,
//! unattended entries and closes.

use vstd::prelude::*;
use crate::engine::types::SuggestionView;
use crate::store::models::ZeroDtePositionRow;
use crate::tui::app::App;
use crate::tui::legs::ComboOrder;
use crate::tui::orders::{verdict_of, Verdict};
use crate::tui::rolls::{low_i32, open_gate, OpenGate, PendingRoll};
use crate::tui::zerodte::{close_allowed, entry_allowed, is_entry_order, tick_gate, TickGate};

verus! {

/// While the app is read-only, no path sends an order: not a manual execution,
/// not the open leg of a roll, not an unattended entry, not a close.
pub proof fn law_read_only_sends_nothing(
    app: App,
    s: SuggestionView,
    roll: PendingRoll,
    row: ZeroDtePositionRow,
)
    requires
        app.cfg.guardrails.read_only,
    ensures
        verdict_of(app, s) != Verdict::Pass,
        open_gate(app, roll) != OpenGate::Go,
        tick_gate(app) == TickGate::Skip,
        !close_allowed(app, row),
{
}

/// No path sends an order for more contracts than one order may have: not a manual
/// execution, not the open leg of a roll, not an unattended entry, not a close.
pub proof fn law_orders_within_size(
    app: App,
    s: SuggestionView,
    roll: PendingRoll,
    row: ZeroDtePositionRow,
    slot: int,
    entry: ComboOrder,
)
    ensures
        entry_allowed(app, slot) && is_entry_order(
            entry,
            (app.zerodte_suggestions@[slot]->0)@,
        ) ==> entry.quantity <= app.cfg.guardrails.max_contracts_per_order,
        verdict_of(app, s) == Verdict::Pass ==> s.quantity
            <= app.cfg.guardrails.max_contracts_per_order,
        open_gate(app, roll) == OpenGate::Go ==> roll.quantity
            <= app.cfg.guardrails.max_contracts_per_order,
        close_allowed(app, row) ==> low_i32(row.quantity)
            <= app.cfg.guardrails.max_contracts_per_order,
{
}

/// Without a connection nothing is entered unattended and no roll is completed.
pub proof fn law_offline_sends_nothing(app: App, roll: PendingRoll)
    requires
        !app.connected,
    ensures
        open_gate(app, roll) == OpenGate::Offline,
        tick_gate(app) == TickGate::Skip,
{
}

} // verus!

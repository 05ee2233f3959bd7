//! Connection state and reloads: one at a time, the next one remembered, and an
//! incomplete positions snapshot never taken for an empty account.

use vstd::prelude::*;
use vstd::string::*;
use crate::engine::all_wf;
use crate::engine::types::Suggestion;
use crate::ibkr::{rows_wf, AccountSnapshot, OpenOrderInfo, PositionRow};
use crate::store::models::{JournalRow, WatchlistRow, WheelPositionRow};
use crate::text::{chars_of, own};
use crate::tui::app::{held, initial_status, rest_status, slots_wf, App};

verus! {

/// Everything a reload gathers from broker and store.
#[derive(Debug, Clone)]
pub struct LiveData {
    pub account: Option<AccountSnapshot>,
    pub watchlist: Vec<WatchlistRow>,
    pub journal: Vec<JournalRow>,
    pub positions: Vec<WheelPositionRow>,
    pub broker_positions: Vec<PositionRow>,
    pub suggestions: Vec<Suggestion>,
    pub hedged_suggestions: Vec<Suggestion>,
    /// One structure per quadrant slot.
    pub zerodte_suggestions: Vec<Option<Suggestion>>,
    /// The open orders, or `None` where that snapshot failed.
    pub open_orders: Option<Vec<OpenOrderInfo>>,
    /// Whether the positions snapshot was complete. Where it was not, positions
    /// and suggestions mean nothing.
    pub positions_ok: bool,
}

impl LiveData {
    /// Whether suggestions and positions are in range.
    pub open spec fn wf(self) -> bool {
        &&& rows_wf(self.broker_positions@)
        &&& all_wf(self.suggestions@)
        &&& all_wf(self.hedged_suggestions@)
        &&& slots_wf(self.zerodte_suggestions@)
    }
}

/// What a request for a reload leads to.
#[derive(Debug, Clone, Copy, PartialEq, Eq, Structural)]
pub enum ReloadStep {
    /// Recompute at once; there is no connection to wait for.
    Inline,
    /// One is in flight: this one is remembered.
    Coalesced,
    /// Gather in the background.
    Spawn,
}

/// Whether `s` begins with `p`.
pub open spec fn begins(s: Seq<char>, p: Seq<char>) -> bool {
    p.len() <= s.len() && s.take(p.len() as int) == p
}

fn starts_with(s: &str, p: &str) -> (r: bool)
    ensures
        r == begins(s@, p@),
{
    let v = chars_of(s);
    let w = chars_of(p);
    if w.len() > v.len() {
        return false;
    }
    let mut i: usize = 0;
    while i < w.len()
        invariant
            v@ == s@,
            w@ == p@,
            i <= w@.len() <= v@.len(),
            forall|k: int| 0 <= k < i ==> #[trigger] v@[k] == w@[k],
        decreases w@.len() - i,
    {
        if v[i] != w[i] {
            assert(s@.take(p@.len() as int)[i as int] != p@[i as int]);
            return false;
        }
        i = i + 1;
    }
    assert(s@.take(p@.len() as int) =~= p@);
    true
}

impl App {
    /// Asks for a reload. Without a connection (or before the loop is wired) it is
    /// done at once; while one is in flight it is only remembered.
    pub fn request_reload(&mut self, wired: bool) -> (r: ReloadStep)
        ensures
            !(old(self).connected && wired) ==> r == ReloadStep::Inline && *final(self) == *old(
                self,
            ),
            old(self).connected && wired && old(self).reloading ==> r == ReloadStep::Coalesced
                && *final(self) == (App { reload_pending: true, ..*old(self) }),
            old(self).connected && wired && !old(self).reloading ==> r == ReloadStep::Spawn
                && *final(self) == (App {
                reloading: true,
                status: final(self).status,
                ..*old(self)
            }) && final(self).status@ == "refreshing live data…"@,
    {
        if !(self.connected && wired) {
            return ReloadStep::Inline;
        }
        if self.reloading {
            self.reload_pending = true;
            return ReloadStep::Coalesced;
        }
        self.reloading = true;
        self.status = own("refreshing live data…");
        ReloadStep::Spawn
    }

    /// The symbols with a roll in flight.
    pub fn pending_symbols(&self) -> (r: Vec<String>)
        ensures
            r@.len() == self.pending_rolls@.len(),
            forall|i: int|
                0 <= i < r@.len() ==> (#[trigger] r@[i])@ == self.pending_rolls@[i].symbol@,
    {
        let mut out: Vec<String> = Vec::new();
        let mut i: usize = 0;
        while i < self.pending_rolls.len()
            invariant
                i <= self.pending_rolls@.len(),
                out@.len() == i,
                forall|k: int| 0 <= k < i ==> (#[trigger] out@[k])@ == self.pending_rolls@[k].symbol@,
            decreases self.pending_rolls@.len() - i,
        {
            out.push(own(self.pending_rolls[i].symbol.as_str()));
            i = i + 1;
        }
        out
    }

    /// Takes over a finished reload. `watchlist` is the one re-read from the
    /// store, so that a deletion during a slow gather stays. Where the positions
    /// snapshot was incomplete, the positions known so far stay and all
    /// suggestions go.
    pub fn take_live_data(&mut self, d: LiveData, watchlist: Vec<WatchlistRow>)
        requires
            old(self).wf(),
            d.wf(),
        ensures
            final(self).wf(),
            d.positions_ok ==> *final(self) == (App {
                account: d.account,
                watchlist,
                journal: d.journal,
                broker_positions: d.broker_positions,
                suggestions: d.suggestions,
                hedged_suggestions: d.hedged_suggestions,
                zerodte_suggestions: d.zerodte_suggestions,
                ..*old(self)
            }),
            !d.positions_ok ==> {
                &&& *final(self) == (App {
                    account: d.account,
                    watchlist,
                    journal: d.journal,
                    suggestions: final(self).suggestions,
                    hedged_suggestions: final(self).hedged_suggestions,
                    zerodte_suggestions: final(self).zerodte_suggestions,
                    status: final(self).status,
                    ..*old(self)
                })
                &&& final(self).suggestions@.len() == 0
                &&& final(self).hedged_suggestions@.len() == 0
                &&& final(self).zerodte_suggestions@.len() == 0
                &&& final(self).broker_positions == old(self).broker_positions
                &&& final(self).status@
                    == "broker positions unavailable — suggestions cleared until refresh"@
            },
    {
        self.account = d.account;
        self.watchlist = watchlist;
        self.journal = d.journal;
        if d.positions_ok {
            self.broker_positions = d.broker_positions;
            self.suggestions = d.suggestions;
            self.hedged_suggestions = d.hedged_suggestions;
            self.zerodte_suggestions = d.zerodte_suggestions;
        } else {
            self.suggestions = Vec::new();
            self.hedged_suggestions = Vec::new();
            self.zerodte_suggestions = Vec::new();
            self.status = own(
                "broker positions unavailable — suggestions cleared until refresh",
            );
        }
    }

    /// Ends a reload: the status line at rest unless a roll's outcome stands
    /// there, the cursor in range, and whether another reload was asked for.
    pub fn settle_reload(&mut self, positions: Vec<WheelPositionRow>, positions_ok: bool) -> (again:
        bool)
        ensures
            again == old(self).reload_pending,
            *final(self) == (App {
                positions,
                selected: held(
                    old(self).selected as int,
                    (App { positions, ..*old(self) }).rows_shown(),
                ) as usize,
                status: final(self).status,
                reloading: false,
                reload_pending: false,
                ..*old(self)
            }),
            final(self).status@ == (if positions_ok && !begins(old(self).status@, "roll "@) {
                rest_status(old(self).connected)
            } else {
                old(self).status@
            }),
    {
        if positions_ok && !starts_with(self.status.as_str(), "roll ") {
            self.status = initial_status(self.connected);
        }
        self.positions = positions;
        self.hold_selection();
        self.reloading = false;
        let again = self.reload_pending;
        self.reload_pending = false;
        again
    }

    /// Takes over what is known without the broker: watchlist, journal, wheel
    /// positions and, offline, the demo suggestions.
    pub fn load_local(
        &mut self,
        watchlist: Vec<WatchlistRow>,
        journal: Vec<JournalRow>,
        positions: Vec<WheelPositionRow>,
        demo: Vec<Suggestion>,
        demo_zerodte: Vec<Option<Suggestion>>,
    )
        requires
            old(self).wf(),
            all_wf(demo@),
            slots_wf(demo_zerodte@),
        ensures
            final(self).wf(),
            *final(self) == ({
                let shown = App {
                    watchlist,
                    journal,
                    positions,
                    suggestions: if old(self).connected {
                        old(self).suggestions
                    } else {
                        demo
                    },
                    zerodte_suggestions: if old(self).connected {
                        old(self).zerodte_suggestions
                    } else {
                        demo_zerodte
                    },
                    ..*old(self)
                };
                App {
                    selected: held(old(self).selected as int, shown.rows_shown()) as usize,
                    ..shown
                }
            }),
    {
        self.watchlist = watchlist;
        self.journal = journal;
        if !self.connected {
            self.suggestions = demo;
            self.zerodte_suggestions = demo_zerodte;
        }
        self.positions = positions;
        self.hold_selection();
    }

    /// Adopts a connection.
    pub fn set_connected(&mut self)
        ensures
            *final(self) == (App {
                connected: true,
                offline_reason: None,
                status: final(self).status,
                ..*old(self)
            }),
            final(self).status@ == "connected — refreshing live data…"@,
    {
        self.connected = true;
        self.offline_reason = None;
        self.status = own("connected — refreshing live data…");
    }

    /// Drops to offline after the connection vanished. The last suggestions stay
    /// visible, but nothing is executed without a connection.
    pub fn set_disconnected(&mut self, reason: &str)
        ensures
            *final(self) == (App {
                connected: false,
                account: None,
                reloading: false,
                offline_reason: final(self).offline_reason,
                status: final(self).status,
                ..*old(self)
            }),
            final(self).offline_reason is Some && (final(self).offline_reason->0)@ == reason@,
            final(self).status@ == reason@,
    {
        self.connected = false;
        self.account = None;
        self.reloading = false;
        self.offline_reason = Some(own(reason));
        self.status = own(reason);
    }

    /// Records why there is no connection.
    pub fn set_offline_reason(&mut self, reason: String)
        ensures
            *final(self) == (App { offline_reason: Some(reason), ..*old(self) }),
    {
        self.offline_reason = Some(reason);
    }
}

} // verus!

//! Row types of the local store; money in millionths.

use vstd::prelude::*;
use vstd::string::*;
use crate::engine::types::opt_int;
use crate::text::opt_text;

verus! {

/// A watchlist entry.
#[derive(Debug, Clone)]
pub struct WatchlistRow {
    pub symbol: String,
    pub sec_type: String,
    pub enabled: i64,
    /// `None` = unknown, `Some(0)` = blocked, `Some(1)` = allowed.
    pub tradable: Option<i64>,
    pub tradable_reason: Option<String>,
    pub conid: Option<i64>,
    pub notes: Option<String>,
    pub added_at: String,
}

impl WatchlistRow {
    pub open spec fn on(self) -> bool {
        self.enabled != 0
    }

    pub open spec fn blocked(self) -> bool {
        self.tradable == Some(0i64)
    }

    /// Whether the symbol is advised on.
    pub fn is_enabled(&self) -> (r: bool)
        ensures
            r == self.on(),
    {
        self.enabled != 0
    }

    /// Whether the tradability probe has marked the symbol blocked.
    pub fn is_blocked(&self) -> (r: bool)
        ensures
            r == self.blocked(),
    {
        match self.tradable {
            Some(t) => t == 0,
            None => false,
        }
    }

    /// The name of the tradability badge.
    pub open spec fn tradable_name(self) -> Seq<char> {
        match self.tradable {
            Some(t) => if t == 1 {
                "tradable"@
            } else if t == 0 {
                "blocked"@
            } else {
                "unknown"@
            },
            None => "unknown"@,
        }
    }

    /// Human-readable tradability badge.
    pub fn tradable_label(&self) -> (r: &'static str)
        ensures
            r@ == self.tradable_name(),
    {
        match self.tradable {
            Some(t) => if t == 1 {
                "tradable"
            } else if t == 0 {
                "blocked"
            } else {
                "unknown"
            },
            None => "unknown",
        }
    }
}

/// Per-symbol wheel state.
#[derive(Debug, Clone)]
pub struct WheelPositionRow {
    pub symbol: String,
    pub state: String,
    pub shares: i64,
    pub cost_basis: i64,
    pub cumulative_premium: i64,
    pub updated_at: String,
}

/// A journal entry (order and trade history).
#[derive(Debug, Clone)]
pub struct JournalRow {
    pub id: i64,
    pub ts: String,
    pub symbol: String,
    pub action: String,
    pub right: Option<String>,
    pub strike: Option<i64>,
    pub expiry: Option<String>,
    pub quantity: i64,
    pub limit_price: Option<i64>,
    pub status: String,
    pub ibkr_order_id: Option<String>,
    pub premium: Option<i128>,
    pub note: Option<String>,
}

/// A roll whose buy-to-close leg is working; kept so that the roll survives a
/// restart.
#[derive(Debug, Clone)]
pub struct PendingRollRow {
    pub close_oid: String,
    pub symbol: String,
    pub right: String,
    pub near_strike: i64,
    pub near_expiry: String,
    pub to_strike: i64,
    pub to_expiry: String,
    pub quantity: i64,
    pub far_limit: i64,
    pub created_at: String,
}

/// An automated structure position, from entry submission to close. `legs` is
/// the entry combo as `ACTION:strike:RIGHT:ratio` segments joined by `;`.
#[derive(Debug, Clone)]
pub struct ZeroDtePositionRow {
    pub entry_oid: String,
    pub slot: i64,
    pub strategy: String,
    pub underlying: String,
    pub expiry: String,
    pub legs: String,
    pub entry_credit: i64,
    pub quantity: i64,
    pub max_loss: i128,
    pub profit_target_pct: i64,
    pub status: String,
    pub close_oid: Option<String>,
    pub entry_date: String,
    pub created_at: String,
}

/// Fields of a new journal entry (its id and time are assigned on insert).
#[derive(Debug, Clone)]
pub struct NewJournalEntry {
    pub symbol: String,
    pub action: String,
    pub right: Option<String>,
    pub strike: Option<i64>,
    pub expiry: Option<String>,
    pub quantity: i64,
    pub limit_price: Option<i64>,
    pub status: String,
    pub ibkr_order_id: Option<String>,
    pub premium: Option<i128>,
    pub note: Option<String>,
}

/// What a [`NewJournalEntry`] says.
pub struct EntryView {
    pub symbol: Seq<char>,
    pub action: Seq<char>,
    pub right: Option<Seq<char>>,
    pub strike: Option<int>,
    pub expiry: Option<Seq<char>>,
    pub quantity: int,
    pub limit_price: Option<int>,
    pub status: Seq<char>,
    pub ibkr_order_id: Option<Seq<char>>,
    pub premium: Option<int>,
    pub note: Option<Seq<char>>,
}

impl View for NewJournalEntry {
    type V = EntryView;

    open spec fn view(&self) -> EntryView {
        EntryView {
            symbol: self.symbol@,
            action: self.action@,
            right: opt_text(self.right),
            strike: opt_int(self.strike),
            expiry: opt_text(self.expiry),
            quantity: self.quantity as int,
            limit_price: opt_int(self.limit_price),
            status: self.status@,
            ibkr_order_id: opt_text(self.ibkr_order_id),
            premium: match self.premium {
                Some(p) => Some(p as int),
                None => None,
            },
            note: opt_text(self.note),
        }
    }
}

/// An entry that says nothing.
pub open spec fn blank_entry() -> EntryView {
    EntryView {
        symbol: ""@,
        action: ""@,
        right: None,
        strike: None,
        expiry: None,
        quantity: 0,
        limit_price: None,
        status: ""@,
        ibkr_order_id: None,
        premium: None,
        note: None,
    }
}

impl Default for NewJournalEntry {
    fn default() -> (r: Self)
        ensures
            r@ == blank_entry(),
    {
        NewJournalEntry {
            symbol: "".to_owned(),
            action: "".to_owned(),
            right: None,
            strike: None,
            expiry: None,
            quantity: 0,
            limit_price: None,
            status: "".to_owned(),
            ibkr_order_id: None,
            premium: None,
            note: None,
        }
    }
}

} // verus!

//! What passes between the library and the broker: plain rows, orders and
//! events, and the rules by which the broker's messages are read.

pub mod auth;
pub mod client;
pub mod json;
pub mod laws;
pub mod models;

use vstd::prelude::*;
use vstd::string::*;
use crate::decimal::{decimal_value, read_decimal};
use crate::engine::types::opt_int;
use crate::fixed::{dec_text, int_text, is_price, push_dec, push_int};
use crate::text::{chars_of, contains_text, has_part, lower_text, lowered, own, same_text, texts};

verus! {

// --- connection ------------------------------------------------------------

/// The advice that a failed connection calls for, by the text of the failure. A
/// reset right after connecting is how the gateway answers while the
/// simulated-trading disclaimer has not been accepted.
pub open spec fn failure_hint(err: Seq<char>) -> Seq<char> {
    let low = lower_text(err);
    if contains_text(low, "reset by peer"@) || contains_text(low, "os error 54"@) {
        "IB Gateway reset the API session — on a paper account, accept the simulated-trading disclaimer in Gateway/TWS (error 10141)"@
    } else if contains_text(low, "refused"@) || contains_text(low, "os error 61"@) {
        "IB Gateway not reachable — is it running with the API socket port open?"@
    } else if contains_text(low, "timed out"@) || contains_text(low, "timeout"@) {
        "IB Gateway connection timed out — check host/port and that the API is enabled"@
    } else {
        "connect failed: "@ + err
    }
}

/// Turns the text of a connection failure into a short, actionable hint.
pub fn connect_failure_hint(err: &str) -> (r: String)
    ensures
        r@ == failure_hint(err@),
{
    let low = lowered(err);
    if has_part(&low, "reset by peer") || has_part(&low, "os error 54") {
        own(
            "IB Gateway reset the API session — on a paper account, accept the simulated-trading disclaimer in Gateway/TWS (error 10141)",
        )
    } else if has_part(&low, "refused") || has_part(&low, "os error 61") {
        own("IB Gateway not reachable — is it running with the API socket port open?")
    } else if has_part(&low, "timed out") || has_part(&low, "timeout") {
        own("IB Gateway connection timed out — check host/port and that the API is enabled")
    } else {
        let mut s = String::from_str("connect failed: ");
        s.append(err);
        s
    }
}

// --- account ---------------------------------------------------------------

/// `ibapi`'s tags for the four balances that are asked for: the constants
/// `NET_LIQUIDATION`, `TOTAL_CASH_VALUE`, `BUYING_POWER` and `AVAILABLE_FUNDS` of
/// `AccountSummaryTags`.
#[verifier::external_body]
fn balance_tags() -> (r: (&'static str, &'static str, &'static str, &'static str))
    ensures
        r.0@ == "NetLiquidation"@,
        r.1@ == "TotalCashValue"@,
        r.2@ == "BuyingPower"@,
        r.3@ == "AvailableFunds"@,
{
    (
        ibapi::accounts::AccountSummaryTags::NET_LIQUIDATION,
        ibapi::accounts::AccountSummaryTags::TOTAL_CASH_VALUE,
        ibapi::accounts::AccountSummaryTags::BUYING_POWER,
        ibapi::accounts::AccountSummaryTags::AVAILABLE_FUNDS,
    )
}

/// Account balances in millionths of a dollar, each `None` until reported.
#[derive(Debug, Clone, Copy, PartialEq, Eq, Structural)]
pub struct AccountSnapshot {
    pub net_liquidation: Option<i64>,
    pub total_cash: Option<i64>,
    pub buying_power: Option<i64>,
    pub available_funds: Option<i64>,
}

impl Default for AccountSnapshot {
    fn default() -> (r: Self)
        ensures
            r.net_liquidation is None && r.total_cash is None && r.buying_power is None
                && r.available_funds is None,
    {
        AccountSnapshot {
            net_liquidation: None,
            total_cash: None,
            buying_power: None,
            available_funds: None,
        }
    }
}

impl AccountSnapshot {
    /// Takes over one reported balance: the field of its tag becomes the value,
    /// or `None` where the value is no decimal number; other tags change nothing.
    pub fn apply(&mut self, tag: &str, value: &str)
        ensures
            opt_int(final(self).net_liquidation) == (if tag@ == "NetLiquidation"@ {
                decimal_value(value@)
            } else {
                opt_int(old(self).net_liquidation)
            }),
            opt_int(final(self).total_cash) == (if tag@ == "TotalCashValue"@ {
                decimal_value(value@)
            } else {
                opt_int(old(self).total_cash)
            }),
            opt_int(final(self).buying_power) == (if tag@ == "BuyingPower"@ {
                decimal_value(value@)
            } else {
                opt_int(old(self).buying_power)
            }),
            opt_int(final(self).available_funds) == (if tag@ == "AvailableFunds"@ {
                decimal_value(value@)
            } else {
                opt_int(old(self).available_funds)
            }),
    {
        let v = read_decimal(&chars_of(value));
        let tags = balance_tags();
        proof {
            reveal_strlit("NetLiquidation");
            reveal_strlit("TotalCashValue");
            reveal_strlit("BuyingPower");
            reveal_strlit("AvailableFunds");
            assert("NetLiquidation"@[0] == 'N');
            assert("TotalCashValue"@[0] == 'T');
            assert("BuyingPower"@[0] == 'B');
            assert("AvailableFunds"@[0] == 'A');
        }
        if same_text(tag, tags.0) {
            self.net_liquidation = v;
        } else if same_text(tag, tags.1) {
            self.total_cash = v;
        } else if same_text(tag, tags.2) {
            self.buying_power = v;
        } else if same_text(tag, tags.3) {
            self.available_funds = v;
        }
    }
}

// --- positions and chains --------------------------------------------------

/// A flattened open position; quantities and money in millionths.
#[derive(Debug, Clone)]
pub struct PositionRow {
    pub account: String,
    pub symbol: String,
    /// `Stock`, `Option`, ...
    pub security_type: String,
    pub right: String,
    pub strike: i64,
    pub expiry: String,
    pub position: i64,
    pub average_cost: i64,
    /// Contract multiplier as the broker reports it; empty for stock.
    pub multiplier: String,
}

impl PositionRow {
    /// Whether the amounts are in range.
    pub open spec fn wf(self) -> bool {
        is_price(self.strike as int) && is_price(self.position as int) && is_price(
            self.average_cost as int,
        )
    }
}

/// The most rows of positions whose totals are certain to fit 128 bits.
pub const MAX_ROWS: usize = 100_000_000;

/// Whether there are not too many rows, all in range.
pub open spec fn rows_wf(rows: Seq<PositionRow>) -> bool {
    rows.len() <= MAX_ROWS && forall|i: int| 0 <= i < rows.len() ==> (#[trigger] rows[i]).wf()
}

/// How a stream of rows ended.
#[derive(Debug, Clone, Copy, PartialEq, Eq, Structural)]
pub enum StreamEnd {
    /// The end marker came.
    Complete,
    /// The stream closed or failed before the end marker.
    Broken,
    /// The end marker did not come in time.
    TimedOut,
}

/// The outcome of a positions request: the rows where the end marker came, else
/// why the snapshot is incomplete. A failed fetch never looks like an empty
/// account.
pub fn positions_outcome(rows: Vec<PositionRow>, end: StreamEnd) -> (r: Result<
    Vec<PositionRow>,
    String,
>)
    ensures
        end == StreamEnd::Complete ==> r == Ok::<Vec<PositionRow>, String>(rows),
        end == StreamEnd::Broken ==> r is Err && (r->Err_0)@
            == "positions stream ended before completion"@,
        end == StreamEnd::TimedOut ==> r is Err && (r->Err_0)@ == "positions request timed out"@,
{
    match end {
        StreamEnd::Complete => Ok(rows),
        StreamEnd::Broken => Err(own("positions stream ended before completion")),
        StreamEnd::TimedOut => Err(own("positions request timed out")),
    }
}

/// Option-chain metadata for one underlying.
#[derive(Debug, Clone)]
pub struct ChainMeta {
    pub underlying_contract_id: i32,
    pub exchange: String,
    pub multiplier: String,
    pub trading_class: String,
    pub expirations: Vec<String>,
    pub strikes: Vec<i64>,
}

/// One of the account's currently open orders.
#[derive(Debug, Clone)]
pub struct OpenOrderInfo {
    pub order_id: String,
    pub symbol: String,
}

// --- market data -----------------------------------------------------------

/// What the broker's option model reports for a contract.
#[derive(Debug, Clone, Copy, PartialEq, Eq, Structural)]
pub struct OptionComputation {
    pub option_price: Option<i64>,
    pub delta: Option<i32>,
    pub implied_volatility: Option<i64>,
}

/// A market-data snapshot.
#[derive(Debug, Clone)]
pub struct SnapshotData {
    pub last: Option<i64>,
    pub comp: Option<OptionComputation>,
    pub notices: Vec<String>,
}

impl Default for SnapshotData {
    fn default() -> (r: Self)
        ensures
            r.last is None && r.comp is None && r.notices@.len() == 0,
    {
        SnapshotData { last: None, comp: None, notices: Vec::new() }
    }
}

/// One message of a market-data stream.
#[derive(Debug, Clone)]
pub enum Tick {
    Price(i64),
    Computation(OptionComputation),
    SnapshotEnd,
    Notice(String),
    Failed(String),
    Other,
}

/// The last price after a tick: a positive price takes over.
pub open spec fn last_after(last: Option<i64>, tick: Tick) -> Option<i64> {
    match tick {
        Tick::Price(p) => if p > 0 {
            Some(p)
        } else {
            last
        },
        _ => last,
    }
}

/// The computation after a tick: one with a delta or an implied volatility takes
/// over.
pub open spec fn comp_after(comp: Option<OptionComputation>, tick: Tick) -> Option<
    OptionComputation,
> {
    match tick {
        Tick::Computation(c) => if c.delta is Some || c.implied_volatility is Some {
            Some(c)
        } else {
            comp
        },
        _ => comp,
    }
}

/// The notices after a tick.
pub open spec fn notices_after(notices: Seq<Seq<char>>, tick: Tick) -> Seq<Seq<char>> {
    match tick {
        Tick::Notice(n) => notices.push(n@),
        Tick::Failed(e) => notices.push("error: "@ + e@),
        _ => notices,
    }
}

impl SnapshotData {
    /// Takes over one tick; tells whether the stream can be left: at its end, on
    /// a failure, or once there is what was wanted (a computation where greeks
    /// are wanted, else a price).
    pub fn absorb(&mut self, tick: Tick, wants_greeks: bool) -> (done: bool)
        ensures
            final(self).last == last_after(old(self).last, tick),
            final(self).comp == comp_after(old(self).comp, tick),
            texts(final(self).notices@) == notices_after(texts(old(self).notices@), tick),
            done <==> tick is SnapshotEnd || tick is Failed || (if wants_greeks {
                final(self).comp is Some
            } else {
                final(self).last is Some
            }),
    {
        let mut over = false;
        match tick {
            Tick::Price(p) => {
                if p > 0 {
                    self.last = Some(p);
                }
            },
            Tick::Computation(c) => {
                if c.delta.is_some() || c.implied_volatility.is_some() {
                    self.comp = Some(c);
                }
            },
            Tick::SnapshotEnd => {
                over = true;
            },
            Tick::Notice(n) => {
                self.notices.push(n);
                assert(texts(self.notices@) =~= texts(old(self).notices@).push(n@));
            },
            Tick::Failed(e) => {
                let mut s = String::from_str("error: ");
                s.append(e.as_str());
                self.notices.push(s);
                assert(texts(self.notices@) =~= texts(old(self).notices@).push("error: "@ + e@));
                over = true;
            },
            Tick::Other => {},
        }
        over || (if wants_greeks {
            self.comp.is_some()
        } else {
            self.last.is_some()
        })
    }
}

/// Whether the account may trade a given underlying's options.
#[derive(Debug, Clone)]
pub enum Tradability {
    Allowed { init_margin: Option<i64>, commission: Option<i64> },
    Blocked(String),
}

// --- orders ----------------------------------------------------------------

/// Order side.
#[derive(Debug, Clone, Copy, PartialEq, Eq, Structural)]
pub enum Side {
    Buy,
    Sell,
}

impl Side {
    pub open spec fn word(self) -> Seq<char> {
        match self {
            Side::Buy => "BUY"@,
            Side::Sell => "SELL"@,
        }
    }

    /// The other side.
    pub open spec fn flipped(self) -> Side {
        match self {
            Side::Buy => Side::Sell,
            Side::Sell => Side::Buy,
        }
    }

    /// `BUY` or `SELL`.
    pub fn text(self) -> (r: &'static str)
        ensures
            r@ == self.word(),
    {
        match self {
            Side::Buy => "BUY",
            Side::Sell => "SELL",
        }
    }

    /// The other side.
    pub fn flip(self) -> (r: Side)
        ensures
            r == self.flipped(),
    {
        match self {
            Side::Buy => Side::Sell,
            Side::Sell => Side::Buy,
        }
    }
}

/// A single-leg option order.
#[derive(Debug, Clone)]
pub struct OptionOrder {
    pub symbol: String,
    /// Expiry as `YYYYMMDD`.
    pub expiry_yyyymmdd: String,
    pub strike: i64,
    /// Right code: `P` or `C`.
    pub right: String,
    pub side: Side,
    pub quantity: i32,
    /// Limit price (premium per share).
    pub limit: i64,
}

impl OptionOrder {
    pub open spec fn line(self) -> Seq<char> {
        self.side.word() + " "@ + int_text(self.quantity as int) + "x "@ + self.symbol@ + " "@
            + dec_text(self.strike as int, 1) + self.right@ + " "@ + self.expiry_yyyymmdd@ + " @"@
            + dec_text(self.limit as int, 2)
    }

    /// The order in one line.
    pub fn text(&self) -> (r: String)
        ensures
            r@ == self.line(),
    {
        let mut s = own(self.side.text());
        s.append(" ");
        push_int(&mut s, self.quantity as i128);
        s.append("x ");
        s.append(self.symbol.as_str());
        s.append(" ");
        push_dec(&mut s, self.strike as i128, 1);
        s.append(self.right.as_str());
        s.append(" ");
        s.append(self.expiry_yyyymmdd.as_str());
        s.append(" @");
        push_dec(&mut s, self.limit as i128, 2);
        s
    }
}

/// A defined-risk put credit spread: sell `short_strike`, buy `long_strike`.
#[derive(Debug, Clone)]
pub struct SpreadOrder {
    pub symbol: String,
    pub expiry_yyyymmdd: String,
    pub short_strike: i64,
    pub long_strike: i64,
    pub quantity: i32,
    /// Net credit per share to receive (positive).
    pub net_credit: i64,
}

impl SpreadOrder {
    pub open spec fn line(self) -> Seq<char> {
        "SELL "@ + int_text(self.quantity as int) + "x "@ + self.symbol@ + " "@ + dec_text(
            self.short_strike as int,
            1,
        ) + "/"@ + dec_text(self.long_strike as int, 1) + "P "@ + self.expiry_yyyymmdd@ + " @"@
            + dec_text(self.net_credit as int, 2) + "cr"@
    }

    /// The order in one line.
    pub fn text(&self) -> (r: String)
        ensures
            r@ == self.line(),
    {
        let mut s = String::from_str("SELL ");
        push_int(&mut s, self.quantity as i128);
        s.append("x ");
        s.append(self.symbol.as_str());
        s.append(" ");
        push_dec(&mut s, self.short_strike as i128, 1);
        s.append("/");
        push_dec(&mut s, self.long_strike as i128, 1);
        s.append("P ");
        s.append(self.expiry_yyyymmdd.as_str());
        s.append(" @");
        push_dec(&mut s, self.net_credit as i128, 2);
        s.append("cr");
        s
    }

    /// Refuses a spread whose legs resolved to one contract.
    pub fn check_legs(&self, long_id: i32, short_id: i32) -> (r: Result<(), String>)
        ensures
            r is Ok <==> long_id != short_id,
            r is Err ==> (r->Err_0)@ == "spread "@ + self.symbol@ + " "@ + dec_text(
                self.short_strike as int,
                1,
            ) + "/"@ + dec_text(self.long_strike as int, 1)
                + ": both legs resolved to the same contract"@,
    {
        if long_id != short_id {
            return Ok(());
        }
        let mut s = String::from_str("spread ");
        s.append(self.symbol.as_str());
        s.append(" ");
        push_dec(&mut s, self.short_strike as i128, 1);
        s.append("/");
        push_dec(&mut s, self.long_strike as i128, 1);
        s.append(": both legs resolved to the same contract");
        Err(s)
    }
}

/// The limit at which a package is bought to receive a net credit: the broker's
/// combo limit is a net debit, so a credit is a negative price.
pub fn combo_limit(net_credit: i64) -> (r: i128)
    ensures
        r == -(net_credit as int),
{
    -(net_credit as i128)
}

/// What a what-if preview reports of an order.
#[derive(Debug, Clone)]
pub struct OrderState {
    pub initial_margin_after: Option<i64>,
    pub commission: Option<i64>,
    pub status: String,
}

/// Outcome of submitting or previewing an order.
#[derive(Debug, Clone)]
pub enum OrderOutcome {
    /// What-if margin and commission impact.
    Preview(OrderState),
    /// Live submission succeeded; carries the broker's order id.
    Submitted(String),
}

// --- order events ----------------------------------------------------------

/// An order update as the broker's stream brings it.
#[derive(Debug, Clone)]
pub enum OrderUpdate {
    Status {
        order_id: i32,
        status: String,
        filled: i64,
        remaining: i64,
        avg_fill_price: i64,
    },
    Message { code: i32, message: String },
    /// Open orders, executions and commission reports.
    Other,
}

/// An order event that the app acts on.
#[derive(Debug, Clone)]
pub enum OrderEvent {
    /// A status transition for an order.
    Status {
        order_id: i32,
        status: String,
        filled: i64,
        remaining: i64,
        avg_fill_price: i64,
    },
    /// A notice or error message from the order subsystem.
    Notice(String),
}

/// `ibapi::messages::WARNING_CODE_RANGE`: the codes 2100 to 2169.
#[verifier::external_body]
fn is_warning(code: i32) -> (r: bool)
    ensures
        r == (2100 <= code <= 2169),
{
    ibapi::messages::WARNING_CODE_RANGE.contains(&code)
}

/// `ibapi::messages::SYSTEM_MESSAGE_CODES`: the codes 1100, 1101, 1102 and 1300.
#[verifier::external_body]
fn is_system(code: i32) -> (r: bool)
    ensures
        r == (1100 <= code <= 1102 || code == 1300),
{
    ibapi::messages::SYSTEM_MESSAGE_CODES.contains(&code)
}

/// `ibapi::messages::ORDER_CANCELLED_CODE`: the code 202.
#[verifier::external_body]
fn cancelled_code() -> (r: i32)
    ensures
        r == 202,
{
    ibapi::messages::ORDER_CANCELLED_CODE
}

/// Whether a notice calls for no action: connectivity and warnings, cancel
/// confirmations, and the lookup and market-data codes that come while chains
/// are probed.
pub open spec fn is_noise(code: int) -> bool {
    ||| 2100 <= code <= 2169
    ||| 1100 <= code <= 1102
    ||| code == 1300
    ||| code == 202
    ||| code == 200
    ||| code == 10091
    ||| code == 10167
}

/// Whether a broker notice is kept off the status line.
pub fn notice_is_noise(code: i32) -> (r: bool)
    ensures
        r == is_noise(code as int),
{
    is_warning(code) || is_system(code) || code == cancelled_code() || code == 200 || code == 10091
        || code == 10167
}

/// What an event says.
pub enum EventView {
    Status { order_id: int, status: Seq<char>, filled: int, remaining: int, avg_fill_price: int },
    Notice(Seq<char>),
}

impl View for OrderEvent {
    type V = EventView;

    open spec fn view(&self) -> EventView {
        match self {
            OrderEvent::Status { order_id, status, filled, remaining, avg_fill_price } => EventView::Status {
                order_id: *order_id as int,
                status: status@,
                filled: *filled as int,
                remaining: *remaining as int,
                avg_fill_price: *avg_fill_price as int,
            },
            OrderEvent::Notice(m) => EventView::Notice(m@),
        }
    }
}

/// The event that an update gives: status updates as they are, messages that are
/// no noise with their code, nothing else.
pub open spec fn event_of(update: OrderUpdate) -> Option<EventView> {
    match update {
        OrderUpdate::Status { order_id, status, filled, remaining, avg_fill_price } => Some(
            EventView::Status {
                order_id: order_id as int,
                status: status@,
                filled: filled as int,
                remaining: remaining as int,
                avg_fill_price: avg_fill_price as int,
            },
        ),
        OrderUpdate::Message { code, message } => if is_noise(code as int) {
            None
        } else {
            Some(EventView::Notice("["@ + int_text(code as int) + "] "@ + message@))
        },
        OrderUpdate::Other => None,
    }
}

/// Maps a broker update to an event, or `None` for one the app does not act on.
pub fn map_order_update(update: OrderUpdate) -> (r: Option<OrderEvent>)
    ensures
        r is Some <==> event_of(update) is Some,
        r is Some ==> (r->0)@ == event_of(update)->0,
{
    match update {
        OrderUpdate::Status { order_id, status, filled, remaining, avg_fill_price } => Some(
            OrderEvent::Status { order_id, status, filled, remaining, avg_fill_price },
        ),
        OrderUpdate::Message { code, message } => {
            if notice_is_noise(code) {
                None
            } else {
                let mut s = String::from_str("[");
                push_int(&mut s, code as i128);
                s.append("] ");
                s.append(message.as_str());
                Some(OrderEvent::Notice(s))
            }
        },
        OrderUpdate::Other => None,
    }
}

} // verus!

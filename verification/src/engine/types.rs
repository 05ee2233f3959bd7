//! Plain data that the strategy engine reads and writes. Amounts are fixed-point
//! (see [`crate::fixed`]), days are day numbers (see [`crate::dates`]).

use vstd::prelude::*;
use vstd::string::*;
use crate::fixed::{abs, is_price, is_total, MAX_PART};
use crate::text::{chars_of, own, same_text};

verus! {

/// Option right.
#[derive(Debug, Clone, Copy, PartialEq, Eq, Structural)]
pub enum Right {
    Put,
    Call,
}

impl Right {
    /// The one-letter code of a right.
    pub open spec fn spec_code(self) -> Seq<char> {
        match self {
            Right::Put => "P"@,
            Right::Call => "C"@,
        }
    }

    /// The right that a code stands for: a call where it begins with the letter C.
    pub open spec fn of_code(s: Seq<char>) -> Right {
        if s.len() > 0 && (s[0] == 'C' || s[0] == 'c') {
            Right::Call
        } else {
            Right::Put
        }
    }

    /// The single-letter code of this right in orders, journal rows and stored legs.
    pub fn code(self) -> (r: &'static str)
        ensures
            r@ == self.spec_code(),
    {
        match self {
            Right::Put => "P",
            Right::Call => "C",
        }
    }

    /// Reads a right code (`P`, `PUT`, `C`, `CALL`): a first letter C means a call,
    /// anything else a put.
    pub fn from_code(s: &str) -> (r: Right)
        ensures
            r == Right::of_code(s@),
    {
        let v = chars_of(s);
        if v.len() > 0 && (v[0] == 'C' || v[0] == 'c') {
            Right::Call
        } else {
            Right::Put
        }
    }
}

/// Reading a right's code gives the right back.
pub proof fn law_right_code_reads_back(r: Right)
    ensures
        Right::of_code(r.spec_code()) == r,
{
    reveal_strlit("P");
    reveal_strlit("C");
}

/// One option contract's market snapshot.
#[derive(Debug, Clone, Copy)]
pub struct OptionQuote {
    pub right: Right,
    pub strike: i64,
    pub expiry: i32,
    pub bid: i64,
    pub ask: i64,
    /// Delta as the broker reports it, in millionths: calls positive, puts
    /// negative. `None` where the greek is not available.
    pub delta: Option<i32>,
    pub implied_volatility: Option<i64>,
    /// Black-Scholes delta worked out from the implied volatility, for a quote
    /// that comes without the greek.
    pub estimated_delta: Option<i32>,
    pub open_interest: Option<i64>,
}

/// The mid of a bid and an ask (rounded down to a millionth); the bid where one
/// of the two is missing, and never negative.
pub open spec fn mid_price(bid: int, ask: int) -> int {
    if ask > 0 && bid > 0 {
        (bid + ask) / 2
    } else if bid > 0 {
        bid
    } else {
        0
    }
}

impl OptionQuote {
    /// Whether strike, bid and ask are in the range of prices.
    pub open spec fn wf(self) -> bool {
        is_price(self.strike as int) && is_price(self.bid as int) && is_price(self.ask as int)
    }

    pub open spec fn spec_mid(self) -> int {
        mid_price(self.bid as int, self.ask as int)
    }

    pub open spec fn spec_abs_delta(self) -> Option<int> {
        match self.delta {
            Some(d) => Some(abs(d as int)),
            None => None,
        }
    }

    /// Mid price; falls back to the bid where the ask is missing or not positive.
    pub fn mid(&self) -> (r: i64)
        ensures
            r == self.spec_mid(),
            r >= 0,
            self.wf() ==> is_price(r as int),
    {
        if self.ask > 0 && self.bid > 0 {
            ((self.bid as i128 + self.ask as i128) / 2) as i64
        } else if self.bid > 0 {
            self.bid
        } else {
            0
        }
    }

    /// The size of the reported delta, where there is one.
    pub fn abs_delta(&self) -> (r: Option<i64>)
        ensures
            opt_int(r) == self.spec_abs_delta(),
            r is Some ==> 0 <= r->0 <= 2_147_483_648,
    {
        match self.delta {
            Some(d) => Some(abs_i32(d)),
            None => None,
        }
    }
}

/// The size of a 32-bit number.
pub fn abs_i32(d: i32) -> (r: i64)
    ensures
        r == abs(d as int),
        0 <= r <= 2_147_483_648,
{
    if d < 0 {
        -(d as i64)
    } else {
        d as i64
    }
}

/// An optional number.
pub open spec fn opt_int(x: Option<i64>) -> Option<int> {
    match x {
        Some(v) => Some(v as int),
        None => None,
    }
}

/// Whether every quote of a chain is in range.
pub open spec fn chain_wf(quotes: Seq<OptionQuote>) -> bool {
    forall|i: int| 0 <= i < quotes.len() ==> (#[trigger] quotes[i]).wf()
}

/// Latest price of the underlying instrument.
#[derive(Debug, Clone, Copy)]
pub struct UnderlyingQuote {
    pub last: i64,
}

/// The wheel leg a symbol is currently in.
#[derive(Debug, Clone, Copy, PartialEq, Eq, Structural)]
pub enum WheelState {
    /// No position: eligible to sell a cash-secured put.
    Idle,
    /// A short cash-secured put is open.
    ShortPut,
    /// A short put with a long put below it. Managed like `ShortPut` on the short
    /// leg; the long leg is protection that rides along.
    HedgedShortPut,
    /// Assigned: holding at least 100 shares, eligible to sell covered calls.
    LongShares,
    /// A covered call is open against held shares.
    ShortCall,
}

impl Default for WheelState {
    fn default() -> (r: Self)
        ensures
            r == WheelState::Idle,
    {
        WheelState::Idle
    }
}

impl WheelState {
    /// The stored name of a state.
    pub open spec fn name(self) -> Seq<char> {
        match self {
            WheelState::Idle => "Idle"@,
            WheelState::ShortPut => "ShortPut"@,
            WheelState::HedgedShortPut => "HedgedShortPut"@,
            WheelState::LongShares => "LongShares"@,
            WheelState::ShortCall => "ShortCall"@,
        }
    }

    /// The state with the stored name `s`; `Idle` where no state has it.
    pub open spec fn of_name(s: Seq<char>) -> WheelState {
        if s == "ShortPut"@ {
            WheelState::ShortPut
        } else if s == "HedgedShortPut"@ {
            WheelState::HedgedShortPut
        } else if s == "LongShares"@ {
            WheelState::LongShares
        } else if s == "ShortCall"@ {
            WheelState::ShortCall
        } else {
            WheelState::Idle
        }
    }

    /// Stable text for persistence and display.
    pub fn as_str(self) -> (r: &'static str)
        ensures
            r@ == self.name(),
    {
        match self {
            WheelState::Idle => "Idle",
            WheelState::ShortPut => "ShortPut",
            WheelState::HedgedShortPut => "HedgedShortPut",
            WheelState::LongShares => "LongShares",
            WheelState::ShortCall => "ShortCall",
        }
    }

    /// Reads a stored state, falling back to `Idle`.
    pub fn parse(s: &str) -> (r: WheelState)
        ensures
            r == WheelState::of_name(s@),
    {
        if same_text(s, "ShortPut") {
            WheelState::ShortPut
        } else if same_text(s, "HedgedShortPut") {
            WheelState::HedgedShortPut
        } else if same_text(s, "LongShares") {
            WheelState::LongShares
        } else if same_text(s, "ShortCall") {
            WheelState::ShortCall
        } else {
            WheelState::Idle
        }
    }
}

/// A stored state reads back as itself, and a text that no state is stored as
/// reads as `Idle`.
pub proof fn law_wheel_state_reads_back(w: WheelState, s: Seq<char>)
    ensures
        WheelState::of_name(w.name()) == w,
        (forall|v: WheelState| s != #[trigger] v.name()) ==> WheelState::of_name(s)
            == WheelState::Idle,
{
    reveal_strlit("Idle");
    reveal_strlit("ShortPut");
    reveal_strlit("HedgedShortPut");
    reveal_strlit("LongShares");
    reveal_strlit("ShortCall");
    assert("Idle"@.len() == 4);
    assert("ShortPut"@.len() == 8);
    assert("HedgedShortPut"@.len() == 14);
    assert("LongShares"@.len() == 10);
    assert("ShortCall"@.len() == 9);
    if forall|v: WheelState| s != #[trigger] v.name() {
        assert(s != WheelState::ShortPut.name());
        assert(s != WheelState::HedgedShortPut.name());
        assert(s != WheelState::LongShares.name());
        assert(s != WheelState::ShortCall.name());
    }
}

/// An open short option that is already held.
#[derive(Debug, Clone, Copy, PartialEq, Eq, Structural)]
pub struct OpenShortOption {
    pub right: Right,
    pub strike: i64,
    pub expiry: i32,
    /// Premium received per share when the position was opened.
    pub entry_credit: i64,
    /// Number of contracts (positive).
    pub quantity: i32,
}

/// A stock position held after assignment.
#[derive(Debug, Clone, Copy, PartialEq, Eq, Structural)]
pub struct SharePosition {
    pub shares: i64,
    /// Cost basis per share.
    pub cost_basis: i64,
}

/// Which way a single structure leg trades.
#[derive(Debug, Clone, Copy, PartialEq, Eq, Structural)]
pub enum LegSide {
    Buy,
    Sell,
}

/// One leg of a multi-leg structure.
#[derive(Debug, Clone, Copy, PartialEq, Eq, Structural)]
pub struct StructureLeg {
    pub right: Right,
    pub strike: i64,
    pub side: LegSide,
    /// Price per share of this leg when the structure was built.
    pub price: i64,
    /// Delta of this leg in millionths, if known.
    pub delta: Option<i64>,
}

impl StructureLeg {
    /// Whether strike and price are in the range of prices.
    pub open spec fn wf(self) -> bool {
        is_price(self.strike as int) && is_price(self.price as int)
    }
}

/// A named multi-leg, short-dated options structure.
#[derive(Debug, Clone, Copy, PartialEq, Eq, Structural)]
pub enum StructureKind {
    /// Short put spread and short call spread (defined risk on both sides).
    IronCondor,
    /// One-sided bull put spread.
    PutCreditSpread,
    /// One-sided bear call spread.
    CallCreditSpread,
    /// Put butterfly with unequal wings, for a net credit (no upside risk).
    BrokenWingButterfly,
    /// At-the-money short straddle hedged by wings.
    IronFly,
    /// Naked short put and short call (undefined risk).
    ShortStrangle,
}

impl StructureKind {
    pub open spec fn spec_label(self) -> Seq<char> {
        match self {
            StructureKind::IronCondor => "Iron Condor"@,
            StructureKind::PutCreditSpread => "Put Credit Spread"@,
            StructureKind::CallCreditSpread => "Call Credit Spread"@,
            StructureKind::BrokenWingButterfly => "Broken-Wing Butterfly"@,
            StructureKind::IronFly => "Iron Fly"@,
            StructureKind::ShortStrangle => "Short Strangle"@,
        }
    }

    pub open spec fn naked(self) -> bool {
        self == StructureKind::ShortStrangle
    }

    /// Human label for headers and journal rows.
    pub fn label(self) -> (r: &'static str)
        ensures
            r@ == self.spec_label(),
    {
        match self {
            StructureKind::IronCondor => "Iron Condor",
            StructureKind::PutCreditSpread => "Put Credit Spread",
            StructureKind::CallCreditSpread => "Call Credit Spread",
            StructureKind::BrokenWingButterfly => "Broken-Wing Butterfly",
            StructureKind::IronFly => "Iron Fly",
            StructureKind::ShortStrangle => "Short Strangle",
        }
    }

    /// Whether this structure carries undefined (naked) risk.
    pub fn is_naked(self) -> (r: bool)
        ensures
            r == self.naked(),
    {
        matches!(self, StructureKind::ShortStrangle)
    }

    /// Whether the estimate of the probability of profit from the short deltas
    /// means something here: not for a near-the-money body nor for a butterfly.
    pub open spec fn has_pop(self) -> bool {
        self != StructureKind::BrokenWingButterfly && self != StructureKind::IronFly
    }

    /// Whether the probability of profit is worth showing for this structure.
    pub fn pop_is_meaningful(self) -> (r: bool)
        ensures
            r == self.has_pop(),
    {
        matches!(
            self,
            StructureKind::IronCondor
                | StructureKind::PutCreditSpread
                | StructureKind::CallCreditSpread
                | StructureKind::ShortStrangle
        )
    }
}

/// The action the engine recommends.
#[derive(Debug, Clone, PartialEq, Eq)]
pub enum ActionKind {
    /// Open a cash-secured put.
    SellPut,
    /// Open a covered call against held shares.
    SellCall,
    /// Buy to close an open short for profit.
    CloseForProfit,
    /// Defend a tested short by rolling it out.
    Roll { to_expiry: i32, to_strike: i64 },
    /// Open a defined-risk put credit spread: sell `strike`, buy `long_strike`.
    SellPutSpread { long_strike: i64, long_price: i64 },
    /// Open a multi-leg structure; `legs` in execution order.
    OpenStructure { kind: StructureKind, legs: Vec<StructureLeg> },
}

/// What an [`ActionKind`] stands for.
pub enum KindView {
    SellPut,
    SellCall,
    CloseForProfit,
    Roll { to_expiry: int, to_strike: int },
    SellPutSpread { long_strike: int, long_price: int },
    OpenStructure { kind: StructureKind, legs: Seq<StructureLeg> },
}

impl View for ActionKind {
    type V = KindView;

    open spec fn view(&self) -> KindView {
        match self {
            ActionKind::SellPut => KindView::SellPut,
            ActionKind::SellCall => KindView::SellCall,
            ActionKind::CloseForProfit => KindView::CloseForProfit,
            ActionKind::Roll { to_expiry, to_strike } => KindView::Roll {
                to_expiry: *to_expiry as int,
                to_strike: *to_strike as int,
            },
            ActionKind::SellPutSpread { long_strike, long_price } => KindView::SellPutSpread {
                long_strike: *long_strike as int,
                long_price: *long_price as int,
            },
            ActionKind::OpenStructure { kind, legs } => KindView::OpenStructure {
                kind: *kind,
                legs: legs@,
            },
        }
    }
}

impl KindView {
    /// The journal's name of an action.
    pub open spec fn key(self) -> Seq<char> {
        match self {
            KindView::SellPut => "SellPut"@,
            KindView::SellCall => "SellCall"@,
            KindView::CloseForProfit => "Close"@,
            KindView::Roll { .. } => "Roll"@,
            KindView::SellPutSpread { .. } => "SellPutSpread"@,
            KindView::OpenStructure { kind, .. } => kind.spec_label(),
        }
    }

    /// The label of an action in tables.
    pub open spec fn label(self) -> Seq<char> {
        match self {
            KindView::SellPut => "Sell Put"@,
            KindView::SellCall => "Sell Call"@,
            KindView::CloseForProfit => "Close"@,
            KindView::Roll { .. } => "Roll"@,
            KindView::SellPutSpread { .. } => "Put Spread"@,
            KindView::OpenStructure { kind, .. } => kind.spec_label(),
        }
    }
}

impl ActionKind {
    /// Stable identifier for the journal's `action` column.
    pub fn persist_key(&self) -> (r: String)
        ensures
            r@ == self@.key(),
    {
        match self {
            ActionKind::SellPut => own("SellPut"),
            ActionKind::SellCall => own("SellCall"),
            ActionKind::CloseForProfit => own("Close"),
            ActionKind::Roll { .. } => own("Roll"),
            ActionKind::SellPutSpread { .. } => own("SellPutSpread"),
            ActionKind::OpenStructure { kind, .. } => own(kind.label()),
        }
    }

    /// Human-readable label for tables and headers.
    pub fn display_label(&self) -> (r: &'static str)
        ensures
            r@ == self@.label(),
    {
        match self {
            ActionKind::SellPut => "Sell Put",
            ActionKind::SellCall => "Sell Call",
            ActionKind::CloseForProfit => "Close",
            ActionKind::Roll { .. } => "Roll",
            ActionKind::SellPutSpread { .. } => "Put Spread",
            ActionKind::OpenStructure { kind, .. } => kind.label(),
        }
    }

    /// The same action, held anew.
    pub fn copied(&self) -> (r: ActionKind)
        ensures
            r@ == self@,
    {
        match self {
            ActionKind::SellPut => ActionKind::SellPut,
            ActionKind::SellCall => ActionKind::SellCall,
            ActionKind::CloseForProfit => ActionKind::CloseForProfit,
            ActionKind::Roll { to_expiry, to_strike } => ActionKind::Roll {
                to_expiry: *to_expiry,
                to_strike: *to_strike,
            },
            ActionKind::SellPutSpread { long_strike, long_price } => ActionKind::SellPutSpread {
                long_strike: *long_strike,
                long_price: *long_price,
            },
            ActionKind::OpenStructure { kind, legs } => ActionKind::OpenStructure {
                kind: *kind,
                legs: copy_legs(legs),
            },
        }
    }
}

/// The same legs, held anew.
pub fn copy_legs(legs: &Vec<StructureLeg>) -> (r: Vec<StructureLeg>)
    ensures
        r@ == legs@,
{
    let mut out: Vec<StructureLeg> = Vec::new();
    let mut i: usize = 0;
    while i < legs.len()
        invariant
            i <= legs@.len(),
            out@ == legs@.take(i as int),
        decreases legs@.len() - i,
    {
        out.push(legs[i]);
        i = i + 1;
        assert(out@ =~= legs@.take(i as int));
    }
    assert(legs@.take(i as int) =~= legs@);
    out
}

/// A single recommended action with everything needed to preview or execute it.
#[derive(Debug, Clone)]
pub struct Suggestion {
    pub symbol: String,
    pub kind: ActionKind,
    pub right: Right,
    pub strike: i64,
    /// Spot price of the underlying when this suggestion was made; 0 if unknown.
    pub underlying_price: i64,
    pub expiry: i32,
    pub dte: i64,
    pub quantity: i32,
    /// Suggested limit price (premium per share).
    pub limit_price: i64,
    /// Size of the chosen contract's delta in millionths, if known.
    pub delta: Option<i64>,
    /// Total premium: the limit price times 100 times the quantity.
    pub premium_total: i128,
    /// Collateral required.
    pub capital_required: i128,
    /// Annualized return on collateral in billionths.
    pub annualized_yield: i128,
    /// Human-readable explanation of why this was chosen.
    pub rationale: String,
}

/// What a [`Suggestion`] stands for.
pub struct SuggestionView {
    pub symbol: Seq<char>,
    pub kind: KindView,
    pub right: Right,
    pub strike: int,
    pub underlying_price: int,
    pub expiry: int,
    pub dte: int,
    pub quantity: int,
    pub limit_price: int,
    pub delta: Option<int>,
    pub premium_total: int,
    pub capital_required: int,
    pub annualized_yield: int,
    pub rationale: Seq<char>,
}

impl View for Suggestion {
    type V = SuggestionView;

    open spec fn view(&self) -> SuggestionView {
        SuggestionView {
            symbol: self.symbol@,
            kind: self.kind@,
            right: self.right,
            strike: self.strike as int,
            underlying_price: self.underlying_price as int,
            expiry: self.expiry as int,
            dte: self.dte as int,
            quantity: self.quantity as int,
            limit_price: self.limit_price as int,
            delta: opt_int(self.delta),
            premium_total: self.premium_total as int,
            capital_required: self.capital_required as int,
            annualized_yield: self.annualized_yield as int,
            rationale: self.rationale@,
        }
    }
}

impl SuggestionView {
    /// Whether the amounts are in the ranges that computations on them allow for.
    pub open spec fn wf(self) -> bool {
        &&& is_price(self.strike)
        &&& is_price(self.underlying_price)
        &&& -4 * crate::fixed::MAX_PRICE <= self.limit_price <= 4 * crate::fixed::MAX_PRICE + 10_000
        &&& is_total(self.premium_total)
        &&& is_total(self.capital_required)
        &&& -MAX_PART <= self.annualized_yield <= MAX_PART
        &&& match self.kind {
            KindView::Roll { to_strike, .. } => is_price(to_strike),
            KindView::SellPutSpread { long_strike, long_price } => is_price(long_strike)
                && is_price(long_price - 10_000),
            KindView::OpenStructure { legs, .. } => legs.len() <= 1_000_000 && (forall|i: int|
                0 <= i < legs.len() ==> (#[trigger] legs[i]).wf()),
            _ => true,
        }
    }
}

impl Suggestion {
    /// The same suggestion, held anew.
    pub fn copied(&self) -> (r: Suggestion)
        ensures
            r@ == self@,
    {
        Suggestion {
            symbol: own(self.symbol.as_str()),
            kind: self.kind.copied(),
            right: self.right,
            strike: self.strike,
            underlying_price: self.underlying_price,
            expiry: self.expiry,
            dte: self.dte,
            quantity: self.quantity,
            limit_price: self.limit_price,
            delta: self.delta,
            premium_total: self.premium_total,
            capital_required: self.capital_required,
            annualized_yield: self.annualized_yield,
            rationale: own(self.rationale.as_str()),
        }
    }
}

/// What each suggestion of a list stands for.
pub open spec fn views(v: Seq<Suggestion>) -> Seq<SuggestionView> {
    v.map_values(|s: Suggestion| s@)
}

/// What an optional suggestion stands for.
pub open spec fn opt_view(s: Option<Suggestion>) -> Option<SuggestionView> {
    match s {
        Some(x) => Some(x@),
        None => None,
    }
}

/// An ordered set of suggested actions.
#[derive(Debug, Clone)]
pub struct ActionPlan {
    pub suggestions: Vec<Suggestion>,
}

impl Default for ActionPlan {
    fn default() -> (r: Self)
        ensures
            r.suggestions@.len() == 0,
    {
        ActionPlan { suggestions: Vec::new() }
    }
}

/// Tunable strategy parameters. Deltas, fractions, rates and premiums are in
/// millionths.
#[derive(Debug, Clone, Copy, PartialEq, Eq, Structural)]
pub struct EngineConfig {
    /// Ideal size of the delta for new short options.
    pub target_delta: i64,
    /// Acceptable band of deltas for entries.
    pub min_delta: i64,
    pub max_delta: i64,
    /// Acceptable band of days to expiration for entries.
    pub min_dte: i64,
    pub max_dte: i64,
    /// Buy to close once this fraction of the premium is captured.
    pub take_profit_pct: i64,
    /// Defend (roll) when a short's delta is above this.
    pub roll_delta: i64,
    /// Also roll an in-the-money short at or under this many days to expiration.
    pub roll_dte: i64,
    /// Skip entries whose annualized yield is below this fraction.
    pub min_annualized_yield: i64,
    /// Skip strikes with an open interest below this, where it is known.
    pub min_open_interest: i64,
    /// Ignore option prices below this.
    pub min_premium: i64,
    /// Risk-free rate for the Black-Scholes estimate of a delta.
    pub risk_free_rate: i64,
    /// Covered-call strikes must sit at least this fraction above cost basis.
    pub cc_min_pct_above_basis: i64,
    /// A protective long put sits at most this fraction below the short strike.
    pub hedge_pct_below: i64,
    /// Skip spreads whose net credit per share is below this.
    pub hedge_min_credit: i64,
}

impl EngineConfig {
    /// The parameters that hold where nothing is configured.
    pub open spec fn standard() -> EngineConfig {
        EngineConfig {
            target_delta: 300_000,
            min_delta: 160_000,
            max_delta: 350_000,
            min_dte: 25,
            max_dte: 45,
            take_profit_pct: 500_000,
            roll_delta: 500_000,
            roll_dte: 21,
            min_annualized_yield: 200_000,
            min_open_interest: 100,
            min_premium: 50_000,
            risk_free_rate: 40_000,
            cc_min_pct_above_basis: 0,
            hedge_pct_below: 50_000,
            hedge_min_credit: 100_000,
        }
    }
}

impl Default for EngineConfig {
    fn default() -> (r: Self)
        ensures
            r == EngineConfig::standard(),
    {
        EngineConfig {
            target_delta: 300_000,
            min_delta: 160_000,
            max_delta: 350_000,
            min_dte: 25,
            max_dte: 45,
            take_profit_pct: 500_000,
            roll_delta: 500_000,
            roll_dte: 21,
            min_annualized_yield: 200_000,
            min_open_interest: 100,
            min_premium: 50_000,
            risk_free_rate: 40_000,
            cc_min_pct_above_basis: 0,
            hedge_pct_below: 50_000,
            hedge_min_credit: 100_000,
        }
    }
}

} // verus!

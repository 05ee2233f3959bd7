//! One planning pass over the watchlist with live data: which symbols are
//! advised on, with what budget, and what is left of the plan.

use vstd::prelude::*;
use crate::engine::types::{
    chain_wf, views, ActionKind, EngineConfig, OpenShortOption, OptionQuote, SharePosition,
    Suggestion, SuggestionView, UnderlyingQuote, WheelState,
};
use crate::engine::{all_wf, is_plan, plan, plan_hedged, rolls_fit, SymbolContext};
use crate::fixed::{is_price, max, min};
use crate::ibkr::{rows_wf, OpenOrderInfo, PositionRow};
use crate::positions::{
    collateral_of, deployed_put_collateral, expiries, read_expiries, reconcile_dated, reconciled,
    ReconciledPosition,
};
use crate::store::models::WatchlistRow;
use crate::text::{has_text, holds_text, own, same_text};

verus! {

// --- symbols in work -------------------------------------------------------

/// Whether a symbol has an order that is still working or a roll in flight:
/// among the open orders where they are known, else among the journal's
/// submitted orders; and in either case among the pending rolls.
pub open spec fn in_work(
    open: Option<Vec<OpenOrderInfo>>,
    journal: Seq<String>,
    pending: Seq<String>,
    symbol: Seq<char>,
) -> bool {
    ||| holds_text(pending, symbol)
    ||| match open {
        Some(orders) => exists|i: int|
            0 <= i < orders@.len() && (#[trigger] orders@[i]).symbol@ == symbol,
        None => holds_text(journal, symbol),
    }
}

fn push_all(out: &mut Vec<String>, more: &Vec<String>)
    ensures
        forall|s: Seq<char>| #[trigger]
            holds_text(final(out)@, s) <==> holds_text(old(out)@, s) || holds_text(more@, s),
{
    let ghost before = out@;
    let mut i: usize = 0;
    while i < more.len()
        invariant
            i <= more@.len(),
            out@.len() == before.len() + i,
            forall|k: int| 0 <= k < before.len() ==> #[trigger] out@[k] == before[k],
            forall|k: int| 0 <= k < i ==> out@[before.len() + k]@ == (#[trigger] more@[k])@,
        decreases more@.len() - i,
    {
        out.push(own(more[i].as_str()));
        i = i + 1;
    }
    proof {
        let after = out@;
        assert forall|s: Seq<char>| #[trigger]
            holds_text(after, s) <==> holds_text(before, s) || holds_text(more@, s) by {
            if holds_text(before, s) {
                let k = choose|k: int| 0 <= k < before.len() && (#[trigger] before[k])@ == s;
                assert(after[k]@ == s);
            }
            if holds_text(more@, s) {
                let k = choose|k: int| 0 <= k < more@.len() && (#[trigger] more@[k])@ == s;
                assert(after[before.len() + k]@ == s);
            }
            if holds_text(after, s) {
                let k = choose|k: int| 0 <= k < after.len() && (#[trigger] after[k])@ == s;
                if k < before.len() {
                    assert(before[k]@ == s);
                } else {
                    assert(more@[k - before.len()]@ == s);
                }
            }
        }
    }
}

/// The symbols that are left alone this pass, so that no second action is stacked
/// on one with an order or a roll in flight.
pub fn working_symbols(
    open: &Option<Vec<OpenOrderInfo>>,
    journal: &Vec<String>,
    pending: &Vec<String>,
) -> (r: Vec<String>)
    ensures
        forall|s: Seq<char>| #[trigger]
            holds_text(r@, s) <==> in_work(*open, journal@, pending@, s),
{
    let mut out: Vec<String> = Vec::new();
    assert(forall|s: Seq<char>| !holds_text(out@, s));
    match open {
        Some(orders) => {
            let mut i: usize = 0;
            while i < orders.len()
                invariant
                    i <= orders@.len(),
                    out@.len() == i,
                    forall|k: int| 0 <= k < i ==> (#[trigger] out@[k])@ == orders@[k].symbol@,
                decreases orders@.len() - i,
            {
                out.push(own(orders[i].symbol.as_str()));
                i = i + 1;
            }
            proof {
                assert forall|s: Seq<char>| #[trigger]
                    holds_text(out@, s) <==> exists|k: int|
                        0 <= k < orders@.len() && (#[trigger] orders@[k]).symbol@ == s by {
                    if holds_text(out@, s) {
                        let k = choose|k: int| 0 <= k < out@.len() && (#[trigger] out@[k])@ == s;
                        assert(orders@[k].symbol@ == s);
                    }
                    if exists|k: int|
                        0 <= k < orders@.len() && (#[trigger] orders@[k]).symbol@ == s {
                        let k = choose|k: int|
                            0 <= k < orders@.len() && (#[trigger] orders@[k]).symbol@ == s;
                        assert(out@[k]@ == s);
                    }
                }
            }
            push_all(&mut out, pending);
        },
        None => {
            push_all(&mut out, journal);
            push_all(&mut out, pending);
        },
    }
    out
}

// --- budget ----------------------------------------------------------------

/// How many of the first `n` watchlist symbols may open a position: enabled and
/// not blocked.
pub open spec fn open_count(watchlist: Seq<WatchlistRow>, n: int) -> int
    decreases n,
{
    if n <= 0 {
        0
    } else {
        open_count(watchlist, n - 1) + if watchlist[n - 1].on() && !watchlist[n - 1].blocked() {
            1int
        } else {
            0
        }
    }
}

/// What is left of the deployment cap after the collateral already tied up.
pub open spec fn remaining_cap(positions: Seq<PositionRow>, cap: int) -> int {
    max(cap - collateral_of(positions, positions.len() as int), 0)
}

/// The collateral budget of each symbol that may open a position: an even share
/// of what is left of the cap, rounded down to a millionth.
pub open spec fn entry_budget(
    watchlist: Seq<WatchlistRow>,
    positions: Seq<PositionRow>,
    cap: int,
) -> int {
    min(
        remaining_cap(positions, cap) / max(open_count(watchlist, watchlist.len() as int), 1),
        i64::MAX as int,
    )
}

/// The collateral budget of each symbol that may open a position this pass.
pub fn budget_for(watchlist: &Vec<WatchlistRow>, positions: &[PositionRow], cap: i64) -> (r: i64)
    requires
        rows_wf(positions@),
    ensures
        r == entry_budget(watchlist@, positions@, cap as int),
        r >= 0,
{
    let mut count: usize = 0;
    let mut i: usize = 0;
    while i < watchlist.len()
        invariant
            i <= watchlist@.len(),
            count <= i,
            count == open_count(watchlist@, i as int),
        decreases watchlist@.len() - i,
    {
        if watchlist[i].is_enabled() && !watchlist[i].is_blocked() {
            count = count + 1;
        }
        i = i + 1;
    }
    let shares: i128 = if count > 1 {
        count as i128
    } else {
        1
    };
    let left: i128 = cap as i128 - deployed_put_collateral(positions);
    let remaining: i128 = if left > 0 {
        left
    } else {
        0
    };
    let each: i128 = remaining / shares;
    proof {
        assert(each >= 0) by (nonlinear_arith)
            requires
                each == remaining as int / shares as int,
                remaining >= 0,
                shares >= 1,
        ;
    }
    if each > i64::MAX as i128 {
        i64::MAX
    } else {
        each as i64
    }
}

/// The cap is a ceiling on the whole: were every symbol that may open a position
/// to use its budget, the collateral would not exceed the cap (or, where more is
/// tied up already, nothing is left to open).
pub proof fn law_budgets_within_cap(
    watchlist: Seq<WatchlistRow>,
    positions: Seq<PositionRow>,
    cap: int,
)
    ensures
        open_count(watchlist, watchlist.len() as int) * entry_budget(watchlist, positions, cap)
            <= remaining_cap(positions, cap),
        cap >= collateral_of(positions, positions.len() as int) ==> collateral_of(
            positions,
            positions.len() as int,
        ) + open_count(watchlist, watchlist.len() as int) * entry_budget(
            watchlist,
            positions,
            cap,
        ) <= cap,
        cap <= collateral_of(positions, positions.len() as int) ==> entry_budget(
            watchlist,
            positions,
            cap,
        ) == 0,
{
    lemma_open_count(watchlist, watchlist.len() as int);
    let n = open_count(watchlist, watchlist.len() as int);
    let left = remaining_cap(positions, cap);
    let b = entry_budget(watchlist, positions, cap);
    let m = max(n, 1);
    assert(n * b <= left) by (nonlinear_arith)
        requires
            0 <= n <= m,
            m >= 1,
            left >= 0,
            b <= left / m,
            0 <= b,
    ;
}

proof fn lemma_open_count(watchlist: Seq<WatchlistRow>, n: int)
    ensures
        open_count(watchlist, n) >= 0,
    decreases n,
{
    if n > 0 {
        lemma_open_count(watchlist, n - 1);
    }
}

// --- which symbols to fetch ------------------------------------------------

/// Whether a state has an open short to manage.
pub open spec fn manages(state: WheelState) -> bool {
    state == WheelState::ShortPut || state == WheelState::HedgedShortPut || state
        == WheelState::ShortCall
}

/// Whether a watchlist symbol is advised on this pass: enabled, nothing of it in
/// work, and, where it is blocked, only to manage an open short.
pub open spec fn advised(w: WatchlistRow, working: Seq<String>, state: WheelState) -> bool {
    &&& w.on()
    &&& !holds_text(working, w.symbol@)
    &&& w.blocked() ==> manages(state)
}

/// A symbol whose market data is to be fetched: its watchlist row and the wheel
/// position its holdings show.
#[derive(Debug, Clone, Copy, PartialEq, Eq, Structural)]
pub struct FetchRequest {
    pub row: usize,
    pub position: ReconciledPosition,
}

/// The requests for the first `n` watchlist rows.
pub open spec fn requests(
    watchlist: Seq<WatchlistRow>,
    positions: Seq<PositionRow>,
    working: Seq<String>,
    n: int,
) -> Seq<FetchRequest>
    decreases n,
{
    if n <= 0 {
        Seq::empty()
    } else {
        let w = watchlist[n - 1];
        let at = reconciled(w.symbol@, positions, expiries(positions));
        let rest = requests(watchlist, positions, working, n - 1);
        if advised(w, working, at.state) {
            rest.push(FetchRequest { row: (n - 1) as usize, position: at })
        } else {
            rest
        }
    }
}

/// Which symbols to fetch market data for, each in the wheel leg its holdings put
/// it in.
pub fn fetch_requests(
    watchlist: &Vec<WatchlistRow>,
    positions: &[PositionRow],
    working: &Vec<String>,
) -> (r: Vec<FetchRequest>)
    requires
        rows_wf(positions@),
    ensures
        r@ == requests(watchlist@, positions@, working@, watchlist@.len() as int),
{
    let days = read_expiries(positions);
    let mut out: Vec<FetchRequest> = Vec::new();
    let mut i: usize = 0;
    while i < watchlist.len()
        invariant
            i <= watchlist@.len(),
            rows_wf(positions@),
            days@.len() == positions@.len(),
            crate::positions::day_list(days@) == expiries(positions@),
            out@ == requests(watchlist@, positions@, working@, i as int),
        decreases watchlist@.len() - i,
    {
        let w = &watchlist[i];
        let at = reconcile_dated(w.symbol.as_str(), positions, &days);
        if w.is_enabled() && !has_text(working, w.symbol.as_str()) && (!w.is_blocked() || matches!(
            at.state,
            WheelState::ShortPut | WheelState::HedgedShortPut | WheelState::ShortCall
        )) {
            out.push(FetchRequest { row: i, position: at });
        }
        i = i + 1;
    }
    out
}

/// A symbol with an order or a roll in flight is never advised on, and a blocked
/// one only to manage an open short.
pub proof fn law_never_stacked(
    watchlist: Seq<WatchlistRow>,
    positions: Seq<PositionRow>,
    working: Seq<String>,
    n: int,
    i: int,
)
    requires
        0 <= n <= watchlist.len() <= usize::MAX,
        0 <= i < requests(watchlist, positions, working, n).len(),
    ensures
        ({
            let r = requests(watchlist, positions, working, n)[i];
            let w = watchlist[r.row as int];
            &&& r.row < n
            &&& w.on()
            &&& !holds_text(working, w.symbol@)
            &&& w.blocked() ==> manages(r.position.state)
        }),
    decreases n,
{
    if n > 0 {
        let rest = requests(watchlist, positions, working, n - 1);
        if i < rest.len() {
            law_never_stacked(watchlist, positions, working, n - 1, i);
        }
    }
}

// --- planning --------------------------------------------------------------

/// The inputs of one symbol for a planning pass.
#[derive(Debug, Clone)]
pub struct SymbolInputs {
    pub symbol: String,
    pub state: WheelState,
    pub underlying: UnderlyingQuote,
    pub quotes: Vec<OptionQuote>,
    pub open_short: Option<(OpenShortOption, OptionQuote)>,
    pub shares: Option<SharePosition>,
    pub committed_call_contracts: i32,
    pub max_collateral: i64,
}

/// Makes the planning inputs of a symbol from what was fetched for it: a chain
/// where it is idle or holds shares, a quote of the open short where one is
/// managed. `None` without a spot price, and without a quote of the short.
pub fn symbol_inputs(
    symbol: &str,
    position: &ReconciledPosition,
    budget: i64,
    spot: i64,
    quotes: Vec<OptionQuote>,
    short_quote: Option<OptionQuote>,
) -> (r: Option<SymbolInputs>)
    ensures
        r is Some <==> spot > 0 && (manages(position.state) ==> position.open_short is Some
            && short_quote is Some),
        r is Some ==> ({
            let si = r->0;
            &&& si.symbol@ == symbol@
            &&& si.state == position.state
            &&& si.underlying.last == spot
            &&& (manages(position.state) ==> si.quotes@.len() == 0 && si.open_short == Some(
                (position.open_short->0, short_quote->0),
            ) && si.shares == position.shares && si.committed_call_contracts
                == position.committed_call_contracts && si.max_collateral == 0)
            &&& (position.state == WheelState::Idle ==> si.quotes == quotes && si.open_short is None
                && si.shares is None && si.committed_call_contracts == 0 && si.max_collateral
                == budget)
            &&& (position.state == WheelState::LongShares ==> si.quotes == quotes
                && si.open_short is None && si.shares == position.shares
                && si.committed_call_contracts == position.committed_call_contracts
                && si.max_collateral == 0)
        }),
{
    if spot <= 0 {
        return None;
    }
    let underlying = UnderlyingQuote { last: spot };
    match position.state {
        WheelState::Idle => Some(
            SymbolInputs {
                symbol: own(symbol),
                state: WheelState::Idle,
                underlying,
                quotes,
                open_short: None,
                shares: None,
                committed_call_contracts: 0,
                max_collateral: budget,
            },
        ),
        WheelState::LongShares => Some(
            SymbolInputs {
                symbol: own(symbol),
                state: WheelState::LongShares,
                underlying,
                quotes,
                open_short: None,
                shares: position.shares,
                committed_call_contracts: position.committed_call_contracts,
                max_collateral: 0,
            },
        ),
        WheelState::ShortPut | WheelState::HedgedShortPut | WheelState::ShortCall => {
            match (position.open_short, short_quote) {
                (Some(short), Some(quote)) => Some(
                    SymbolInputs {
                        symbol: own(symbol),
                        state: position.state,
                        underlying,
                        quotes: Vec::new(),
                        open_short: Some((short, quote)),
                        shares: position.shares,
                        committed_call_contracts: position.committed_call_contracts,
                        max_collateral: 0,
                    },
                ),
                _ => None,
            }
        },
    }
}

/// Whether `ctx` lays out the inputs `si` for the engine.
pub open spec fn lays_out(ctx: SymbolContext, si: SymbolInputs) -> bool {
    &&& ctx.symbol@ == si.symbol@
    &&& ctx.state == si.state
    &&& ctx.underlying == si.underlying
    &&& ctx.option_quotes@ == si.quotes@
    &&& ctx.open_short == si.open_short
    &&& ctx.shares == si.shares
    &&& ctx.committed_call_contracts == si.committed_call_contracts
    &&& ctx.max_collateral == si.max_collateral
}

impl SymbolInputs {
    /// Whether the amounts are in range and the free lots fit an order.
    pub open spec fn wf(self) -> bool {
        &&& is_price(self.underlying.last as int)
        &&& chain_wf(self.quotes@)
        &&& (self.open_short is Some ==> (self.open_short->0).0.wf() && (self.open_short->0).1.wf())
        &&& (self.shares is Some ==> crate::engine::covered_call::lots(
            (self.shares->0).shares as int,
        ) - self.committed_call_contracts <= i32::MAX)
    }
}

/// Whether a symbol is on the watchlist and blocked.
pub open spec fn is_blocked(watchlist: Seq<WatchlistRow>, symbol: Seq<char>) -> bool {
    exists|i: int|
        0 <= i < watchlist.len() && (#[trigger] watchlist[i]).symbol@ == symbol
            && watchlist[i].blocked()
}

/// Whether the tradability probe has marked a symbol blocked.
pub fn symbol_blocked(watchlist: &Vec<WatchlistRow>, symbol: &str) -> (r: bool)
    ensures
        r == is_blocked(watchlist@, symbol@),
{
    let mut i: usize = 0;
    while i < watchlist.len()
        invariant
            i <= watchlist@.len(),
            forall|k: int|
                0 <= k < i ==> !((#[trigger] watchlist@[k]).symbol@ == symbol@
                    && watchlist@[k].blocked()),
        decreases watchlist@.len() - i,
    {
        if same_text(watchlist[i].symbol.as_str(), symbol) && watchlist[i].is_blocked() {
            assert(watchlist@[i as int].symbol@ == symbol@ && watchlist@[i as int].blocked());
            return true;
        }
        i = i + 1;
    }
    false
}

/// Whether a suggestion stands: all but the roll of a blocked symbol, which would
/// open a leg that the account cannot take.
pub open spec fn stands(s: SuggestionView, watchlist: Seq<WatchlistRow>) -> bool {
    !(s.kind is Roll && is_blocked(watchlist, s.symbol))
}

/// The suggestions that stand, in order.
pub open spec fn standing(
    s: Seq<SuggestionView>,
    watchlist: Seq<WatchlistRow>,
) -> Seq<SuggestionView>
    decreases s.len(),
{
    if s.len() == 0 {
        s
    } else if stands(s.last(), watchlist) {
        standing(s.drop_last(), watchlist).push(s.last())
    } else {
        standing(s.drop_last(), watchlist)
    }
}

/// Drops the rolls of blocked symbols.
pub fn drop_blocked_rolls(list: Vec<Suggestion>, watchlist: &Vec<WatchlistRow>) -> (r: Vec<
    Suggestion,
>)
    ensures
        views(r@) == standing(views(list@), watchlist@),
        all_wf(list@) ==> all_wf(r@),
{
    let mut out: Vec<Suggestion> = Vec::new();
    let mut i: usize = 0;
    let ghost all = views(list@);
    assert(all.take(0) =~= Seq::empty());
    assert(views(out@) =~= Seq::empty());
    while i < list.len()
        invariant
            i <= list@.len(),
            all == views(list@),
            views(out@) == standing(all.take(i as int), watchlist@),
            all_wf(list@) ==> all_wf(out@),
        decreases list@.len() - i,
    {
        let s = &list[i];
        assert(all.take(i + 1).drop_last() =~= all.take(i as int));
        let rolls = matches!(s.kind, ActionKind::Roll { .. });
        if !(rolls && symbol_blocked(watchlist, s.symbol.as_str())) {
            let ghost before = views(out@);
            let ghost kept = out@;
            let c = s.copied();
            out.push(c);
            assert(views(out@) =~= before.push(c@));
            assert(all_wf(list@) ==> all_wf(out@));
        }
        i = i + 1;
    }
    assert(all.take(i as int) =~= all);
    out
}

fn lay_out<'a>(inputs: &'a Vec<SymbolInputs>) -> (r: Vec<SymbolContext<'a>>)
    ensures
        r@.len() == inputs@.len(),
        forall|i: int| 0 <= i < inputs@.len() ==> lays_out(#[trigger] r@[i], inputs@[i]),
{
    let mut out: Vec<SymbolContext<'a>> = Vec::new();
    let mut i: usize = 0;
    while i < inputs.len()
        invariant
            i <= inputs@.len(),
            out@.len() == i,
            forall|k: int| 0 <= k < i ==> lays_out(#[trigger] out@[k], inputs@[k]),
        decreases inputs@.len() - i,
    {
        let si = &inputs[i];
        out.push(
            SymbolContext {
                symbol: own(si.symbol.as_str()),
                state: si.state,
                underlying: si.underlying,
                option_quotes: si.quotes.as_slice(),
                open_short: si.open_short,
                shares: si.shares,
                committed_call_contracts: si.committed_call_contracts,
                max_collateral: si.max_collateral,
            },
        );
        i = i + 1;
    }
    out
}

/// Whether `list` is what stands of the plan over the given inputs.
pub open spec fn is_live_plan(
    inputs: Seq<SymbolInputs>,
    watchlist: Seq<WatchlistRow>,
    cfg: EngineConfig,
    today: int,
    hedged: bool,
    list: Seq<SuggestionView>,
) -> bool {
    exists|contexts: Seq<SymbolContext>, all: Seq<SuggestionView>|
        {
            &&& contexts.len() == inputs.len()
            &&& forall|i: int| 0 <= i < inputs.len() ==> lays_out(#[trigger] contexts[i], inputs[i])
            &&& #[trigger] is_plan(contexts, cfg, today, hedged, all)
            &&& list == standing(all, watchlist)
        }
}

/// The suggestions of both kinds over the fetched inputs: classic (cash-secured
/// puts) and hedged (put spreads), without the rolls of blocked symbols.
pub fn live_suggestions(
    inputs: &Vec<SymbolInputs>,
    watchlist: &Vec<WatchlistRow>,
    cfg: &EngineConfig,
    today: i32,
) -> (r: (Vec<Suggestion>, Vec<Suggestion>))
    requires
        forall|i: int|
            0 <= i < inputs@.len() ==> (#[trigger] inputs@[i]).wf() && rolls_fit(
                inputs@[i].state,
                inputs@[i].open_short,
                inputs@[i].underlying.last as int,
                *cfg,
                today as int,
            ),
    ensures
        is_live_plan(inputs@, watchlist@, *cfg, today as int, false, views(r.0@)),
        is_live_plan(inputs@, watchlist@, *cfg, today as int, true, views(r.1@)),
        all_wf(r.0@),
        all_wf(r.1@),
{
    let contexts = lay_out(inputs);
    assert forall|i: int| 0 <= i < contexts@.len() implies (#[trigger] contexts@[i]).wf()
        && contexts@[i].roll_fits(*cfg, today as int) by {
        assert(inputs@[i].wf());
    }
    let classic = plan(contexts.as_slice(), cfg, today).suggestions;
    let hedged = plan_hedged(contexts.as_slice(), cfg, today).suggestions;
    (drop_blocked_rolls(classic, watchlist), drop_blocked_rolls(hedged, watchlist))
}

/// A blocked symbol is never offered a roll.
pub proof fn law_blocked_never_rolled(
    s: Seq<SuggestionView>,
    watchlist: Seq<WatchlistRow>,
    i: int,
)
    requires
        0 <= i < standing(s, watchlist).len(),
    ensures
        standing(s, watchlist)[i].kind is Roll ==> !is_blocked(
            watchlist,
            standing(s, watchlist)[i].symbol,
        ),
    decreases s.len(),
{
    if s.len() > 0 {
        let rest = standing(s.drop_last(), watchlist);
        if i < rest.len() {
            law_blocked_never_rolled(s.drop_last(), watchlist, i);
        }
    }
}

} // verus!

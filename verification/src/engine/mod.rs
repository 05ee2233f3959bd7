//! The strategy engine: from market and account state to a ranked
//! [`ActionPlan`](types::ActionPlan).

pub mod covered_call;
pub mod csp;
pub mod laws;
pub mod manage;
pub mod math;
pub mod reason_laws;
pub mod structures;
pub mod types;

use vstd::prelude::*;
use crate::engine::covered_call::{cc_answer, cc_best, cc_suggestion, lots, select_covered_call};
use crate::engine::csp::{
    csp_answer, csp_best, csp_suggestion, hedge_of, select_csp, select_put_spread, spread_answer,
    spread_best, spread_suggestion,
};
use crate::engine::manage::{manage_answer, manage_short_option, roll_day_fits};
use crate::engine::types::{
    chain_wf, opt_view, views, ActionKind, ActionPlan, EngineConfig, KindView, OpenShortOption,
    OptionQuote, SharePosition, Suggestion, SuggestionView, UnderlyingQuote, WheelState,
};
use crate::fixed::is_price;

verus! {

/// Everything needed to advise on a single symbol for one planning pass.
pub struct SymbolContext<'a> {
    pub symbol: String,
    pub state: WheelState,
    pub underlying: UnderlyingQuote,
    /// Candidate chain for new entries.
    pub option_quotes: &'a [OptionQuote],
    /// The open short option and its current quote.
    pub open_short: Option<(OpenShortOption, OptionQuote)>,
    /// Held shares.
    pub shares: Option<SharePosition>,
    /// Calls already written against held shares.
    pub committed_call_contracts: i32,
    /// Most collateral to deploy on a new entry for this symbol.
    pub max_collateral: i64,
}

impl<'a> SymbolContext<'a> {
    /// Whether the amounts are in range and the free lots fit an order.
    pub open spec fn wf(&self) -> bool {
        &&& is_price(self.underlying.last as int)
        &&& chain_wf(self.option_quotes@)
        &&& (self.open_short is Some ==> (self.open_short->0).0.wf() && (self.open_short->0).1.wf())
        &&& (self.shares is Some ==> lots((self.shares->0).shares as int)
            - self.committed_call_contracts <= i32::MAX)
    }

    /// Whether a roll of this symbol, if there is one, leads to a day that can be
    /// numbered.
    pub open spec fn roll_fits(&self, cfg: EngineConfig, today: int) -> bool {
        rolls_fit(self.state, self.open_short, self.underlying.last as int, cfg, today)
    }
}

/// Whether the day to which an open short is rolled can be numbered, where it is
/// rolled at all.
pub open spec fn rolls_fit(
    state: WheelState,
    open_short: Option<(OpenShortOption, OptionQuote)>,
    spot: int,
    cfg: EngineConfig,
    today: int,
) -> bool {
    match state {
        WheelState::ShortPut | WheelState::HedgedShortPut | WheelState::ShortCall => match open_short {
            Some((pos, quote)) => roll_day_fits(pos, quote, spot, cfg, today),
            None => true,
        },
        _ => true,
    }
}

/// Whether `r` is the advice on one symbol: an entry where it is idle (a put
/// spread where `hedged`), management where a short is open, a covered call where
/// shares are held.
pub open spec fn is_advice(
    ctx: SymbolContext,
    cfg: EngineConfig,
    today: int,
    hedged: bool,
    r: Option<SuggestionView>,
) -> bool {
    match ctx.state {
        WheelState::Idle => if hedged {
            spread_answer(
                ctx.symbol@,
                ctx.underlying.last as int,
                ctx.option_quotes@,
                ctx.max_collateral as int,
                cfg,
                today,
                r,
            )
        } else {
            csp_answer(
                ctx.symbol@,
                ctx.underlying.last as int,
                ctx.option_quotes@,
                ctx.max_collateral as int,
                cfg,
                today,
                r,
            )
        },
        WheelState::ShortPut | WheelState::HedgedShortPut | WheelState::ShortCall => match ctx.open_short {
            Some((pos, quote)) => r == manage_answer(
                ctx.symbol@,
                pos,
                quote,
                ctx.underlying.last as int,
                cfg,
                today,
            ),
            None => r is None,
        },
        WheelState::LongShares => match ctx.shares {
            Some(shares) => cc_answer(
                ctx.symbol@,
                ctx.underlying.last as int,
                shares,
                ctx.committed_call_contracts as int,
                ctx.option_quotes@,
                cfg,
                today,
                r,
            ),
            None => r is None,
        },
    }
}

/// An optional suggestion as a list.
pub open spec fn as_list(r: Option<SuggestionView>) -> Seq<SuggestionView> {
    match r {
        Some(s) => seq![s],
        None => Seq::empty(),
    }
}

/// Advice on one symbol, by its wheel state.
pub fn plan_for_symbol(ctx: &SymbolContext, cfg: &EngineConfig, today: i32) -> (r: Vec<Suggestion>)
    requires
        ctx.wf(),
        ctx.roll_fits(*cfg, today as int),
    ensures
        exists|a: Option<SuggestionView>| #[trigger]
            is_advice(*ctx, *cfg, today as int, false, a) && views(r@) == as_list(a),
{
    let advice = plan_for_symbol_mode(ctx, cfg, today, false);
    let ghost a = opt_view(advice);
    let mut out: Vec<Suggestion> = Vec::new();
    if let Some(s) = advice {
        out.push(s);
    }
    assert(views(out@) =~= as_list(a));
    out
}

/// Advice on one symbol; `hedged` makes an entry a put credit spread in place of
/// a cash-secured put. Open positions are managed alike in both modes.
pub fn plan_for_symbol_mode(ctx: &SymbolContext, cfg: &EngineConfig, today: i32, hedged: bool) -> (r:
    Option<Suggestion>)
    requires
        ctx.wf(),
        ctx.roll_fits(*cfg, today as int),
    ensures
        is_advice(*ctx, *cfg, today as int, hedged, opt_view(r)),
        r is Some ==> (r->0)@.wf(),
{
    match ctx.state {
        WheelState::Idle => {
            if hedged {
                select_put_spread(
                    ctx.symbol.as_str(),
                    ctx.underlying,
                    ctx.option_quotes,
                    ctx.max_collateral,
                    cfg,
                    today,
                )
            } else {
                select_csp(
                    ctx.symbol.as_str(),
                    ctx.underlying,
                    ctx.option_quotes,
                    ctx.max_collateral,
                    cfg,
                    today,
                )
            }
        },
        WheelState::ShortPut | WheelState::HedgedShortPut | WheelState::ShortCall => {
            match &ctx.open_short {
                Some((pos, quote)) => manage_short_option(
                    ctx.symbol.as_str(),
                    pos,
                    quote,
                    ctx.underlying,
                    cfg,
                    today,
                ),
                None => None,
            }
        },
        WheelState::LongShares => {
            match ctx.shares {
                Some(shares) => select_covered_call(
                    ctx.symbol.as_str(),
                    ctx.underlying,
                    shares,
                    ctx.committed_call_contracts,
                    ctx.option_quotes,
                    cfg,
                    today,
                ),
                None => None,
            }
        },
    }
}

// --- ordering --------------------------------------------------------------

/// The urgency of an action; the lower, the sooner.
pub open spec fn priority(k: KindView) -> int {
    match k {
        KindView::CloseForProfit => 0,
        KindView::Roll { .. } => 1,
        _ => 2,
    }
}

/// The urgency of an action; the lower, the sooner.
pub fn kind_priority(k: &ActionKind) -> (r: u8)
    ensures
        r == priority(k@),
{
    match k {
        ActionKind::CloseForProfit => 0,
        ActionKind::Roll { .. } => 1,
        _ => 2,
    }
}

/// Whether `a` is listed before `b` whatever their order was: it is more urgent,
/// or as urgent and yields more.
pub open spec fn goes_before(a: SuggestionView, b: SuggestionView) -> bool {
    ||| priority(a.kind) < priority(b.kind)
    ||| priority(a.kind) == priority(b.kind) && a.annualized_yield > b.annualized_yield
}

/// `s` with `x` put behind everything that `x` does not go before.
pub open spec fn placed(s: Seq<SuggestionView>, x: SuggestionView) -> Seq<SuggestionView>
    decreases s.len(),
{
    if s.len() == 0 || !goes_before(x, s.last()) {
        s.push(x)
    } else {
        placed(s.drop_last(), x).push(s.last())
    }
}

/// `s` in listing order, equals kept in their order.
pub open spec fn ranked(s: Seq<SuggestionView>) -> Seq<SuggestionView>
    decreases s.len(),
{
    if s.len() == 0 {
        s
    } else {
        placed(ranked(s.drop_last()), s.last())
    }
}

/// Whether no suggestion of a list goes before an earlier one.
pub open spec fn in_order(s: Seq<SuggestionView>) -> bool {
    forall|i: int, j: int| 0 <= i < j < s.len() ==> !goes_before(#[trigger] s[j], #[trigger] s[i])
}

proof fn lemma_placed(s: Seq<SuggestionView>, x: SuggestionView)
    requires
        in_order(s),
    ensures
        in_order(placed(s, x)),
        placed(s, x).to_multiset() == s.to_multiset().insert(x),
        placed(s, x).len() == s.len() + 1,
        forall|y: SuggestionView|
            (forall|i: int| 0 <= i < s.len() ==> !goes_before(y, #[trigger] s[i])) && !goes_before(
                y,
                x,
            ) ==> forall|i: int|
                0 <= i < s.len() + 1 ==> !goes_before(y, #[trigger] placed(s, x)[i]),
    decreases s.len(),
{
    broadcast use vstd::seq_lib::group_to_multiset_ensures;

    if s.len() == 0 || !goes_before(x, s.last()) {
        assert forall|i: int, j: int| 0 <= i < j < s.push(x).len() implies !goes_before(
            #[trigger] s.push(x)[j],
            #[trigger] s.push(x)[i],
        ) by {
            if j == s.len() {
                if i < s.len() - 1 {
                    assert(!goes_before(s[s.len() - 1], s[i]));
                }
            }
        }
    } else {
        let t = s.drop_last();
        let l = s.last();
        assert forall|i: int, j: int| 0 <= i < j < t.len() implies !goes_before(
            #[trigger] t[j],
            #[trigger] t[i],
        ) by {
            assert(!goes_before(s[j], s[i]));
        }
        lemma_placed(t, x);
        assert forall|i: int| 0 <= i < t.len() implies !goes_before(l, #[trigger] t[i]) by {
            assert(!goes_before(s[s.len() - 1], s[i]));
        }
        assert(!goes_before(l, x));
        let p = placed(t, x);
        assert forall|i: int, j: int| 0 <= i < j < p.push(l).len() implies !goes_before(
            #[trigger] p.push(l)[j],
            #[trigger] p.push(l)[i],
        ) by {
            if j < p.len() {
                assert(!goes_before(p[j], p[i]));
            } else {
                assert(!goes_before(l, p[i]));
            }
        }
        assert(t.push(l) =~= s);
        assert(p.push(l).to_multiset() =~= s.to_multiset().insert(x));
        assert forall|y: SuggestionView|
            (forall|i: int| 0 <= i < s.len() ==> !goes_before(y, #[trigger] s[i])) && !goes_before(
                y,
                x,
            ) implies forall|i: int|
            0 <= i < s.len() + 1 ==> !goes_before(y, #[trigger] placed(s, x)[i]) by {
            assert forall|i: int| 0 <= i < t.len() implies !goes_before(y, #[trigger] t[i]) by {
                assert(!goes_before(y, s[i]));
            }
            assert(!goes_before(y, s[s.len() - 1]));
        }
    }
}

/// Listing order holds in a ranked list, and it holds what was ranked, no more
/// and no less.
pub proof fn law_ranked(s: Seq<SuggestionView>)
    ensures
        in_order(ranked(s)),
        ranked(s).to_multiset() == s.to_multiset(),
    decreases s.len(),
{
    broadcast use vstd::seq_lib::group_to_multiset_ensures;

    if s.len() > 0 {
        law_ranked(s.drop_last());
        lemma_placed(ranked(s.drop_last()), s.last());
        assert(s.drop_last().push(s.last()) =~= s);
    }
}

proof fn lemma_placed_inserts(s: Seq<SuggestionView>, x: SuggestionView, p: int)
    requires
        0 <= p <= s.len(),
        p > 0 ==> !goes_before(x, s[p - 1]),
        forall|i: int| p <= i < s.len() ==> goes_before(x, #[trigger] s[i]),
    ensures
        placed(s, x) == s.insert(p, x),
    decreases s.len(),
{
    if p == s.len() {
        assert(s.insert(p, x) =~= s.push(x));
    } else {
        let t = s.drop_last();
        lemma_placed_inserts(t, x, p);
        assert(goes_before(x, s[s.len() - 1]));
        assert(t.insert(p, x).push(s.last()) =~= s.insert(p, x));
    }
}

fn before(a: &Suggestion, b: &Suggestion) -> (r: bool)
    ensures
        r == goes_before(a@, b@),
{
    let (p, q) = (kind_priority(&a.kind), kind_priority(&b.kind));
    p < q || (p == q && a.annualized_yield > b.annualized_yield)
}

/// Puts a suggestion into a list in listing order.
pub fn place(list: &mut Vec<Suggestion>, s: Suggestion)
    ensures
        views(final(list)@) == placed(views(old(list)@), s@),
{
    let mut p: usize = list.len();
    while p > 0 && before(&s, &list[p - 1])
        invariant
            p <= list@.len(),
            list@ == old(list)@,
            forall|i: int| p <= i < list@.len() ==> goes_before(s@, #[trigger] views(list@)[i]),
        decreases p,
    {
        p = p - 1;
    }
    proof {
        lemma_placed_inserts(views(list@), s@, p as int);
        assert(views(list@.insert(p as int, s)) =~= views(list@).insert(p as int, s@));
    }
    list.insert(p, s);
}

// --- plans -----------------------------------------------------------------

/// The suggestions among `advice`, in order.
pub open spec fn given(advice: Seq<Option<SuggestionView>>) -> Seq<SuggestionView>
    decreases advice.len(),
{
    if advice.len() == 0 {
        Seq::empty()
    } else {
        given(advice.drop_last()) + as_list(advice.last())
    }
}

/// Whether `advice` holds the advice on each symbol.
pub open spec fn advises_each(
    contexts: Seq<SymbolContext>,
    cfg: EngineConfig,
    today: int,
    hedged: bool,
    advice: Seq<Option<SuggestionView>>,
) -> bool {
    &&& advice.len() == contexts.len()
    &&& forall|i: int|
        0 <= i < contexts.len() ==> is_advice(
            contexts[i],
            cfg,
            today,
            hedged,
            #[trigger] advice[i],
        )
}

/// Whether `plan` lists the advice on all symbols in listing order.
pub open spec fn is_plan(
    contexts: Seq<SymbolContext>,
    cfg: EngineConfig,
    today: int,
    hedged: bool,
    plan: Seq<SuggestionView>,
) -> bool {
    exists|advice: Seq<Option<SuggestionView>>| #[trigger]
        advises_each(contexts, cfg, today, hedged, advice) && plan == ranked(given(advice))
}

/// Whether every suggestion of a list is in range.
pub open spec fn all_wf(s: Seq<Suggestion>) -> bool {
    forall|i: int| 0 <= i < s.len() ==> (#[trigger] s[i])@.wf()
}

/// A plan across many symbols, management before new entries, then by yield;
/// entries are cash-secured puts.
pub fn plan(contexts: &[SymbolContext], cfg: &EngineConfig, today: i32) -> (r: ActionPlan)
    requires
        forall|i: int|
            0 <= i < contexts@.len() ==> (#[trigger] contexts@[i]).wf() && contexts@[i].roll_fits(
                *cfg,
                today as int,
            ),
    ensures
        is_plan(contexts@, *cfg, today as int, false, views(r.suggestions@)),
        all_wf(r.suggestions@),
{
    plan_with(contexts, cfg, today, false)
}

/// A plan whose entries are put credit spreads.
pub fn plan_hedged(contexts: &[SymbolContext], cfg: &EngineConfig, today: i32) -> (r: ActionPlan)
    requires
        forall|i: int|
            0 <= i < contexts@.len() ==> (#[trigger] contexts@[i]).wf() && contexts@[i].roll_fits(
                *cfg,
                today as int,
            ),
    ensures
        is_plan(contexts@, *cfg, today as int, true, views(r.suggestions@)),
        all_wf(r.suggestions@),
{
    plan_with(contexts, cfg, today, true)
}

pub proof fn lemma_all_wf_insert(s: Seq<Suggestion>, v: Seq<Suggestion>, x: SuggestionView)
    requires
        all_wf(s),
        x.wf(),
        views(v) == placed(views(s), x),
    ensures
        all_wf(v),
{
    lemma_placed_members(views(s), x);
    assert forall|i: int| 0 <= i < v.len() implies (#[trigger] v[i])@.wf() by {
        assert(views(v)[i] == v[i]@);
        let k = choose|k: int| 0 <= k < views(s).len() && views(s)[k] == placed(views(s), x)[i];
        if placed(views(s), x)[i] != x {
            assert(views(s)[k] == s[k]@);
        }
    }
}

proof fn lemma_placed_members(s: Seq<SuggestionView>, x: SuggestionView)
    ensures
        forall|i: int|
            0 <= i < placed(s, x).len() ==> #[trigger] placed(s, x)[i] == x || (exists|k: int|
                0 <= k < s.len() && s[k] == placed(s, x)[i]),
    decreases s.len(),
{
    if s.len() == 0 || !goes_before(x, s.last()) {
        assert forall|i: int| 0 <= i < placed(s, x).len() implies #[trigger] placed(s, x)[i] == x
            || (exists|k: int| 0 <= k < s.len() && s[k] == placed(s, x)[i]) by {
            if i < s.len() {
                assert(s[i] == placed(s, x)[i]);
            }
        }
    } else {
        let t = s.drop_last();
        lemma_placed_members(t, x);
        assert forall|i: int| 0 <= i < placed(s, x).len() implies #[trigger] placed(s, x)[i] == x
            || (exists|k: int| 0 <= k < s.len() && s[k] == placed(s, x)[i]) by {
            if i < placed(t, x).len() {
                assert(placed(s, x)[i] == placed(t, x)[i]);
                if placed(t, x)[i] != x {
                    let k = choose|k: int| 0 <= k < t.len() && t[k] == placed(t, x)[i];
                    assert(s[k] == placed(s, x)[i]);
                }
            } else {
                assert(s[s.len() - 1] == placed(s, x)[i]);
            }
        }
    }
}

fn plan_with(contexts: &[SymbolContext], cfg: &EngineConfig, today: i32, hedged: bool) -> (r:
    ActionPlan)
    requires
        forall|i: int|
            0 <= i < contexts@.len() ==> (#[trigger] contexts@[i]).wf() && contexts@[i].roll_fits(
                *cfg,
                today as int,
            ),
    ensures
        is_plan(contexts@, *cfg, today as int, hedged, views(r.suggestions@)),
        all_wf(r.suggestions@),
{
    let mut out: Vec<Suggestion> = Vec::new();
    let ghost mut advice: Seq<Option<SuggestionView>> = Seq::empty();
    let mut i: usize = 0;
    assert(views(out@) =~= ranked(given(advice)));
    while i < contexts.len()
        invariant
            i <= contexts@.len(),
            forall|k: int|
                0 <= k < contexts@.len() ==> (#[trigger] contexts@[k]).wf()
                    && contexts@[k].roll_fits(*cfg, today as int),
            advice.len() == i,
            forall|k: int|
                0 <= k < i ==> is_advice(
                    contexts@[k],
                    *cfg,
                    today as int,
                    hedged,
                    #[trigger] advice[k],
                ),
            views(out@) == ranked(given(advice)),
            all_wf(out@),
        decreases contexts@.len() - i,
    {
        let one = plan_for_symbol_mode(&contexts[i], cfg, today, hedged);
        proof {
            let next = advice.push(opt_view(one));
            assert(next.drop_last() =~= advice);
            assert(next.last() == opt_view(one));
            advice = next;
        }
        match one {
            Some(s) => {
                let ghost before_views = views(out@);
                let ghost before = out@;
                proof {
                    let all = given(advice);
                    assert(all =~= given(advice.drop_last()).push(s@));
                    assert(all.drop_last() =~= given(advice.drop_last()));
                }
                place(&mut out, s);
                proof {
                    lemma_all_wf_insert(before, out@, s@);
                }
            },
            None => {
                assert(given(advice) =~= given(advice.drop_last()));
            },
        }
        i = i + 1;
    }
    assert(advises_each(contexts@, *cfg, today as int, hedged, advice));
    ActionPlan { suggestions: out }
}

/// In a plan every close comes before every roll and every roll before every new
/// entry, and of two equally urgent actions the one with the higher yield is first.
pub proof fn law_management_first(
    contexts: Seq<SymbolContext>,
    cfg: EngineConfig,
    today: int,
    hedged: bool,
    plan: Seq<SuggestionView>,
)
    requires
        is_plan(contexts, cfg, today, hedged, plan),
    ensures
        forall|i: int, j: int|
            0 <= i < j < plan.len() ==> {
                &&& priority((#[trigger] plan[i]).kind) <= priority((#[trigger] plan[j]).kind)
                &&& priority(plan[i].kind) == priority(plan[j].kind) ==> plan[i].annualized_yield
                    >= plan[j].annualized_yield
            },
{
    let advice = choose|advice: Seq<Option<SuggestionView>>| #[trigger]
        advises_each(contexts, cfg, today, hedged, advice) && plan == ranked(given(advice));
    law_ranked(given(advice));
    assert forall|i: int, j: int| 0 <= i < j < plan.len() implies {
        &&& priority((#[trigger] plan[i]).kind) <= priority((#[trigger] plan[j]).kind)
        &&& priority(plan[i].kind) == priority(plan[j].kind) ==> plan[i].annualized_yield
            >= plan[j].annualized_yield
    } by {
        assert(!goes_before(plan[j], plan[i]));
    }
}

// --- ties ------------------------------------------------------------------

/// The suggestions of a list that have the given urgency and yield, in order.
pub open spec fn of_rank(s: Seq<SuggestionView>, urgency: int, yield_on_capital: int) -> Seq<
    SuggestionView,
>
    decreases s.len(),
{
    if s.len() == 0 {
        s
    } else {
        let rest = of_rank(s.drop_last(), urgency, yield_on_capital);
        if has_rank(s.last(), urgency, yield_on_capital) {
            rest.push(s.last())
        } else {
            rest
        }
    }
}

/// Whether a suggestion has the given urgency and yield.
pub open spec fn has_rank(x: SuggestionView, urgency: int, yield_on_capital: int) -> bool {
    priority(x.kind) == urgency && x.annualized_yield == yield_on_capital
}

proof fn lemma_placed_keeps_ties(s: Seq<SuggestionView>, x: SuggestionView, u: int, y: int)
    ensures
        of_rank(placed(s, x), u, y) == of_rank(s.push(x), u, y),
    decreases s.len(),
{
    assert(s.push(x).drop_last() =~= s);
    if s.len() > 0 && goes_before(x, s.last()) {
        let t = s.drop_last();
        lemma_placed_keeps_ties(t, x, u, y);
        assert(t.push(x).drop_last() =~= t);
        assert(placed(s, x).drop_last() =~= placed(t, x));
        assert(placed(s, x).last() == s.last());
        assert(t.push(x).last() == x && s.push(x).last() == x);
        assert(of_rank(t.push(x), u, y) == (if has_rank(x, u, y) {
            of_rank(t, u, y).push(x)
        } else {
            of_rank(t, u, y)
        }));
        assert(of_rank(s, u, y) == (if has_rank(s.last(), u, y) {
            of_rank(t, u, y).push(s.last())
        } else {
            of_rank(t, u, y)
        }));
        assert(of_rank(placed(s, x), u, y) == (if has_rank(s.last(), u, y) {
            of_rank(placed(t, x), u, y).push(s.last())
        } else {
            of_rank(placed(t, x), u, y)
        }));
        assert(!(has_rank(x, u, y) && has_rank(s.last(), u, y)));
    }
}

/// Suggestions of equal rank stay in the order in which they were given.
pub proof fn law_ties_keep_order(s: Seq<SuggestionView>, urgency: int, yield_on_capital: int)
    ensures
        of_rank(ranked(s), urgency, yield_on_capital) == of_rank(s, urgency, yield_on_capital),
    decreases s.len(),
{
    if s.len() > 0 {
        let t = s.drop_last();
        law_ties_keep_order(t, urgency, yield_on_capital);
        lemma_placed_keeps_ties(ranked(t), s.last(), urgency, yield_on_capital);
        assert(ranked(t).push(s.last()).drop_last() =~= ranked(t));
        assert(t.push(s.last()) =~= s);
    }
}

/// There is one advice on a symbol, no second.
pub proof fn law_advice_unique(
    ctx: SymbolContext,
    cfg: EngineConfig,
    today: int,
    hedged: bool,
    a: Option<SuggestionView>,
    b: Option<SuggestionView>,
)
    requires
        is_advice(ctx, cfg, today, hedged, a),
        is_advice(ctx, cfg, today, hedged, b),
    ensures
        a == b,
{
    let (q, spot) = (ctx.option_quotes@, ctx.underlying.last as int);
    let (n, m) = (q.len() as int, ctx.max_collateral as int);
    if a is Some && b is Some {
        match ctx.state {
            WheelState::Idle => if hedged {
                let i = choose|i: int|
                    #[trigger] spread_best(q, n, spot, m, cfg, today, i) && a->0
                        == spread_suggestion(
                        ctx.symbol@,
                        q[i],
                        q[hedge_of(q, q[i], cfg)],
                        spot,
                        m,
                        today,
                    );
                let j = choose|i: int|
                    #[trigger] spread_best(q, n, spot, m, cfg, today, i) && b->0
                        == spread_suggestion(
                        ctx.symbol@,
                        q[i],
                        q[hedge_of(q, q[i], cfg)],
                        spot,
                        m,
                        today,
                    );
                assert(spread_best(q, n, spot, m, cfg, today, i));
                assert(spread_best(q, n, spot, m, cfg, today, j));
                assert(i == j);
            } else {
                let i = choose|i: int|
                    #[trigger] csp_best(q, spot, m, cfg, today, i) && a->0
                        == csp_suggestion(ctx.symbol@, q[i], spot, m, today);
                let j = choose|i: int|
                    #[trigger] csp_best(q, spot, m, cfg, today, i) && b->0
                        == csp_suggestion(ctx.symbol@, q[i], spot, m, today);
                assert(csp_best(q, spot, m, cfg, today, i));
                assert(csp_best(q, spot, m, cfg, today, j));
                assert(i == j);
            },
            WheelState::LongShares => if ctx.shares is Some {
                let basis = (ctx.shares->0).cost_basis as int;
                let free = lots((ctx.shares->0).shares as int) - ctx.committed_call_contracts;
                let i = choose|i: int|
                    #[trigger] cc_best(q, n, spot, basis, cfg, today, i) && a->0
                        == cc_suggestion(
                        ctx.symbol@,
                        q[i],
                        spot,
                        basis,
                        free,
                        today,
                    );
                let j = choose|i: int|
                    #[trigger] cc_best(q, n, spot, basis, cfg, today, i) && b->0
                        == cc_suggestion(
                        ctx.symbol@,
                        q[i],
                        spot,
                        basis,
                        free,
                        today,
                    );
                assert(cc_best(q, n, spot, basis, cfg, today, i));
                assert(cc_best(q, n, spot, basis, cfg, today, j));
                assert(i == j);
            },
            _ => {},
        }
    }
}

/// A plan lists the advice on all symbols, no more and no less, in listing order;
/// what is of equal rank stands in the order of its symbols.
pub proof fn law_plan_lists_advice(
    contexts: Seq<SymbolContext>,
    cfg: EngineConfig,
    today: int,
    hedged: bool,
    plan: Seq<SuggestionView>,
    advice: Seq<Option<SuggestionView>>,
)
    requires
        is_plan(contexts, cfg, today, hedged, plan),
        advises_each(contexts, cfg, today, hedged, advice),
    ensures
        plan.to_multiset() == given(advice).to_multiset(),
        in_order(plan),
        forall|u: int, y: int| #[trigger] of_rank(plan, u, y) == of_rank(given(advice), u, y),
{
    let other = choose|other: Seq<Option<SuggestionView>>| #[trigger]
        advises_each(contexts, cfg, today, hedged, other) && plan == ranked(given(other));
    assert forall|i: int| 0 <= i < contexts.len() implies #[trigger] advice[i] == other[i] by {
        law_advice_unique(contexts[i], cfg, today, hedged, advice[i], other[i]);
    }
    assert(advice =~= other);
    law_ranked(given(advice));
    assert forall|u: int, y: int| #[trigger]
        of_rank(plan, u, y) == of_rank(given(advice), u, y) by {
        law_ties_keep_order(given(advice), u, y);
    }
}

// --- the two modes ---------------------------------------------------------

/// Whether an action belongs to a mode: no bare put where entries are hedged, no
/// put spread where they are not.
pub open spec fn suits(k: KindView, hedged: bool) -> bool {
    if hedged {
        !(k is SellPut)
    } else {
        !(k is SellPutSpread)
    }
}

/// Whether every action of a list belongs to a mode.
pub open spec fn all_suit(s: Seq<SuggestionView>, hedged: bool) -> bool {
    forall|i: int| 0 <= i < s.len() ==> suits((#[trigger] s[i]).kind, hedged)
}

proof fn lemma_ranked_suits(s: Seq<SuggestionView>, hedged: bool)
    requires
        all_suit(s, hedged),
    ensures
        all_suit(ranked(s), hedged),
    decreases s.len(),
{
    if s.len() > 0 {
        let t = s.drop_last();
        assert forall|i: int| 0 <= i < t.len() implies suits((#[trigger] t[i]).kind, hedged) by {
            assert(t[i] == s[i]);
        }
        lemma_ranked_suits(t, hedged);
        let (r, x) = (ranked(t), s.last());
        assert(suits(s[s.len() - 1].kind, hedged));
        lemma_placed_members(r, x);
        assert forall|i: int| 0 <= i < placed(r, x).len() implies suits(
            (#[trigger] placed(r, x)[i]).kind,
            hedged,
        ) by {
            if placed(r, x)[i] != x {
                let k = choose|k: int| 0 <= k < r.len() && r[k] == placed(r, x)[i];
                assert(suits(r[k].kind, hedged));
            }
        }
    }
}

proof fn lemma_given_suits(
    contexts: Seq<SymbolContext>,
    cfg: EngineConfig,
    today: int,
    hedged: bool,
    advice: Seq<Option<SuggestionView>>,
    n: int,
)
    requires
        advises_each(contexts, cfg, today, hedged, advice),
        0 <= n <= advice.len(),
    ensures
        all_suit(given(advice.take(n)), hedged),
    decreases n,
{
    if n > 0 {
        lemma_given_suits(contexts, cfg, today, hedged, advice, n - 1);
        let t = advice.take(n);
        assert(t.drop_last() =~= advice.take(n - 1));
        assert(t.last() == advice[n - 1]);
        let front = given(advice.take(n - 1));
        assert(is_advice(contexts[n - 1], cfg, today, hedged, advice[n - 1]));
        assert forall|i: int| 0 <= i < given(t).len() implies suits(
            (#[trigger] given(t)[i]).kind,
            hedged,
        ) by {
            if i < front.len() {
                assert(given(t)[i] == front[i]);
            } else {
                assert(given(t)[i] == advice[n - 1]->0);
            }
        }
    }
}

/// A hedged plan holds no bare short put and a classic one no put spread. Where no
/// symbol is idle the two are the same: open positions are managed and calls are
/// written alike.
pub proof fn law_modes_differ_in_entries_only(
    contexts: Seq<SymbolContext>,
    cfg: EngineConfig,
    today: int,
    classic: Seq<SuggestionView>,
    hedged: Seq<SuggestionView>,
)
    requires
        is_plan(contexts, cfg, today, false, classic),
        is_plan(contexts, cfg, today, true, hedged),
    ensures
        forall|i: int| 0 <= i < classic.len() ==> !((#[trigger] classic[i]).kind is SellPutSpread),
        forall|i: int| 0 <= i < hedged.len() ==> !((#[trigger] hedged[i]).kind is SellPut),
        (forall|i: int| 0 <= i < contexts.len() ==> (#[trigger] contexts[i]).state != WheelState::Idle)
            ==> classic == hedged,
{
    let a = choose|a: Seq<Option<SuggestionView>>| #[trigger]
        advises_each(contexts, cfg, today, false, a) && classic == ranked(given(a));
    let b = choose|b: Seq<Option<SuggestionView>>| #[trigger]
        advises_each(contexts, cfg, today, true, b) && hedged == ranked(given(b));
    lemma_given_suits(contexts, cfg, today, false, a, a.len() as int);
    lemma_given_suits(contexts, cfg, today, true, b, b.len() as int);
    assert(a.take(a.len() as int) =~= a);
    assert(b.take(b.len() as int) =~= b);
    lemma_ranked_suits(given(a), false);
    lemma_ranked_suits(given(b), true);
    assert forall|i: int| 0 <= i < classic.len() implies !((
    #[trigger] classic[i]).kind is SellPutSpread) by {
        assert(suits(classic[i].kind, false));
    }
    assert forall|i: int| 0 <= i < hedged.len() implies !((#[trigger] hedged[i]).kind is SellPut) by {
        assert(suits(hedged[i].kind, true));
    }
    if forall|i: int| 0 <= i < contexts.len() ==> (#[trigger] contexts[i]).state != WheelState::Idle {
        assert forall|i: int| 0 <= i < contexts.len() implies #[trigger] a[i] == b[i] by {
            assert(contexts[i].state != WheelState::Idle);
            assert(is_advice(contexts[i], cfg, today, false, a[i]));
            assert(is_advice(contexts[i], cfg, today, true, b[i]));
            law_advice_unique(contexts[i], cfg, today, false, a[i], b[i]);
        }
        assert(a =~= b);
    }
}

} // verus!

//! What is made of the broker's replies, in the entries of the replies.

use vstd::prelude::*;
use crate::decimal::{decimal_value, is_digit};
use crate::ibkr::auth::form_of;
use crate::ibkr::client::{
    account_in, amounts_in, are_matches, are_positions, field_of, snapshot_item, token_secs,
    unslashed, whole_part_of,
};
use crate::ibkr::json::{
    denotes, entry_from, json_entries, json_items, json_level, Json, JsonEntry,
};
use crate::ibkr::models::{
    has_point, lenient, loose_number, money_below, money_here, money_in, number_chars, resolved,
    word, word_here, word_in, ContractMatch, PositionRow,
};
use crate::ibkr::{
    comp_after, event_of, failure_hint, last_after, notices_after, EventView, OptionComputation,
    OrderUpdate, Tick,
};
use crate::text::{contains_text, lower_text};

verus! {

// --- sessions --------------------------------------------------------------

/// A token is used for a minute less than it holds, an hour where that is not said, and
/// at least half a minute.
pub proof fn law_token_use(expires_in: Option<u64>)
    ensures
        expires_in is None ==> token_secs(expires_in) == 3_540,
        expires_in is Some && expires_in->0 >= 90 ==> token_secs(expires_in) + 60 == expires_in->0,
        expires_in is Some && expires_in->0 < 90 ==> token_secs(expires_in) == 30,
{
}

/// An address loses the slashes at its end and nothing else.
pub proof fn law_unslashed(s: Seq<char>)
    ensures
        ({
            let r = unslashed(s);
            &&& r.len() <= s.len()
            &&& s.take(r.len() as int) == r
            &&& forall|i: int| r.len() <= i < s.len() ==> #[trigger] s[i] == '/'
            &&& r.len() > 0 ==> r.last() != '/'
        }),
    decreases s.len(),
{
    if s.len() > 0 && s.last() == '/' {
        let t = s.drop_last();
        law_unslashed(t);
        let r = unslashed(s);
        assert(s.take(r.len() as int) =~= t.take(r.len() as int));
        assert forall|i: int| r.len() <= i < s.len() implies #[trigger] s[i] == '/' by {
            if i < t.len() {
                assert(t[i] == '/');
            }
        }
    } else {
        assert(s.take(s.len() as int) =~= s);
    }
}

/// An object holds under a key what its first entry with that key does, and nothing where
/// no entry has it.
pub proof fn law_entry(entries: Seq<JsonEntry>, key: Seq<char>, i: int, from: int)
    requires
        0 <= from <= i <= entries.len(),
        forall|j: int| from <= j < i ==> (#[trigger] entries[j]).key@ != key,
        i < entries.len() ==> entries[i].key@ == key,
    ensures
        i < entries.len() ==> entry_from(entries, key, from) == Some(entries[i].value),
        i == entries.len() ==> entry_from(entries, key, from) is None,
    decreases i - from,
{
    if from < i {
        law_entry(entries, key, i, from + 1);
    }
}

/// The account is the selected one where that is a text, and else the first of the
/// accounts, where that is one.
pub proof fn law_account(v: Json)
    ensures
        ({
            let chosen = v.at("selectedAccount"@);
            let all = v.at("accounts"@);
            &&& chosen is Some && chosen->0 is Text ==> account_in(v) == Some(
                chosen->0->Text_0@,
            )
            &&& !(chosen is Some && chosen->0 is Text) && all is Some && all->0 is List
                && all->0->List_0@.len() > 0 && all->0->List_0@[0] is Text ==> account_in(v)
                == Some(all->0->List_0@[0]->Text_0@)
            &&& !(chosen is Some && chosen->0 is Text) && (all is None || !(all->0 is List)
                || all->0->List_0@.len() == 0) ==> account_in(v) is None
        }),
{
}

// --- amounts ---------------------------------------------------------------

/// What a further character adds to a number: a digit always, a point where there was
/// none, a minus sign only in front; anything else is passed over.
pub proof fn law_number_chars(s: Seq<char>, c: char)
    ensures
        ({
            let k = number_chars(s);
            let more = number_chars(s.push(c));
            let dotted = exists|i: int| 0 <= i < k.len() && #[trigger] k[i] == '.';
            &&& number_chars(Seq::empty()) == Seq::<char>::empty()
            &&& '0' <= c && c <= '9' ==> more == k.push(c)
            &&& c == '.' && !dotted ==> more == k.push(c)
            &&& c == '.' && dotted ==> more == k
            &&& c == '-' && k.len() == 0 ==> more == k.push(c)
            &&& c == '-' && k.len() > 0 ==> more == k
            &&& !('0' <= c && c <= '9') && c != '.' && c != '-' ==> more == k
        }),
{
    assert(s.push(c).drop_last() =~= s);
    assert(s.push(c).last() == c);
    assert(has_point(number_chars(s)) == exists|i: int|
        0 <= i < number_chars(s).len() && #[trigger] number_chars(s)[i] == '.');
    assert(is_digit(c) == ('0' <= c && c <= '9'));
}

/// A number is its amount and a text is the number in it; an object is what it holds as
/// its value, or else as its amount; nothing else is an amount.
pub proof fn law_amount(v: Json)
    ensures
        v is Number && v->Number_0.amount is Some ==> lenient(v) == Some(
            v->Number_0.amount->0 as int,
        ),
        v is Number && v->Number_0.amount is None ==> lenient(v) is None,
        v is Text ==> lenient(v) == decimal_value(
            number_chars(crate::text::trim_text(v->Text_0@)),
        ),
        !(v is Number || v is Text) ==> lenient(v) is None,
        !(v is Object) ==> resolved(v) == lenient(v),
        v is Object && v.at("value"@) is Some ==> resolved(v) == lenient(v.at("value"@)->0),
        v is Object && v.at("value"@) is None && v.at("amount"@) is Some ==> resolved(v) == lenient(
            v.at("amount"@)->0,
        ),
        v is Object && v.at("value"@) is None && v.at("amount"@) is None ==> resolved(v) is None,
{
}

/// The whole part of an amount drops what is behind the point, toward zero.
pub proof fn law_whole_part(x: int)
    ensures
        ({
            let w = whole_part_of(Some(x));
            &&& w is Some
            &&& x >= 0 ==> w->0 * 1_000_000 <= x < (w->0 + 1) * 1_000_000
            &&& x < 0 ==> (w->0 - 1) * 1_000_000 < x <= w->0 * 1_000_000
            &&& whole_part_of(None) is None
        }),
{
}

/// What a further item adds to the amounts of a list: its amount, where it is one.
pub proof fn law_amounts(items: Seq<Json>, v: Json)
    ensures
        amounts_in(Seq::empty()) == Seq::<int>::empty(),
        lenient(v) is Some ==> amounts_in(items.push(v)) == amounts_in(items).push(lenient(v)->0),
        lenient(v) is None ==> amounts_in(items.push(v)) == amounts_in(items),
{
    assert(items.push(v).drop_last() =~= items);
}

// --- rows ------------------------------------------------------------------

/// The amount under the first of two keys that is there, 0 where neither holds one.
pub open spec fn amount_under(p: Json, key: Seq<char>, other: Seq<char>) -> int {
    let v = if p.at(key) is Some {
        p.at(key)
    } else {
        p.at(other)
    };
    if v is Some && lenient(v->0) is Some {
        lenient(v->0)->0
    } else {
        0
    }
}

/// The text under the first of two keys that is there, `none` where it is no text.
pub open spec fn text_under(
    p: Json,
    key: Seq<char>,
    other: Seq<char>,
    none: Seq<char>,
) -> Seq<char> {
    let v = if p.at(key) is Some {
        p.at(key)
    } else {
        p.at(other)
    };
    if v is Some && v->0 is Text {
        v->0->Text_0@
    } else {
        none
    }
}

/// What a further item adds to the positions: one row, where it names a contract by a
/// whole number, with its symbol, size, cost, price, value and profit; otherwise none.
pub proof fn law_position_row(rows: Seq<PositionRow>, items: Seq<Json>, p: Json)
    requires
        are_positions(rows, items.push(p)),
    ensures
        ({
            let id = p.at("conid"@);
            let named = id is Some && id->0 is Number && id->0->Number_0.whole is Some;
            &&& !named ==> are_positions(rows, items)
            &&& named ==> rows.len() > 0 && are_positions(rows.drop_last(), items) && {
                let r = rows.last();
                &&& r.conid == id->0->Number_0.whole->0
                &&& r.symbol@ == text_under(p, "ticker"@, "contractDesc"@, ""@)
                &&& r.asset_class@ == text_under(p, "assetClass"@, "assetClass"@, ""@)
                &&& r.position == amount_under(p, "position"@, "position"@)
                &&& r.avg_price == amount_under(p, "avgPrice"@, "avgCost"@)
                &&& r.mkt_price == amount_under(p, "mktPrice"@, "mktPrice"@)
                &&& r.mkt_value == amount_under(p, "mktValue"@, "mktValue"@)
                &&& r.unrealized_pnl == amount_under(p, "unrealizedPnl"@, "unrealizedPnl"@)
            }
        }),
{
    assert(items.push(p).drop_last() =~= items);
    assert(items.push(p).last() == p);
}

/// What a further item adds to the contracts that were found: one, where it names a
/// contract, and otherwise none.
pub proof fn law_found_contract(
    found: Seq<ContractMatch>,
    items: Seq<Json>,
    m: Json,
    symbol: Seq<char>,
)
    requires
        are_matches(found, items.push(m), symbol),
    ensures
        ({
            let id = m.at("conid"@);
            let named = id is Some && id->0.long() is Some;
            &&& !named ==> are_matches(found, items, symbol)
            &&& named ==> found.len() > 0 && are_matches(found.drop_last(), items, symbol) && {
                let c = found.last();
                &&& c.conid == id->0.long()->0
                &&& c.symbol@ == text_under(m, "symbol"@, "symbol"@, symbol)
                &&& c.description@ == text_under(m, "description"@, "companyHeader"@, ""@)
                &&& c.sec_type@ == text_under(m, "secType"@, "secType"@, "STK"@)
            }
        }),
{
    assert(items.push(m).drop_last() =~= items);
    assert(items.push(m).last() == m);
}

proof fn lemma_item_about(items: Seq<Json>, conid: int, i: int, from: int)
    requires
        0 <= from <= i <= items.len(),
        forall|j: int|
            from <= j < i ==> crate::ibkr::client::conid_in(#[trigger] items[j]) != Some(conid),
        i < items.len() ==> crate::ibkr::client::conid_in(items[i]) == Some(conid),
    ensures
        crate::ibkr::client::item_about(items, conid, from) == (if i < items.len() {
            Some(items[i])
        } else {
            None
        }),
    decreases i - from,
{
    if from < i {
        lemma_item_about(items, conid, i, from + 1);
    }
}

/// Whether an item is about the contract.
pub open spec fn is_about(v: Json, conid: int) -> bool {
    v.at("conid"@) is Some && v.at("conid"@)->0.long() == Some(conid)
}

/// A snapshot is read from the first item about the contract, and from the first of all
/// where none is.
pub proof fn law_snapshot_item(items: Seq<Json>, conid: int, i: int)
    requires
        0 <= i <= items.len(),
        forall|j: int| 0 <= j < i ==> !is_about(#[trigger] items[j], conid),
        i < items.len() ==> is_about(items[i], conid),
    ensures
        i < items.len() ==> snapshot_item(items, conid) == Some(items[i]),
        i == items.len() && items.len() > 0 ==> snapshot_item(items, conid) == Some(items[0]),
        items.len() == 0 ==> snapshot_item(items, conid) is None,
{
    assert forall|j: int| 0 <= j < i implies crate::ibkr::client::conid_in(#[trigger] items[j])
        != Some(conid) by {
        assert(!is_about(items[j], conid));
    }
    lemma_item_about(items, conid, i, 0);
}

// --- balances and words ----------------------------------------------------

/// Whether the key of an entry holds `needle`, in any case, and its value is an amount.
pub open spec fn holds_money(e: JsonEntry, needle: Seq<char>) -> bool {
    contains_text(lower_text(e.key@), needle) && resolved(e.value) is Some
}

/// Whether the key of an entry holds `needle`, in any case, and its value is a text or a
/// number.
pub open spec fn holds_word(e: JsonEntry, needle: Seq<char>) -> bool {
    contains_text(lower_text(e.key@), needle) && (e.value is Text || e.value is Number)
}

proof fn lemma_money_here(m: Seq<JsonEntry>, needle: Seq<char>, i: int, from: int)
    requires
        0 <= from <= i <= m.len(),
        forall|j: int| from <= j < i ==> !holds_money(#[trigger] m[j], needle),
        i < m.len() ==> holds_money(m[i], needle),
    ensures
        i < m.len() ==> money_here(m, needle, from) == resolved(m[i].value),
        i == m.len() ==> money_here(m, needle, from) is None,
    decreases i - from,
{
    if from < i {
        assert(!holds_money(m[from], needle));
        lemma_money_here(m, needle, i, from + 1);
    }
}

proof fn lemma_word_here(m: Seq<JsonEntry>, needle: Seq<char>, i: int, from: int)
    requires
        0 <= from <= i <= m.len(),
        forall|j: int| from <= j < i ==> !holds_word(#[trigger] m[j], needle),
        i < m.len() ==> holds_word(m[i], needle),
    ensures
        i < m.len() ==> word_here(m, needle, from) == word(m[i].value),
        i == m.len() ==> word_here(m, needle, from) is None,
    decreases i - from,
{
    if from < i {
        assert(!holds_word(m[from], needle));
        lemma_word_here(m, needle, i, from + 1);
    }
}

/// A balance is that of the first entry here whose key holds the name and whose value is
/// an amount; a word likewise.
pub proof fn law_named_here(v: Json, needle: Seq<char>, i: int, k: int)
    requires
        v is Object,
        0 <= i <= v->Object_0@.len(),
        forall|j: int| 0 <= j < i ==> !holds_money(#[trigger] v->Object_0@[j], needle),
        i < v->Object_0@.len() ==> holds_money(v->Object_0@[i], needle),
        0 <= k <= v->Object_0@.len(),
        forall|j: int| 0 <= j < k ==> !holds_word(#[trigger] v->Object_0@[j], needle),
        k < v->Object_0@.len() ==> holds_word(v->Object_0@[k], needle),
    ensures
        ({
            let m = v->Object_0@;
            &&& i < m.len() ==> money_in(v, needle) == resolved(m[i].value)
            &&& k < m.len() && m[k].value is Text ==> word_in(v, needle) == Some(
                m[k].value->Text_0@,
            )
            &&& k < m.len() && m[k].value is Number ==> word_in(v, needle) == Some(
                m[k].value->Number_0.notation@,
            )
        }),
{
    lemma_money_here(v->Object_0@, needle, i, 0);
    lemma_word_here(v->Object_0@, needle, k, 0);
}

proof fn lemma_money_below(v: Json, needle: Seq<char>, i: int, from: int)
    requires
        v is List,
        0 <= from <= i <= v->List_0@.len(),
        forall|j: int| from <= j < i ==> money_in(#[trigger] v->List_0@[j], needle) is None,
        i < v->List_0@.len() ==> money_in(v->List_0@[i], needle) is Some,
    ensures
        i < v->List_0@.len() ==> money_below(v, needle, from) == money_in(v->List_0@[i], needle),
        i == v->List_0@.len() ==> money_below(v, needle, from) is None,
    decreases i - from,
{
    if from < i {
        assert(money_in(v->List_0@[from], needle) is None);
        lemma_money_below(v, needle, i, from + 1);
    }
}

/// In a list, a balance is that of the first item that has one.
pub proof fn law_named_in_list(v: Json, needle: Seq<char>, i: int)
    requires
        v is List,
        0 <= i <= v->List_0@.len(),
        forall|j: int| 0 <= j < i ==> money_in(#[trigger] v->List_0@[j], needle) is None,
        i < v->List_0@.len() ==> money_in(v->List_0@[i], needle) is Some,
    ensures
        i < v->List_0@.len() ==> money_in(v, needle) == money_in(v->List_0@[i], needle),
        i == v->List_0@.len() ==> money_in(v, needle) is None,
{
    lemma_money_below(v, needle, i, 0);
}

proof fn lemma_money_within(v: Json, needle: Seq<char>, i: int, from: int)
    requires
        v is Object,
        0 <= from <= i <= v->Object_0@.len(),
        forall|j: int|
            from <= j < i ==> money_in((#[trigger] v->Object_0@[j]).value, needle) is None,
        i < v->Object_0@.len() ==> money_in(v->Object_0@[i].value, needle) is Some,
    ensures
        i < v->Object_0@.len() ==> money_below(v, needle, from) == money_in(
            v->Object_0@[i].value,
            needle,
        ),
        i == v->Object_0@.len() ==> money_below(v, needle, from) is None,
    decreases i - from,
{
    if from < i {
        assert(money_in(v->Object_0@[from].value, needle) is None);
        lemma_money_within(v, needle, i, from + 1);
    }
}

/// In an object without the name, a balance is that within the first value that has one.
pub proof fn law_named_below(v: Json, needle: Seq<char>, i: int)
    requires
        v is Object,
        forall|j: int|
            0 <= j < v->Object_0@.len() ==> !holds_money(#[trigger] v->Object_0@[j], needle),
        0 <= i <= v->Object_0@.len(),
        forall|j: int| 0 <= j < i ==> money_in((#[trigger] v->Object_0@[j]).value, needle) is None,
        i < v->Object_0@.len() ==> money_in(v->Object_0@[i].value, needle) is Some,
    ensures
        i < v->Object_0@.len() ==> money_in(v, needle) == money_in(v->Object_0@[i].value, needle),
        i == v->Object_0@.len() ==> money_in(v, needle) is None,
{
    lemma_money_here(v->Object_0@, needle, v->Object_0@.len() as int, 0);
    lemma_money_within(v, needle, i, 0);
}

// --- streams ---------------------------------------------------------------

/// What a tick changes: a positive price is the last one, a computation with a delta or a
/// volatility is the latest, a notice or a failure is kept; nothing else changes.
pub proof fn law_tick(
    last: Option<i64>,
    comp: Option<OptionComputation>,
    notices: Seq<Seq<char>>,
    tick: Tick,
)
    ensures
        tick is Price && tick->Price_0 > 0 ==> last_after(last, tick) == Some(tick->Price_0),
        !(tick is Price && tick->Price_0 > 0) ==> last_after(last, tick) == last,
        tick is Computation && (tick->Computation_0.delta is Some
            || tick->Computation_0.implied_volatility is Some) ==> comp_after(comp, tick) == Some(
            tick->Computation_0,
        ),
        !(tick is Computation && (tick->Computation_0.delta is Some
            || tick->Computation_0.implied_volatility is Some)) ==> comp_after(comp, tick) == comp,
        tick is Notice ==> notices_after(notices, tick) == notices.push(tick->Notice_0@),
        tick is Failed ==> notices_after(notices, tick) == notices.push(
            "error: "@ + tick->Failed_0@,
        ),
        !(tick is Notice || tick is Failed) ==> notices_after(notices, tick) == notices,
{
}

/// Every order status is passed on as it is. A message is passed on unless its code is one
/// of connectivity (1100 to 1102, 1300, 2100 to 2169), of a cancelled order (202), or of a
/// lookup or market data (200, 10091, 10167).
pub proof fn law_event(update: OrderUpdate)
    ensures
        update is Status ==> event_of(update) == Some(
            (EventView::Status {
                order_id: update->order_id as int,
                status: update->status@,
                filled: update->filled as int,
                remaining: update->remaining as int,
                avg_fill_price: update->avg_fill_price as int,
            }),
        ),
        update is Message ==> {
            let c = update->code as int;
            let quiet = c == 200 || c == 202 || c == 1300 || c == 10_091 || c == 10_167 || 1100 <= c
                <= 1102 || 2100 <= c <= 2169;
            &&& quiet ==> event_of(update) is None
            &&& !quiet ==> event_of(update) is Some && event_of(update)->0 is Notice
        },
        update is Other ==> event_of(update) is None,
{
}

/// A text in which nothing is a number but its digits gives their amount, whatever stands
/// before and behind them.
pub proof fn law_loose_number(before: Seq<char>, n: Seq<char>, behind: Seq<char>)
    requires
        forall|i: int|
            0 <= i < before.len() ==> !is_digit(#[trigger] before[i]) && before[i] != '-'
                && before[i] != '.',
        forall|i: int|
            0 <= i < behind.len() ==> !is_digit(#[trigger] behind[i]) && behind[i] != '-'
                && behind[i] != '.',
        forall|i: int| 0 <= i < n.len() ==> is_digit(#[trigger] n[i]),
    ensures
        loose_number(before + n + behind) == decimal_value(n),
{
    crate::ibkr::models::law_noise_is_passed_over(before, n, behind);
    lemma_digits_kept(n);
    assert(loose_number(n) == decimal_value(number_chars(crate::text::trim_text(n))));
    lemma_trim_digits(n);
}

proof fn lemma_digits_kept(n: Seq<char>)
    requires
        forall|i: int| 0 <= i < n.len() ==> is_digit(#[trigger] n[i]),
    ensures
        number_chars(n) == n,
    decreases n.len(),
{
    if n.len() > 0 {
        let t = n.drop_last();
        assert forall|i: int| 0 <= i < t.len() implies is_digit(#[trigger] t[i]) by {
            assert(t[i] == n[i]);
        }
        lemma_digits_kept(t);
        assert(is_digit(n[n.len() - 1]));
        assert(t.push(n.last()) =~= n);
    }
}

proof fn lemma_trim_digits(n: Seq<char>)
    requires
        forall|i: int| 0 <= i < n.len() ==> is_digit(#[trigger] n[i]),
    ensures
        crate::text::trim_text(n) == n,
{
    if n.len() > 0 {
        assert(is_digit(n[0]));
        assert(is_digit(n[n.len() - 1]));
    }
}

// --- requests and failures -------------------------------------------------

/// A token is asked for with the kind of grant, the kind of assertion and the signed
/// assertion, and with the scope exactly where one is set.
pub proof fn law_token_form(grant: Seq<char>, scope: Option<Seq<char>>, assertion: Seq<char>)
    ensures
        ({
            let f = form_of(grant, scope, assertion);
            &&& f.contains(("grant_type"@, grant))
            &&& f.contains(("client_assertion"@, assertion))
            &&& f.contains(
                (
                    "client_assertion_type"@,
                    "urn:ietf:params:oauth:client-assertion-type:jwt-bearer"@,
                ),
            )
            &&& scope is Some ==> f.len() == 4 && f.contains(("scope"@, scope->0))
            &&& scope is None ==> f.len() == 3
        }),
{
    let f = form_of(grant, scope, assertion);
    assert(f[0] == ("grant_type"@, grant));
    assert(f[1].0 == "client_assertion_type"@);
    assert(f[2] == ("client_assertion"@, assertion));
    if scope is Some {
        assert(f[3] == ("scope"@, scope->0));
    }
}

/// A failed connection is explained by what its text holds, in any case: a reset, a
/// refusal, a timeout; anything else is told as it is.
pub proof fn law_failure_hint(err: Seq<char>)
    ensures
        ({
            let t = lower_text(err);
            let reset = contains_text(t, "reset by peer"@) || contains_text(t, "os error 54"@);
            let refused = contains_text(t, "refused"@) || contains_text(t, "os error 61"@);
            let late = contains_text(t, "timed out"@) || contains_text(t, "timeout"@);
            &&& !reset && refused ==> failure_hint(err)
                == "IB Gateway not reachable — is it running with the API socket port open?"@
            &&& !reset && !refused && late ==> failure_hint(err)
                == "IB Gateway connection timed out — check host/port and that the API is enabled"@
            &&& !reset && !refused && !late ==> failure_hint(err) == "connect failed: "@ + err
            &&& reset ==> failure_hint(err)
                == "IB Gateway reset the API session — on a paper account, accept the simulated-trading disclaimer in Gateway/TWS (error 10141)"@
        }),
{
}

/// A field of a snapshot is the amount under its code, where the item holds one.
pub proof fn law_field(v: Json, code: u32)
    ensures
        ({
            let e = v.at(crate::fixed::int_text(code as int));
            &&& e is Some ==> field_of(Some(v), code) == lenient(e->0)
            &&& e is None ==> field_of(Some(v), code) is None
            &&& field_of(None, code) is None
        }),
{
}

/// What a text of JSON denotes is of the kind of its outermost level: truth values and
/// texts as they stand, numbers by their notation, lists and objects item by item.
pub proof fn law_denotes(text: Seq<char>, j: Json, depth: nat)
    ensures
        denotes(text, j, depth) ==> json_level(text) is Some && {
            let l = json_level(text)->0;
            &&& l is Null <==> j is Null
            &&& l is Bool <==> j is Bool
            &&& l is Bool ==> j->Bool_0 == l->Bool_0
            &&& l is Text <==> j is Text
            &&& l is Text ==> j->Text_0@ == l->Text_0
            &&& l is Number <==> j is Number
            &&& l is Number ==> j->Number_0.notation@ == l->Number_1
            &&& l is List <==> j is List
            &&& l is List ==> json_items(text) is Some && j->List_0@.len()
                == json_items(text)->0.len()
            &&& l is Object <==> j is Object
            &&& l is Object ==> json_entries(text) is Some && j->Object_0@.len()
                == json_entries(text)->0.len()
        },
{
}

} // verus!

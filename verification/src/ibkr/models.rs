//! Rows of the web API, and lenient reading of its JSON: numbers may come as
//! text, with a prefix or separators, and balances may stand one level deeper.

use vstd::prelude::*;
use vstd::string::*;
use crate::decimal::{decimal_value, is_digit, read_decimal};
use crate::engine::types::opt_int;
use crate::ibkr::json::{Json, JsonEntry};
use crate::text::{chars_of, contains_text, has_part, lower_text, lowered, own, trim_text, trimmed};

verus! {

/// An access token as the token endpoint hands it out.
#[derive(Debug)]
pub struct TokenResponse {
    pub access_token: String,
    pub token_type: String,
    /// Seconds for which it holds.
    pub expires_in: Option<u64>,
}

/// A portfolio position.
#[derive(Debug)]
pub struct PositionRow {
    pub conid: i64,
    pub symbol: String,
    pub asset_class: String,
    pub position: i64,
    pub avg_price: i64,
    pub mkt_price: i64,
    pub mkt_value: i64,
    pub unrealized_pnl: i64,
}

/// A match of a contract search.
#[derive(Debug)]
pub struct ContractMatch {
    pub conid: i64,
    pub symbol: String,
    pub description: String,
    pub sec_type: String,
}

/// The market snapshot of one option.
#[derive(Debug, Clone, Copy, PartialEq, Eq, Structural)]
pub struct OptionQuoteSnap {
    pub conid: i64,
    pub last: Option<i64>,
    pub bid: Option<i64>,
    pub ask: Option<i64>,
    pub implied_volatility: Option<i64>,
    pub delta: Option<i64>,
    pub gamma: Option<i64>,
    pub theta: Option<i64>,
    pub vega: Option<i64>,
    pub open_interest: Option<i64>,
    pub volume: Option<i64>,
}

/// What an order preview says of margin and commission, and the reply itself.
#[derive(Debug)]
pub struct OrderPreview {
    pub amount: Option<String>,
    pub equity_change: Option<String>,
    pub init_margin_change: Option<String>,
    pub maint_margin_change: Option<String>,
    pub commission: Option<String>,
    pub warning: Option<String>,
    pub raw: Json,
}

/// Whether the account may trade the options of an underlying.
#[derive(Debug)]
pub enum Tradability {
    Allowed(OrderPreview),
    Blocked(String),
}

// --- numbers ---------------------------------------------------------------

/// Whether `s` holds a decimal point.
pub open spec fn has_point(s: Seq<char>) -> bool {
    exists|i: int| 0 <= i < s.len() && #[trigger] s[i] == '.'
}

/// What of `s` belongs to a number: its digits, a minus sign in front of all of
/// them, and its first point.
pub open spec fn number_chars(s: Seq<char>) -> Seq<char>
    decreases s.len(),
{
    if s.len() == 0 {
        s
    } else {
        let k = number_chars(s.drop_last());
        let c = s.last();
        if is_digit(c) || (c == '-' && k.len() == 0) || (c == '.' && !has_point(k)) {
            k.push(c)
        } else {
            k
        }
    }
}

/// The amount that a text holds, whatever stands around its digits.
pub open spec fn loose_number(s: Seq<char>) -> Option<int> {
    decimal_value(number_chars(trim_text(s)))
}

/// Reads an amount out of a text: digits, sign and one point count, and anything
/// else is passed over.
pub fn parse_loose_number(s: &str) -> (r: Option<i64>)
    ensures
        opt_int(r) == loose_number(s@),
{
    let v = chars_of(trimmed(s).as_str());
    let mut kept: Vec<char> = Vec::new();
    let mut seen_dot = false;
    let mut i: usize = 0;
    assert(v@.take(0) =~= Seq::empty());
    while i < v.len()
        invariant
            i <= v@.len(),
            kept@ == number_chars(v@.take(i as int)),
            seen_dot == has_point(kept@),
        decreases v@.len() - i,
    {
        let c = v[i];
        let ghost before = kept@;
        proof {
            assert(v@.take(i + 1).drop_last() =~= v@.take(i as int));
            assert(v@.take(i + 1).last() == c);
        }
        if ('0' <= c && c <= '9') || (c == '-' && kept.len() == 0) {
            kept.push(c);
            proof {
                if has_point(before) {
                    let j = choose|j: int| 0 <= j < before.len() && #[trigger] before[j] == '.';
                    assert(kept@[j] == '.');
                }
                if has_point(kept@) {
                    let j = choose|j: int| 0 <= j < kept@.len() && #[trigger] kept@[j] == '.';
                    assert(before[j] == '.');
                }
            }
        } else if c == '.' && !seen_dot {
            seen_dot = true;
            kept.push(c);
            assert(kept@[kept@.len() - 1] == '.');
        }
        i = i + 1;
    }
    assert(v@.take(i as int) =~= v@);
    read_decimal(&kept)
}

/// The amount that a value stands for, a number or a text.
pub open spec fn lenient(v: Json) -> Option<int> {
    match v {
        Json::Number(n) => opt_int(n.amount),
        Json::Text(s) => loose_number(s@),
        _ => None,
    }
}

/// Reads an amount from a number or a text.
pub fn lenient_f64(v: &Json) -> (r: Option<i64>)
    ensures
        opt_int(r) == lenient(*v),
{
    match v {
        Json::Number(n) => n.amount,
        Json::Text(s) => parse_loose_number(s.as_str()),
        _ => None,
    }
}

/// The amount of an optional value.
pub open spec fn lenient_opt(v: Option<Json>) -> Option<int> {
    match v {
        Some(x) => lenient(x),
        None => None,
    }
}

/// The first of two optional values.
pub open spec fn either(a: Option<Json>, b: Option<Json>) -> Option<Json> {
    match a {
        Some(_) => a,
        None => b,
    }
}

/// The amount under the first of two keys that an object has.
pub fn amount_at(v: &Json, key: &str, other: &str) -> (r: Option<i64>)
    ensures
        opt_int(r) == lenient_opt(either(v.at(key@), v.at(other@))),
{
    match v.get(key) {
        Some(x) => lenient_f64(x),
        None => match v.get(other) {
            Some(x) => lenient_f64(x),
            None => None,
        },
    }
}

/// The amount of a balance: itself, or what it holds as its value or amount.
pub open spec fn resolved(v: Json) -> Option<int> {
    match v {
        Json::Object(_) => lenient_opt(either(v.at("value"@), v.at("amount"@))),
        _ => lenient(v),
    }
}

fn resolve_number(v: &Json) -> (r: Option<i64>)
    ensures
        opt_int(r) == resolved(*v),
{
    match v {
        Json::Object(_) => amount_at(v, "value", "amount"),
        _ => lenient_f64(v),
    }
}

// --- digging ---------------------------------------------------------------

/// The balance of the first entry, from `i` on, whose key holds `needle` in any
/// case and whose value is an amount.
pub open spec fn money_here(m: Seq<JsonEntry>, needle: Seq<char>, i: int) -> Option<int>
    decreases m.len() - i,
{
    if i < 0 || i >= m.len() {
        None
    } else if contains_text(lower_text(m[i].key@), needle) && resolved(m[i].value) is Some {
        resolved(m[i].value)
    } else {
        money_here(m, needle, i + 1)
    }
}

/// How many values stand directly in `v`.
pub open spec fn width(v: Json) -> nat {
    match v {
        Json::Object(m) => m@.len(),
        Json::List(l) => l@.len(),
        _ => 0,
    }
}

/// The balance named `needle` in `v`: of an entry here, or else of the first
/// value here that has one within it.
pub open spec fn money_in(v: Json, needle: Seq<char>) -> Option<int>
    decreases v, width(v) + 1,
{
    match v {
        Json::Object(m) => match money_here(m@, needle, 0) {
            Some(x) => Some(x),
            None => money_below(v, needle, 0),
        },
        Json::List(_) => money_below(v, needle, 0),
        _ => None,
    }
}

/// The balance within the first value of `v`, from `i` on, that has one.
pub open spec fn money_below(v: Json, needle: Seq<char>, i: int) -> Option<int>
    decreases v, width(v) - i,
{
    match v {
        Json::Object(m) => if i < 0 || i >= m@.len() {
            None
        } else {
            match money_in(m@[i].value, needle) {
                Some(x) => Some(x),
                None => money_below(v, needle, i + 1),
            }
        },
        Json::List(l) => if i < 0 || i >= l@.len() {
            None
        } else {
            match money_in(l@[i], needle) {
                Some(x) => Some(x),
                None => money_below(v, needle, i + 1),
            }
        },
        _ => None,
    }
}

fn dig(v: &Json, needle: &str) -> (r: Option<i64>)
    ensures
        opt_int(r) == money_in(*v, needle@),
    decreases v,
{
    match v {
        Json::Object(m) => {
            let mut i: usize = 0;
            while i < m.len()
                invariant
                    *v == Json::Object(*m),
                    i <= m@.len(),
                    money_here(m@, needle@, 0) == money_here(m@, needle@, i as int),
                decreases m@.len() - i,
            {
                if has_part(&lowered(m[i].key.as_str()), needle) {
                    let found = resolve_number(&m[i].value);
                    if found.is_some() {
                        return found;
                    }
                }
                i = i + 1;
            }
            let mut j: usize = 0;
            while j < m.len()
                invariant
                    *v == Json::Object(*m),
                    j <= m@.len(),
                    money_here(m@, needle@, 0) is None,
                    money_below(*v, needle@, 0) == money_below(*v, needle@, j as int),
                decreases m@.len() - j,
            {
                let found = dig(&m[j].value, needle);
                if found.is_some() {
                    return found;
                }
                j = j + 1;
            }
            None
        },
        Json::List(l) => {
            let mut j: usize = 0;
            while j < l.len()
                invariant
                    *v == Json::List(*l),
                    j <= l@.len(),
                    money_below(*v, needle@, 0) == money_below(*v, needle@, j as int),
                decreases l@.len() - j,
            {
                let found = dig(&l[j], needle);
                if found.is_some() {
                    return found;
                }
                j = j + 1;
            }
            None
        },
        _ => None,
    }
}

/// Finds a balance by a part of its name, in any case, at any depth.
pub fn dig_money(v: &Json, needle: &str) -> (r: Option<i64>)
    ensures
        opt_int(r) == money_in(*v, lower_text(needle@)),
{
    let low = lowered(needle);
    let text = crate::text::string_of(&low, 0, low.len());
    assert(text@ =~= lower_text(needle@));
    dig(v, text.as_str())
}

/// The text of a value that is one, or the notation of a number.
pub open spec fn word(v: Json) -> Option<Seq<char>> {
    match v {
        Json::Text(s) => Some(s@),
        Json::Number(n) => Some(n.notation@),
        _ => None,
    }
}

/// The word of the first entry, from `i` on, whose key in lower case holds
/// `needle` and whose value is a text or a number.
pub open spec fn word_here(m: Seq<JsonEntry>, needle: Seq<char>, i: int) -> Option<Seq<char>>
    decreases m.len() - i,
{
    if i < 0 || i >= m.len() {
        None
    } else if contains_text(lower_text(m[i].key@), needle) && word(m[i].value) is Some {
        word(m[i].value)
    } else {
        word_here(m, needle, i + 1)
    }
}

/// The word named `needle` in `v`: of an entry here, or else of the first value
/// here that has one within it.
pub open spec fn word_in(v: Json, needle: Seq<char>) -> Option<Seq<char>>
    decreases v, width(v) + 1,
{
    match v {
        Json::Object(m) => match word_here(m@, needle, 0) {
            Some(x) => Some(x),
            None => word_below(v, needle, 0),
        },
        Json::List(_) => word_below(v, needle, 0),
        _ => None,
    }
}

/// The word within the first value of `v`, from `i` on, that has one.
pub open spec fn word_below(v: Json, needle: Seq<char>, i: int) -> Option<Seq<char>>
    decreases v, width(v) - i,
{
    match v {
        Json::Object(m) => if i < 0 || i >= m@.len() {
            None
        } else {
            match word_in(m@[i].value, needle) {
                Some(x) => Some(x),
                None => word_below(v, needle, i + 1),
            }
        },
        Json::List(l) => if i < 0 || i >= l@.len() {
            None
        } else {
            match word_in(l@[i], needle) {
                Some(x) => Some(x),
                None => word_below(v, needle, i + 1),
            }
        },
        _ => None,
    }
}

fn word_of(v: &Json) -> (r: Option<String>)
    ensures
        crate::text::opt_text(r) == word(*v),
{
    match v {
        Json::Text(s) => Some(own(s.as_str())),
        Json::Number(n) => Some(own(n.notation.as_str())),
        _ => None,
    }
}

/// Finds a text or the notation of a number by a part of its name in lower case,
/// at any depth.
pub fn dig_str(v: &Json, needle: &str) -> (r: Option<String>)
    ensures
        crate::text::opt_text(r) == word_in(*v, needle@),
    decreases v,
{
    match v {
        Json::Object(m) => {
            let mut i: usize = 0;
            while i < m.len()
                invariant
                    *v == Json::Object(*m),
                    i <= m@.len(),
                    word_here(m@, needle@, 0) == word_here(m@, needle@, i as int),
                decreases m@.len() - i,
            {
                if has_part(&lowered(m[i].key.as_str()), needle) {
                    let found = word_of(&m[i].value);
                    if found.is_some() {
                        return found;
                    }
                }
                i = i + 1;
            }
            let mut j: usize = 0;
            while j < m.len()
                invariant
                    *v == Json::Object(*m),
                    j <= m@.len(),
                    word_here(m@, needle@, 0) is None,
                    word_below(*v, needle@, 0) == word_below(*v, needle@, j as int),
                decreases m@.len() - j,
            {
                let found = dig_str(&m[j].value, needle);
                if found.is_some() {
                    return found;
                }
                j = j + 1;
            }
            None
        },
        Json::List(l) => {
            let mut j: usize = 0;
            while j < l.len()
                invariant
                    *v == Json::List(*l),
                    j <= l@.len(),
                    word_below(*v, needle@, 0) == word_below(*v, needle@, j as int),
                decreases l@.len() - j,
            {
                let found = dig_str(&l[j], needle);
                if found.is_some() {
                    return found;
                }
                j = j + 1;
            }
            None
        },
        _ => None,
    }
}

// --- laws ------------------------------------------------------------------

/// What surrounds a number does not count: a text without digit, sign and point
/// can stand in front of it or behind it.
pub proof fn law_noise_is_passed_over(a: Seq<char>, n: Seq<char>, b: Seq<char>)
    requires
        is_noise(a),
        is_noise(b),
    ensures
        loose_number(a + n + b) == loose_number(n),
{
    lemma_noise_behind(a + n, b);
    lemma_noise_behind(Seq::empty(), a);
    assert(Seq::<char>::empty() + a =~= a);
    lemma_noise_before(a, n);
    lemma_trim_is_noise(a + n + b);
    lemma_trim_is_noise(n);
}

/// Whether `s` holds no digit, no minus sign and no point.
pub open spec fn is_noise(s: Seq<char>) -> bool {
    forall|i: int| 0 <= i < s.len() ==> !is_digit(#[trigger] s[i]) && s[i] != '-' && s[i] != '.'
}

proof fn lemma_trim_is_noise(s: Seq<char>)
    ensures
        number_chars(trim_text(s)) == number_chars(s),
    decreases s.len(),
{
    if s.len() == 0 {
    } else if crate::text::is_space(s[0]) {
        let t = s.drop_first();
        lemma_trim_is_noise(t);
        let head = seq![s[0]];
        assert(head + t =~= s);
        assert(head.drop_last() =~= Seq::empty());
        assert(number_chars(head.drop_last()) =~= Seq::empty());
        lemma_noise_before(head, t);
    } else if crate::text::is_space(s.last()) {
        lemma_trim_is_noise(s.drop_last());
    }
}

proof fn lemma_noise_behind(n: Seq<char>, b: Seq<char>)
    requires
        is_noise(b),
    ensures
        number_chars(n + b) == number_chars(n),
    decreases b.len(),
{
    if b.len() == 0 {
        assert(n + b =~= n);
    } else {
        assert((n + b).drop_last() =~= n + b.drop_last());
        assert((n + b).last() == b.last());
        lemma_noise_behind(n, b.drop_last());
    }
}

proof fn lemma_noise_before(a: Seq<char>, n: Seq<char>)
    requires
        number_chars(a).len() == 0,
    ensures
        number_chars(a + n) == number_chars(n),
    decreases n.len(),
{
    if n.len() == 0 {
        assert(a + n =~= a);
        assert(number_chars(a) =~= number_chars(n));
    } else {
        assert((a + n).drop_last() =~= a + n.drop_last());
        assert((a + n).last() == n.last());
        lemma_noise_before(a, n.drop_last());
    }
}

} // verus!

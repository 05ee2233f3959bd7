//! The web API session: its token and account, the paths and bodies of requests,
//! and what the replies say.

use vstd::prelude::*;
use vstd::string::*;
use crate::decimal::{push_shortest, short_text};
use crate::engine::types::opt_int;
use crate::fixed::{int_string, int_text, is_price, push_int, SCALE};
use crate::ibkr::json::{
    denotes, parse_json, reads, value_as_i64, Json, JsonEntry, JsonNumber, MAX_DEPTH,
};
use crate::ibkr::models::{
    amount_at, dig_money, dig_str, either, lenient, lenient_f64, lenient_opt, money_in, word_in,
    ContractMatch, OptionQuoteSnap, OrderPreview, PositionRow, TokenResponse,
};
use crate::ibkr::AccountSnapshot;
use crate::text::{chars_of, lower_text, opt_text, own, trim_text, trimmed};

verus! {

// --- the session -----------------------------------------------------------

/// The codes by which snapshot fields are asked for.
#[derive(Debug, Clone, Copy, PartialEq, Eq, Structural)]
pub struct FieldCodes {
    pub last: u32,
    pub bid: u32,
    pub ask: u32,
    pub implied_volatility: u32,
    pub delta: u32,
    pub gamma: u32,
    pub theta: u32,
    pub vega: u32,
    pub open_interest: u32,
    pub volume: u32,
}

impl FieldCodes {
    /// The codes, with commas between them.
    pub open spec fn spec_csv(self) -> Seq<char> {
        int_text(self.last as int) + ","@ + int_text(self.bid as int) + ","@ + int_text(
            self.ask as int,
        ) + ","@ + int_text(self.implied_volatility as int) + ","@ + int_text(self.delta as int)
            + ","@ + int_text(self.gamma as int) + ","@ + int_text(self.theta as int) + ","@
            + int_text(self.vega as int) + ","@ + int_text(self.open_interest as int) + ","@
            + int_text(self.volume as int)
    }

    /// The codes, with commas between them.
    pub fn csv(&self) -> (r: String)
        ensures
            r@ == self.spec_csv(),
    {
        let mut t = int_string(self.last as i128);
        t.append(",");
        push_int(&mut t, self.bid as i128);
        t.append(",");
        push_int(&mut t, self.ask as i128);
        t.append(",");
        push_int(&mut t, self.implied_volatility as i128);
        t.append(",");
        push_int(&mut t, self.delta as i128);
        t.append(",");
        push_int(&mut t, self.gamma as i128);
        t.append(",");
        push_int(&mut t, self.theta as i128);
        t.append(",");
        push_int(&mut t, self.vega as i128);
        t.append(",");
        push_int(&mut t, self.open_interest as i128);
        t.append(",");
        push_int(&mut t, self.volume as i128);
        t
    }
}

/// A session of the web API; times are seconds of a clock that does not go back.
#[derive(Debug)]
pub struct WebApi {
    pub base_url: String,
    pub access_token: String,
    pub token_expires_at: u64,
    pub account_id: Option<String>,
}

/// `s` without the slashes at its end.
pub open spec fn unslashed(s: Seq<char>) -> Seq<char>
    decreases s.len(),
{
    if s.len() > 0 && s.last() == '/' {
        unslashed(s.drop_last())
    } else {
        s
    }
}

/// How long a token is used, in seconds: a minute less than it holds (an hour
/// where that is not said), at least half a minute.
pub open spec fn token_secs(expires_in: Option<u64>) -> int {
    let holds = match expires_in {
        Some(n) => n as int,
        None => 3600,
    };
    if holds - 60 >= 30 {
        holds - 60
    } else {
        30
    }
}

impl WebApi {
    /// A session without a token, for the account where one is named.
    pub fn new(base_url: &str, account: Option<String>, now: u64) -> (r: Self)
        ensures
            r.base_url@ == unslashed(base_url@),
            r.access_token@ == ""@,
            r.token_expires_at == now,
            opt_text(r.account_id) == opt_text(account),
    {
        let v = chars_of(base_url);
        let mut n: usize = v.len();
        assert(v@.take(n as int) =~= v@);
        while n > 0 && v[n - 1] == '/'
            invariant
                n <= v@.len(),
                unslashed(v@) == unslashed(v@.take(n as int)),
            decreases n,
        {
            assert(v@.take(n as int).drop_last() =~= v@.take(n - 1));
            n = n - 1;
        }
        let base_url = crate::text::string_of(&v, 0, n);
        assert(base_url@ =~= v@.take(n as int));
        WebApi { base_url, access_token: own(""), token_expires_at: now, account_id: account }
    }

    /// The account, or an error where none is known yet.
    pub fn account(&self) -> (r: Result<&str, &'static str>)
        ensures
            r is Ok <==> self.account_id is Some,
            r is Ok ==> (r->Ok_0)@ == (self.account_id->0)@,
            r is Err ==> (r->Err_0)@ == "no account id resolved"@,
    {
        match &self.account_id {
            Some(a) => Ok(a.as_str()),
            None => Err("no account id resolved"),
        }
    }

    /// The address of a path.
    pub fn url(&self, path: &str) -> (r: String)
        ensures
            r@ == self.base_url@ + path@,
    {
        let mut t = own(self.base_url.as_str());
        t.append(path);
        t
    }

    /// Takes up a token that came at `now`.
    pub fn take_token(&mut self, token: TokenResponse, now: u64)
        ensures
            final(self).access_token@ == token.access_token@,
            final(self).token_expires_at == (if now + token_secs(token.expires_in) <= u64::MAX {
                now + token_secs(token.expires_in)
            } else {
                u64::MAX as int
            }),
            final(self).base_url == old(self).base_url,
            final(self).account_id == old(self).account_id,
    {
        let holds: u64 = match token.expires_in {
            Some(n) => n,
            None => 3600,
        };
        let secs: u64 = if holds >= 90 {
            holds - 60
        } else {
            30
        };
        self.access_token = token.access_token;
        self.token_expires_at = if secs <= u64::MAX - now {
            now + secs
        } else {
            u64::MAX
        };
    }

    /// Whether a fresh token is needed before the next request.
    pub fn token_due(&self, now: u64) -> (r: bool)
        ensures
            r == (now >= self.token_expires_at),
    {
        now >= self.token_expires_at
    }
}

/// A token is never used once it has run out, where it holds for a minute and a
/// half or more: the time at which it is renewed is a minute earlier.
pub proof fn law_token_renewed_in_time(expires_in: Option<u64>, now: int)
    requires
        expires_in is Some ==> expires_in->0 >= 90,
    ensures
        expires_in is Some ==> now + token_secs(expires_in) + 60 == now + expires_in->0,
        expires_in is None ==> token_secs(expires_in) == 3540,
{
}

// --- replies ---------------------------------------------------------------

/// Whether a reply carries a value to read: an error where its status is no
/// success, nothing where its body is blank.
pub fn check_reply(path: &str, success: bool, status: &str, body: &str) -> (r: Result<bool, String>)
    ensures
        r is Ok <==> success,
        r is Ok ==> r->Ok_0 == (trim_text(body@).len() > 0),
        r is Err ==> (r->Err_0)@ == path@ + " returned "@ + status@ + ": "@ + body@,
{
    if !success {
        let mut t = own(path);
        t.append(" returned ");
        t.append(status);
        t.append(": ");
        t.append(body);
        return Err(t);
    }
    Ok(trimmed(body).as_str().unicode_len() > 0)
}

/// The value of a reply: an error where its status is no success or its body no
/// JSON, `Null` where its body is blank.
pub fn parse_reply(path: &str, success: bool, status: &str, body: &str) -> (r: Result<Json, String>)
    ensures
        !success ==> r is Err && (r->Err_0)@ == path@ + " returned "@ + status@ + ": "@ + body@,
        success && trim_text(body@).len() == 0 ==> r is Ok && r->Ok_0 is Null,
        success && trim_text(body@).len() > 0 ==> {
            &&& r is Ok <==> reads(body@, MAX_DEPTH as nat)
            &&& r is Ok ==> denotes(body@, r->Ok_0, MAX_DEPTH as nat)
            &&& r is Err ==> (r->Err_0)@ == "parsing "@ + path@ + " response: "@ + body@
        },
{
    match check_reply(path, success, status, body) {
        Err(e) => Err(e),
        Ok(false) => Ok(Json::Null),
        Ok(true) => match parse_json(body) {
            Some(v) => Ok(v),
            None => {
                let mut t = String::from_str("parsing ");
                t.append(path);
                t.append(" response: ");
                t.append(body);
                Err(t)
            },
        },
    }
}

/// The account that a session reports: the selected one, or else the first.
pub open spec fn account_in(v: Json) -> Option<Seq<char>> {
    match v.text_at("selectedAccount"@) {
        Some(t) => Some(t),
        None => match v.at("accounts"@) {
            Some(a) => if a.items().len() > 0 {
                a.items()[0].text()
            } else {
                None
            },
            None => None,
        },
    }
}

/// The account that a session reports.
pub fn first_account(v: &Json) -> (r: Option<String>)
    ensures
        opt_text(r) == account_in(*v),
{
    if let Some(t) = v.get_text("selectedAccount") {
        return Some(own(t));
    }
    match v.get("accounts") {
        Some(Json::List(l)) => if l.len() > 0 {
            match l[0].as_text() {
                Some(t) => Some(own(t)),
                None => None,
            }
        } else {
            None
        },
        _ => None,
    }
}

/// The balances of an account.
pub fn account_summary(v: &Json) -> (r: AccountSnapshot)
    ensures
        opt_int(r.net_liquidation) == money_in(*v, lower_text("netliquidation"@)),
        opt_int(r.total_cash) == money_in(*v, lower_text("totalcash"@)),
        opt_int(r.buying_power) == money_in(*v, lower_text("buyingpower"@)),
        opt_int(r.available_funds) == money_in(*v, lower_text("availablefunds"@)),
{
    AccountSnapshot {
        net_liquidation: dig_money(v, "netliquidation"),
        total_cash: dig_money(v, "totalcash"),
        buying_power: dig_money(v, "buyingpower"),
        available_funds: dig_money(v, "availablefunds"),
    }
}

/// The text of an optional value, or `other`.
pub open spec fn text_or(v: Option<Json>, other: Seq<char>) -> Seq<char> {
    match v {
        Some(x) => match x.text() {
            Some(t) => t,
            None => other,
        },
        None => other,
    }
}

/// An optional amount, or 0.
pub open spec fn or_zero(x: Option<int>) -> int {
    match x {
        Some(v) => v,
        None => 0,
    }
}

fn text_of(v: &Json, key: &str, other_key: &str, other: &str) -> (r: String)
    ensures
        r@ == text_or(either(v.at(key@), v.at(other_key@)), other@),
{
    let found = match v.get(key) {
        Some(x) => Some(x),
        None => v.get(other_key),
    };
    match found {
        Some(x) => match x.as_text() {
            Some(t) => own(t),
            None => own(other),
        },
        None => own(other),
    }
}

fn amount_or_zero(v: &Json, key: &str, other: &str) -> (r: i64)
    ensures
        r == or_zero(lenient_opt(either(v.at(key@), v.at(other@)))),
{
    match amount_at(v, key, other) {
        Some(x) => x,
        None => 0,
    }
}

/// The whole number under a key, where it is a number.
pub open spec fn whole_at(v: Json, key: Seq<char>) -> Option<int> {
    match v.at(key) {
        Some(Json::Number(n)) => opt_int(n.whole),
        _ => None,
    }
}

/// Whether `row` is the position that `p` describes under the contract `conid`.
pub open spec fn is_position(row: PositionRow, p: Json, conid: int) -> bool {
    &&& row.conid == conid
    &&& row.symbol@ == text_or(either(p.at("ticker"@), p.at("contractDesc"@)), ""@)
    &&& row.asset_class@ == text_or(p.at("assetClass"@), ""@)
    &&& row.position == or_zero(lenient_opt(p.at("position"@)))
    &&& row.avg_price == or_zero(lenient_opt(either(p.at("avgPrice"@), p.at("avgCost"@))))
    &&& row.mkt_price == or_zero(lenient_opt(p.at("mktPrice"@)))
    &&& row.mkt_value == or_zero(lenient_opt(p.at("mktValue"@)))
    &&& row.unrealized_pnl == or_zero(lenient_opt(p.at("unrealizedPnl"@)))
}

/// Whether `rows` are the positions that the items describe, those with a
/// contract, in order.
pub open spec fn are_positions(rows: Seq<PositionRow>, items: Seq<Json>) -> bool
    decreases items.len(),
{
    if items.len() == 0 {
        rows.len() == 0
    } else {
        match whole_at(items.last(), "conid"@) {
            Some(id) => rows.len() > 0 && is_position(rows.last(), items.last(), id)
                && are_positions(rows.drop_last(), items.drop_last()),
            None => are_positions(rows, items.drop_last()),
        }
    }
}

fn read_position(p: &Json) -> (r: Option<PositionRow>)
    ensures
        r is Some <==> whole_at(*p, "conid"@) is Some,
        r is Some ==> is_position(r->0, *p, whole_at(*p, "conid"@)->0),
{
    let conid: i64 = match p.get("conid") {
        Some(Json::Number(n)) => match n.whole {
            Some(x) => x,
            None => return None,
        },
        _ => return None,
    };
    Some(
        PositionRow {
            conid,
            symbol: text_of(p, "ticker", "contractDesc", ""),
            asset_class: text_of(p, "assetClass", "assetClass", ""),
            position: amount_or_zero(p, "position", "position"),
            avg_price: amount_or_zero(p, "avgPrice", "avgCost"),
            mkt_price: amount_or_zero(p, "mktPrice", "mktPrice"),
            mkt_value: amount_or_zero(p, "mktValue", "mktValue"),
            unrealized_pnl: amount_or_zero(p, "unrealizedPnl", "unrealizedPnl"),
        },
    )
}

/// The open positions of a reply.
pub fn positions(v: &Json) -> (r: Vec<PositionRow>)
    ensures
        are_positions(r@, v.items()),
{
    let mut out: Vec<PositionRow> = Vec::new();
    if let Json::List(l) = v {
        let mut i: usize = 0;
        assert(l@.take(0) =~= Seq::empty());
        while i < l.len()
            invariant
                i <= l@.len(),
                are_positions(out@, l@.take(i as int)),
            decreases l@.len() - i,
        {
            let ghost before = out@;
            proof {
                assert(l@.take(i + 1).drop_last() =~= l@.take(i as int));
                assert(l@.take(i + 1).last() == l@[i as int]);
            }
            if let Some(row) = read_position(&l[i]) {
                out.push(row);
                assert(out@.drop_last() =~= before);
            }
            i = i + 1;
        }
        assert(l@.take(i as int) =~= l@);
    }
    out
}

/// Whether `c` is the contract that `m` describes, found for `symbol`.
pub open spec fn is_match(c: ContractMatch, m: Json, symbol: Seq<char>, conid: int) -> bool {
    &&& c.conid == conid
    &&& c.symbol@ == text_or(m.at("symbol"@), symbol)
    &&& c.description@ == text_or(either(m.at("description"@), m.at("companyHeader"@)), ""@)
    &&& c.sec_type@ == text_or(m.at("secType"@), "STK"@)
}

/// The contract under `conid`.
pub open spec fn conid_in(m: Json) -> Option<int> {
    match m.at("conid"@) {
        Some(v) => v.long(),
        None => None,
    }
}

/// Whether `found` are the contracts that the items describe, those with a
/// contract, in order.
pub open spec fn are_matches(found: Seq<ContractMatch>, items: Seq<Json>, symbol: Seq<char>) -> bool
    decreases items.len(),
{
    if items.len() == 0 {
        found.len() == 0
    } else {
        match conid_in(items.last()) {
            Some(id) => found.len() > 0 && is_match(found.last(), items.last(), symbol, id)
                && are_matches(found.drop_last(), items.drop_last(), symbol),
            None => are_matches(found, items.drop_last(), symbol),
        }
    }
}

fn conid_of(m: &Json) -> (r: Option<i64>)
    ensures
        opt_int(r) == conid_in(*m),
{
    match m.get("conid") {
        Some(v) => value_as_i64(v),
        None => None,
    }
}

/// The contracts of a search for `symbol`.
pub fn search_contract(v: &Json, symbol: &str) -> (r: Vec<ContractMatch>)
    ensures
        are_matches(r@, v.items(), symbol@),
{
    let mut out: Vec<ContractMatch> = Vec::new();
    if let Json::List(l) = v {
        let mut i: usize = 0;
        assert(l@.take(0) =~= Seq::empty());
        while i < l.len()
            invariant
                i <= l@.len(),
                are_matches(out@, l@.take(i as int), symbol@),
            decreases l@.len() - i,
        {
            let ghost before = out@;
            proof {
                assert(l@.take(i + 1).drop_last() =~= l@.take(i as int));
                assert(l@.take(i + 1).last() == l@[i as int]);
            }
            let m = &l[i];
            if let Some(conid) = conid_of(m) {
                out.push(
                    ContractMatch {
                        conid,
                        symbol: text_of(m, "symbol", "symbol", symbol),
                        description: text_of(m, "description", "companyHeader", ""),
                        sec_type: text_of(m, "secType", "secType", "STK"),
                    },
                );
                assert(out@.drop_last() =~= before);
            }
            i = i + 1;
        }
        assert(l@.take(i as int) =~= l@);
    }
    out
}

/// The contract of an underlying: the first of a search, or an error.
pub fn underlying_conid(found: &Vec<ContractMatch>, symbol: &str) -> (r: Result<i64, String>)
    ensures
        r is Ok <==> found@.len() > 0,
        r is Ok ==> r->Ok_0 == found@[0].conid,
        r is Err ==> (r->Err_0)@ == "no contract found for "@ + symbol@,
{
    if found.len() > 0 {
        Ok(found[0].conid)
    } else {
        let mut t = String::from_str("no contract found for ");
        t.append(symbol);
        Err(t)
    }
}

/// The amounts among the items of a list.
pub open spec fn amounts_in(items: Seq<Json>) -> Seq<int>
    decreases items.len(),
{
    if items.len() == 0 {
        Seq::empty()
    } else {
        match lenient(items.last()) {
            Some(x) => amounts_in(items.drop_last()).push(x),
            None => amounts_in(items.drop_last()),
        }
    }
}

/// The items of an optional value.
pub open spec fn items_of(v: Option<Json>) -> Seq<Json> {
    match v {
        Some(x) => x.items(),
        None => Seq::empty(),
    }
}

/// The amounts under a key.
fn number_array(v: &Json, key: &str) -> (r: Vec<i64>)
    ensures
        r@.map_values(|x: i64| x as int) == amounts_in(items_of(v.at(key@))),
{
    let mut out: Vec<i64> = Vec::new();
    assert(out@.map_values(|x: i64| x as int) =~= Seq::<int>::empty());
    if let Some(Json::List(l)) = v.get(key) {
        let mut i: usize = 0;
        assert(l@.take(0) =~= Seq::empty());
        while i < l.len()
            invariant
                i <= l@.len(),
                out@.map_values(|x: i64| x as int) == amounts_in(l@.take(i as int)),
            decreases l@.len() - i,
        {
            let ghost before = out@;
            proof {
                assert(l@.take(i + 1).drop_last() =~= l@.take(i as int));
                assert(l@.take(i + 1).last() == l@[i as int]);
            }
            if let Some(x) = lenient_f64(&l[i]) {
                out.push(x);
                assert(out@.map_values(|x: i64| x as int) =~= before.map_values(
                    |x: i64| x as int,
                ).push(x as int));
            }
            i = i + 1;
        }
        assert(l@.take(i as int) =~= l@);
    }
    out
}

/// The strikes of the calls and of the puts.
pub fn strikes(v: &Json) -> (r: (Vec<i64>, Vec<i64>))
    ensures
        r.0@.map_values(|x: i64| x as int) == amounts_in(items_of(v.at("call"@))),
        r.1@.map_values(|x: i64| x as int) == amounts_in(items_of(v.at("put"@))),
{
    (number_array(v, "call"), number_array(v, "put"))
}

/// A strike as the API wants it, with no more digits than it needs.
pub fn trim_float(x: i64) -> (r: String)
    requires
        is_price(x as int),
    ensures
        r@ == short_text(x as int),
{
    let mut t = String::new();
    push_shortest(&mut t, x);
    assert(t@ =~= short_text(x as int));
    t
}

/// The contract of an option: that of the first item of the reply.
pub fn option_conid(v: &Json) -> (r: Option<i64>)
    ensures
        opt_int(r) == (if v.items().len() > 0 {
            conid_in(v.items()[0])
        } else {
            None
        }),
{
    match v {
        Json::List(l) => if l.len() > 0 {
            conid_of(&l[0])
        } else {
            None
        },
        _ => None,
    }
}

// --- snapshots and orders --------------------------------------------------

/// The first item, from `i` on, about the contract `conid`.
pub open spec fn item_about(items: Seq<Json>, conid: int, i: int) -> Option<Json>
    decreases items.len() - i,
{
    if i < 0 || i >= items.len() {
        None
    } else if conid_in(items[i]) == Some(conid) {
        Some(items[i])
    } else {
        item_about(items, conid, i + 1)
    }
}

/// The item of a snapshot reply to read: the one about the contract, or else the
/// first.
pub open spec fn snapshot_item(items: Seq<Json>, conid: int) -> Option<Json> {
    match item_about(items, conid, 0) {
        Some(x) => Some(x),
        None => if items.len() > 0 {
            Some(items[0])
        } else {
            None
        },
    }
}

/// The amount of a snapshot field.
pub open spec fn field_of(item: Option<Json>, code: u32) -> Option<int> {
    match item {
        Some(v) => lenient_opt(v.at(int_text(code as int))),
        None => None,
    }
}

/// The whole part of an amount.
pub open spec fn whole_part_of(x: Option<int>) -> Option<int> {
    match x {
        Some(v) => if v >= 0 {
            Some(v / SCALE as int)
        } else {
            Some(-((-v) / SCALE as int))
        },
        None => None,
    }
}

fn pick_item(v: &Json, conid: i64) -> (r: Option<&Json>)
    ensures
        r is Some <==> snapshot_item(v.items(), conid as int) is Some,
        r is Some ==> *(r->0) == snapshot_item(v.items(), conid as int)->0,
{
    match v {
        Json::List(l) => {
            let mut i: usize = 0;
            while i < l.len()
                invariant
                    *v == Json::List(*l),
                    i <= l@.len(),
                    item_about(l@, conid as int, 0) == item_about(l@, conid as int, i as int),
                decreases l@.len() - i,
            {
                if let Some(id) = conid_of(&l[i]) {
                    if id == conid {
                        return Some(&l[i]);
                    }
                }
                i = i + 1;
            }
            if l.len() > 0 {
                Some(&l[0])
            } else {
                None
            }
        },
        _ => None,
    }
}

fn read_field(item: Option<&Json>, code: u32) -> (r: Option<i64>)
    ensures
        opt_int(r) == field_of(
            (match item {
                Some(v) => Some(*v),
                None => None,
            }),
            code,
        ),
{
    match item {
        Some(v) => {
            let key = int_string(code as i128);
            match v.get(key.as_str()) {
                Some(x) => lenient_f64(x),
                None => None,
            }
        },
        None => None,
    }
}

fn read_count(item: Option<&Json>, code: u32) -> (r: Option<i64>)
    ensures
        opt_int(r) == whole_part_of(
            field_of(
                (match item {
                    Some(v) => Some(*v),
                    None => None,
                }),
                code,
            ),
        ),
{
    match read_field(item, code) {
        Some(x) => if x >= 0 {
            Some(x / 1_000_000)
        } else {
            Some((-((-(x as i128)) / 1_000_000)) as i64)
        },
        None => None,
    }
}

/// The snapshot of the contract `conid`.
pub fn option_snapshot(v: &Json, conid: i64, fields: FieldCodes) -> (r: OptionQuoteSnap)
    ensures
        ({
            let item = snapshot_item(v.items(), conid as int);
            &&& r.conid == conid
            &&& opt_int(r.last) == field_of(item, fields.last)
            &&& opt_int(r.bid) == field_of(item, fields.bid)
            &&& opt_int(r.ask) == field_of(item, fields.ask)
            &&& opt_int(r.implied_volatility) == field_of(item, fields.implied_volatility)
            &&& opt_int(r.delta) == field_of(item, fields.delta)
            &&& opt_int(r.gamma) == field_of(item, fields.gamma)
            &&& opt_int(r.theta) == field_of(item, fields.theta)
            &&& opt_int(r.vega) == field_of(item, fields.vega)
            &&& opt_int(r.open_interest) == whole_part_of(field_of(item, fields.open_interest))
            &&& opt_int(r.volume) == whole_part_of(field_of(item, fields.volume))
        }),
{
    let item = pick_item(v, conid);
    OptionQuoteSnap {
        conid,
        last: read_field(item, fields.last),
        bid: read_field(item, fields.bid),
        ask: read_field(item, fields.ask),
        implied_volatility: read_field(item, fields.implied_volatility),
        delta: read_field(item, fields.delta),
        gamma: read_field(item, fields.gamma),
        theta: read_field(item, fields.theta),
        vega: read_field(item, fields.vega),
        open_interest: read_count(item, fields.open_interest),
        volume: read_count(item, fields.volume),
    }
}

/// What a preview says of margin and commission, with the reply itself.
pub fn preview_order(v: Json) -> (r: OrderPreview)
    ensures
        opt_text(r.amount) == word_in(v, "amount"@),
        opt_text(r.equity_change) == word_in(v, "equity"@),
        opt_text(r.init_margin_change) == word_in(v, "initial"@),
        opt_text(r.maint_margin_change) == word_in(v, "maintenance"@),
        opt_text(r.commission) == word_in(v, "commission"@),
        opt_text(r.warning) == word_in(v, "warn"@),
        r.raw == v,
{
    OrderPreview {
        amount: dig_str(&v, "amount"),
        equity_change: dig_str(&v, "equity"),
        init_margin_change: dig_str(&v, "initial"),
        maint_margin_change: dig_str(&v, "maintenance"),
        commission: dig_str(&v, "commission"),
        warning: dig_str(&v, "warn"),
        raw: v,
    }
}

/// Whether `v` is the whole number `x`.
pub open spec fn is_whole(v: Json, x: int) -> bool {
    match v {
        Json::Number(n) => {
            &&& opt_int(n.whole) == Some(x)
            &&& opt_int(n.amount) == (if i64::MIN <= x * SCALE <= i64::MAX {
                Some(x * SCALE)
            } else {
                None
            })
            &&& n.notation@ == int_text(x)
        },
        _ => false,
    }
}

/// The notation of an amount as a fraction: always with a point.
pub open spec fn fraction_text(x: int) -> Seq<char> {
    if x % (SCALE as int) == 0 {
        short_text(x) + ".0"@
    } else {
        short_text(x)
    }
}

/// Whether `v` is the amount `x` (in millionths), as a fraction.
pub open spec fn is_fraction(v: Json, x: int) -> bool {
    match v {
        Json::Number(n) => {
            &&& n.whole is None
            &&& opt_int(n.amount) == Some(x)
            &&& n.notation@ == fraction_text(x)
        },
        _ => false,
    }
}

/// Whether `e` is the entry of a text under a key.
pub open spec fn is_text_entry(e: JsonEntry, key: Seq<char>, t: Seq<char>) -> bool {
    e.key@ == key && e.value.text() == Some(t)
}

/// The body of an order, a limit order for the day: these six entries and no
/// other.
pub open spec fn is_payload(
    v: Json,
    conid: int,
    side: Seq<char>,
    quantity: int,
    limit: int,
) -> bool {
    match v {
        Json::Object(m) => {
            &&& m@.len() == 6
            &&& m@[0].key@ == "conid"@ && is_whole(m@[0].value, conid)
            &&& is_text_entry(m@[1], "orderType"@, "LMT"@)
            &&& is_text_entry(m@[2], "side"@, side)
            &&& m@[3].key@ == "quantity"@ && is_whole(m@[3].value, quantity)
            &&& m@[4].key@ == "price"@ && is_fraction(m@[4].value, limit)
            &&& is_text_entry(m@[5], "tif"@, "DAY"@)
        },
        _ => false,
    }
}

/// The keys of an order's body are distinct, so each entry is what the body holds
/// under its key.
pub proof fn law_payload_keys(v: Json, conid: int, side: Seq<char>, quantity: int, limit: int)
    requires
        is_payload(v, conid, side, quantity, limit),
    ensures
        forall|i: int, j: int|
            0 <= i < j < 6 ==> (#[trigger] v->Object_0@[i]).key@ != (#[trigger] v->Object_0@[j]).key@,
        whole_at(v, "conid"@) == Some(conid),
        v.text_at("orderType"@) == Some("LMT"@),
        v.text_at("side"@) == Some(side),
        whole_at(v, "quantity"@) == Some(quantity),
        lenient_opt(v.at("price"@)) == Some(limit),
        v.text_at("tif"@) == Some("DAY"@),
{
    reveal_strlit("conid");
    reveal_strlit("orderType");
    reveal_strlit("side");
    reveal_strlit("quantity");
    reveal_strlit("price");
    reveal_strlit("tif");
    assert("conid"@[0] == 'c' && "orderType"@[0] == 'o' && "side"@[0] == 's' && "quantity"@[0]
        == 'q' && "price"@[0] == 'p' && "tif"@[0] == 't');
    reveal_with_fuel(crate::ibkr::json::entry_from, 7);
}

fn whole_number(x: i64) -> (r: Json)
    ensures
        is_whole(r, x as int),
{
    let amount: i128 = x as i128 * 1_000_000;
    Json::Number(
        JsonNumber {
            whole: Some(x),
            amount: if i64::MIN as i128 <= amount && amount <= i64::MAX as i128 {
                Some(amount as i64)
            } else {
                None
            },
            notation: int_string(x as i128),
        },
    )
}

fn fraction_number(x: i64) -> (r: Json)
    ensures
        is_fraction(r, x as int),
{
    let mut notation = String::new();
    push_shortest(&mut notation, x);
    assert(notation@ =~= short_text(x as int));
    if x % 1_000_000 == 0 {
        notation.append(".0");
    }
    Json::Number(JsonNumber { whole: None, amount: Some(x), notation })
}

/// The body of an order: a limit order for the day.
pub fn order_payload(conid: i64, side: &str, quantity: i32, limit: i64) -> (r: Json)
    ensures
        is_payload(r, conid as int, side@, quantity as int, limit as int),
{
    let mut m: Vec<JsonEntry> = Vec::new();
    m.push(JsonEntry { key: own("conid"), value: whole_number(conid) });
    m.push(JsonEntry { key: own("orderType"), value: Json::Text(own("LMT")) });
    m.push(JsonEntry { key: own("side"), value: Json::Text(own(side)) });
    m.push(JsonEntry { key: own("quantity"), value: whole_number(quantity as i64) });
    m.push(JsonEntry { key: own("price"), value: fraction_number(limit) });
    m.push(JsonEntry { key: own("tif"), value: Json::Text(own("DAY")) });
    Json::Object(m)
}

/// The path of something of an account.
pub fn account_path(prefix: &str, account: &str, tail: &str) -> (r: String)
    ensures
        r@ == prefix@ + account@ + tail@,
{
    let mut t = own(prefix);
    t.append(account);
    t.append(tail);
    t
}

} // verus!

//! Values of JSON, as the web API sends and takes them.

use vstd::prelude::*;
use vstd::string::*;
use crate::decimal::{decimal_value, long_value, read_decimal, read_long};
use crate::engine::types::opt_int;
use crate::text::{chars_of, own, same_text, texts};

verus! {

/// A number of JSON: the whole number and the amount in millionths that it
/// stands for, as far as it is one, and its notation.
#[derive(Debug)]
pub struct JsonNumber {
    pub whole: Option<i64>,
    pub amount: Option<i64>,
    pub notation: String,
}

/// A value of JSON. The entries of an object have distinct keys.
#[derive(Debug)]
pub enum Json {
    Null,
    Bool(bool),
    Number(JsonNumber),
    Text(String),
    List(Vec<Json>),
    Object(Vec<JsonEntry>),
}

/// An entry of an object.
#[derive(Debug)]
pub struct JsonEntry {
    pub key: String,
    pub value: Json,
}

/// The first entry, from `i` on, with the key `key`.
pub open spec fn entry_from(entries: Seq<JsonEntry>, key: Seq<char>, i: int) -> Option<Json>
    decreases entries.len() - i,
{
    if i < 0 || i >= entries.len() {
        None
    } else if entries[i].key@ == key {
        Some(entries[i].value)
    } else {
        entry_from(entries, key, i + 1)
    }
}

impl Json {
    /// What an object holds under a key.
    pub open spec fn at(self, key: Seq<char>) -> Option<Json> {
        match self {
            Json::Object(m) => entry_from(m@, key, 0),
            _ => None,
        }
    }

    /// The text that a value is.
    pub open spec fn text(self) -> Option<Seq<char>> {
        match self {
            Json::Text(s) => Some(s@),
            _ => None,
        }
    }

    /// The items of a list; nothing of any other value.
    pub open spec fn items(self) -> Seq<Json> {
        match self {
            Json::List(v) => v@,
            _ => Seq::empty(),
        }
    }

    /// The whole number that a value is, or that a text denotes.
    pub open spec fn long(self) -> Option<int> {
        match self {
            Json::Number(n) => match n.whole {
                Some(x) => Some(x as int),
                None => None,
            },
            Json::Text(s) => long_value(s@),
            _ => None,
        }
    }

    /// What an object holds under a key, `None` of any other value.
    pub fn get(&self, key: &str) -> (r: Option<&Json>)
        ensures
            r is Some <==> self.at(key@) is Some,
            r is Some ==> *(r->0) == self.at(key@)->0,
    {
        match self {
            Json::Object(m) => {
                let mut i: usize = 0;
                while i < m.len()
                    invariant
                        *self == Json::Object(*m),
                        i <= m@.len(),
                        entry_from(m@, key@, 0) == entry_from(m@, key@, i as int),
                    decreases m@.len() - i,
                {
                    if same_text(m[i].key.as_str(), key) {
                        return Some(&m[i].value);
                    }
                    i = i + 1;
                }
                None
            },
            _ => None,
        }
    }

    /// The text under a key.
    pub open spec fn text_at(self, key: Seq<char>) -> Option<Seq<char>> {
        match self.at(key) {
            Some(v) => v.text(),
            None => None,
        }
    }

    /// The text that an object holds under a key.
    pub fn get_text(&self, key: &str) -> (r: Option<&str>)
        ensures
            r is Some <==> self.text_at(key@) is Some,
            r is Some ==> (r->0)@ == self.text_at(key@)->0,
    {
        match self.get(key) {
            Some(v) => v.as_text(),
            None => None,
        }
    }

    /// The text that a value is.
    pub fn as_text(&self) -> (r: Option<&str>)
        ensures
            r is Some <==> self.text() is Some,
            r is Some ==> (r->0)@ == self.text()->0,
    {
        match self {
            Json::Text(s) => Some(s.as_str()),
            _ => None,
        }
    }
}

/// The whole number that a value is, or that a text denotes.
pub fn value_as_i64(v: &Json) -> (r: Option<i64>)
    ensures
        r is Some <==> v.long() is Some,
        r is Some ==> r->0 == v.long()->0,
{
    match v {
        Json::Number(n) => n.whole,
        Json::Text(s) => read_long(&chars_of(s.as_str())),
        _ => None,
    }
}

// --- reading ---------------------------------------------------------------

/// What a text of JSON is at its outermost level.
pub enum JsonLevel {
    Null,
    Bool(bool),
    /// The whole number that it is, as far as it is one of 64 bits, and its notation.
    Number(Option<i64>, String),
    Text(String),
    List,
    Object,
}

/// What a [`JsonLevel`] shows.
pub enum LevelView {
    Null,
    Bool(bool),
    Number(Option<int>, Seq<char>),
    Text(Seq<char>),
    List,
    Object,
}

impl View for JsonLevel {
    type V = LevelView;

    open spec fn view(&self) -> LevelView {
        match *self {
            JsonLevel::Null => LevelView::Null,
            JsonLevel::Bool(b) => LevelView::Bool(b),
            JsonLevel::Number(n, t) => LevelView::Number(opt_int(n), t@),
            JsonLevel::Text(t) => LevelView::Text(t@),
            JsonLevel::List => LevelView::List,
            JsonLevel::Object => LevelView::Object,
        }
    }
}

/// What the text of JSON is at its outermost level, or `None` where it is no JSON.
pub uninterp spec fn json_level(text: Seq<char>) -> Option<LevelView>;

/// The texts of the items of a list.
pub uninterp spec fn json_items(text: Seq<char>) -> Option<Seq<Seq<char>>>;

/// The keys of an object and the texts of its values, in the order of the keys.
pub uninterp spec fn json_entries(text: Seq<char>) -> Option<Seq<(Seq<char>, Seq<char>)>>;

/// `serde_json::from_str` into a `serde_json::Value`: which of its variants the
/// text is. Of a number it hands back what `as_i64` and `to_string` give. An object
/// whose first key is the crate's own token for a raw value is read as the value
/// that its text holds.
#[verifier::external_body]
fn read_level(text: &str) -> (r: Option<JsonLevel>)
    ensures
        r is Some <==> json_level(text@) is Some,
        r is Some ==> (r->0)@ == json_level(text@)->0,
{
    Some(match serde_json::from_str::<serde_json::Value>(text).ok()? {
        serde_json::Value::Null => JsonLevel::Null,
        serde_json::Value::Bool(b) => JsonLevel::Bool(b),
        serde_json::Value::Number(n) => JsonLevel::Number(n.as_i64(), n.to_string()),
        serde_json::Value::String(s) => JsonLevel::Text(s),
        serde_json::Value::Array(_) => JsonLevel::List,
        serde_json::Value::Object(_) => JsonLevel::Object,
    })
}

/// `serde_json::from_str` into a list of `serde_json::value::RawValue`: the texts of
/// its items as they stand, or `None` where the text is no list.
#[verifier::external_body]
fn read_items(text: &str) -> (r: Option<Vec<String>>)
    ensures
        r is Some <==> json_items(text@) is Some,
        r is Some ==> texts((r->0)@) == json_items(text@)->0,
{
    let items = serde_json::from_str::<Vec<Box<serde_json::value::RawValue>>>(text).ok()?;
    Some(items.iter().map(|item| item.get().to_string()).collect())
}

/// `serde_json::from_str` into an ordered map of `serde_json::value::RawValue`: each
/// key once, in order, with the text of its value as it stands, or `None` where the
/// text is no object.
#[verifier::external_body]
fn read_entries(text: &str) -> (r: Option<Vec<(String, String)>>)
    ensures
        r is Some <==> json_entries(text@) is Some,
        r is Some ==> pairs((r->0)@) == json_entries(text@)->0,
{
    let map = serde_json::from_str::<
        std::collections::BTreeMap<String, Box<serde_json::value::RawValue>>,
    >(text).ok()?;
    Some(map.into_iter().map(|(key, value)| (key, value.get().to_string())).collect())
}

/// The texts of a list of pairs.
pub open spec fn pairs(v: Seq<(String, String)>) -> Seq<(Seq<char>, Seq<char>)> {
    v.map_values(|p: (String, String)| (p.0@, p.1@))
}

/// How deep values may nest.
pub const MAX_DEPTH: u32 = 128;

/// Whether a text is JSON that nests no deeper than `depth` levels.
pub open spec fn reads(text: Seq<char>, depth: nat) -> bool
    decreases depth,
{
    depth > 0 && match json_level(text) {
        None => false,
        Some(LevelView::List) => match json_items(text) {
            Some(items) => forall|i: int|
                0 <= i < items.len() ==> reads(#[trigger] items[i], (depth - 1) as nat),
            None => false,
        },
        Some(LevelView::Object) => match json_entries(text) {
            Some(entries) => forall|i: int|
                0 <= i < entries.len() ==> reads((#[trigger] entries[i]).1, (depth - 1) as nat),
            None => false,
        },
        Some(_) => true,
    }
}

/// Whether `j` is the value that a text of JSON denotes.
pub open spec fn denotes(text: Seq<char>, j: Json, depth: nat) -> bool
    decreases depth,
{
    depth > 0 && match json_level(text) {
        None => false,
        Some(LevelView::Null) => j is Null,
        Some(LevelView::Bool(b)) => j == Json::Bool(b),
        Some(LevelView::Number(whole, notation)) => match j {
            Json::Number(n) => {
                &&& opt_int(n.whole) == whole
                &&& n.notation@ == notation
                &&& opt_int(n.amount) == decimal_value(notation)
            },
            _ => false,
        },
        Some(LevelView::Text(t)) => j.text() == Some(t),
        Some(LevelView::List) => match (j, json_items(text)) {
            (Json::List(v), Some(items)) => {
                &&& v@.len() == items.len()
                &&& forall|i: int|
                    0 <= i < items.len() ==> denotes(
                        #[trigger] items[i],
                        v@[i],
                        (depth - 1) as nat,
                    )
            },
            _ => false,
        },
        Some(LevelView::Object) => match (j, json_entries(text)) {
            (Json::Object(m), Some(entries)) => {
                &&& m@.len() == entries.len()
                &&& forall|i: int|
                    0 <= i < entries.len() ==> m@[i].key@ == (#[trigger] entries[i]).0 && denotes(
                        entries[i].1,
                        m@[i].value,
                        (depth - 1) as nat,
                    )
            },
            _ => false,
        },
    }
}

/// Every item of a list that reads, reads.
proof fn lemma_item_reads(text: Seq<char>, items: Seq<Seq<char>>, i: int, depth: nat)
    requires
        json_level(text) == Some(LevelView::List),
        json_items(text) == Some(items),
        0 <= i < items.len(),
        reads(text, depth),
    ensures
        reads(items[i], (depth - 1) as nat),
{
    assert(items[i] == json_items(text)->0[i]);
}

fn read_list(text: &str, depth: u32) -> (r: Option<Json>)
    requires
        depth > 0,
        json_level(text@) == Some(LevelView::List),
    ensures
        r is Some <==> reads(text@, depth as nat),
        r is Some ==> denotes(text@, r->0, depth as nat),
    decreases depth, 0nat,
{
    let items = match read_items(text) {
        Some(items) => items,
        None => {
            return None;
        },
    };
    let ghost all = json_items(text@)->0;
    let mut out: Vec<Json> = Vec::new();
    let mut i: usize = 0;
    while i < items.len()
        invariant
            depth > 0,
            i <= items@.len(),
            out@.len() == i,
            texts(items@) == all,
            json_items(text@) == Some(all),
            json_level(text@) == Some(LevelView::List),
            forall|k: int|
                0 <= k < i ==> reads(#[trigger] all[k], (depth - 1) as nat) && denotes(
                    all[k],
                    out@[k],
                    (depth - 1) as nat,
                ),
        decreases items@.len() - i,
    {
        assert(all[i as int] == items@[i as int]@);
        match read_json(items[i].as_str(), depth - 1) {
            Some(j) => {
                out.push(j);
            },
            None => {
                assert(i < all.len());
                proof {
                    if reads(text@, depth as nat) {
                        lemma_item_reads(text@, all, i as int, depth as nat);
                    }
                }
                return None;
            },
        }
        i = i + 1;
    }
    assert(all.len() == items@.len());
    Some(Json::List(out))
}

/// Every value of an object that reads, reads.
proof fn lemma_entry_reads(
    text: Seq<char>,
    entries: Seq<(Seq<char>, Seq<char>)>,
    i: int,
    depth: nat,
)
    requires
        json_level(text) == Some(LevelView::Object),
        json_entries(text) == Some(entries),
        0 <= i < entries.len(),
        reads(text, depth),
    ensures
        reads(entries[i].1, (depth - 1) as nat),
{
    assert(entries[i] == json_entries(text)->0[i]);
}

fn read_object(text: &str, depth: u32) -> (r: Option<Json>)
    requires
        depth > 0,
        json_level(text@) == Some(LevelView::Object),
    ensures
        r is Some <==> reads(text@, depth as nat),
        r is Some ==> denotes(text@, r->0, depth as nat),
    decreases depth, 0nat,
{
    let entries = match read_entries(text) {
        Some(entries) => entries,
        None => {
            return None;
        },
    };
    let ghost all = json_entries(text@)->0;
    let mut out: Vec<JsonEntry> = Vec::new();
    let mut i: usize = 0;
    while i < entries.len()
        invariant
            depth > 0,
            i <= entries@.len(),
            out@.len() == i,
            pairs(entries@) == all,
            json_entries(text@) == Some(all),
            json_level(text@) == Some(LevelView::Object),
            forall|k: int|
                0 <= k < i ==> out@[k].key@ == (#[trigger] all[k]).0 && reads(
                    all[k].1,
                    (depth - 1) as nat,
                ) && denotes(all[k].1, out@[k].value, (depth - 1) as nat),
        decreases entries@.len() - i,
    {
        assert(all[i as int] == (entries@[i as int].0@, entries@[i as int].1@));
        match read_json(entries[i].1.as_str(), depth - 1) {
            Some(value) => {
                out.push(JsonEntry { key: own(entries[i].0.as_str()), value });
            },
            None => {
                assert(i < all.len());
                proof {
                    if reads(text@, depth as nat) {
                        lemma_entry_reads(text@, all, i as int, depth as nat);
                    }
                }
                return None;
            },
        }
        i = i + 1;
    }
    assert(all.len() == entries@.len());
    Some(Json::Object(out))
}

fn read_json(text: &str, depth: u32) -> (r: Option<Json>)
    ensures
        r is Some <==> reads(text@, depth as nat),
        r is Some ==> denotes(text@, r->0, depth as nat),
    decreases depth, 1nat,
{
    if depth == 0 {
        return None;
    }
    match read_level(text) {
        None => None,
        Some(JsonLevel::Null) => Some(Json::Null),
        Some(JsonLevel::Bool(b)) => Some(Json::Bool(b)),
        Some(JsonLevel::Number(whole, notation)) => {
            let amount = read_decimal(&chars_of(notation.as_str()));
            Some(Json::Number(JsonNumber { whole, amount, notation }))
        },
        Some(JsonLevel::Text(s)) => Some(Json::Text(s)),
        Some(JsonLevel::List) => read_list(text, depth),
        Some(JsonLevel::Object) => read_object(text, depth),
    }
}

/// Reads a text of JSON; `None` where it is none.
pub fn parse_json(text: &str) -> (r: Option<Json>)
    ensures
        r is Some <==> reads(text@, MAX_DEPTH as nat),
        r is Some ==> denotes(text@, r->0, MAX_DEPTH as nat),
{
    read_json(text, MAX_DEPTH)
}

} // verus!

//! A one-level model of JSON documents, with the lookups the plugin makes.
//!
//! A parsed document keeps its scalar contents as plain values; the members
//! of an array or an object are kept as their own JSON text and are parsed
//! again when a lookup reaches them.
use vstd::prelude::*;
use serde_json::Value;

verus! {

/// A JSON number: its canonical text, and its value where it is an
/// integer in the range of `u64`.
#[derive(Debug, Clone, PartialEq, Eq)]
pub struct JsonNumber {
    pub text: String,
    pub unsigned: Option<u64>,
}

/// One JSON value; the members of arrays and objects are JSON texts.
#[derive(Debug, Clone, PartialEq, Eq)]
pub enum Json {
    Null,
    Bool(bool),
    Number(JsonNumber),
    Str(String),
    Array(Vec<String>),
    Object(Vec<(String, String)>),
}

/// What a [`Json`] value holds, as mathematical values.
pub enum JsonView {
    Null,
    Bool(bool),
    Number(Seq<char>, Option<u64>),
    Str(Seq<char>),
    Array(Seq<Seq<char>>),
    Object(Seq<(Seq<char>, Seq<char>)>),
}

/// The views of the strings of a list.
pub open spec fn texts(v: Seq<String>) -> Seq<Seq<char>> {
    v.map_values(|s: String| s@)
}

/// The views of a list of string pairs.
pub open spec fn text_pairs(v: Seq<(String, String)>) -> Seq<(Seq<char>, Seq<char>)> {
    v.map_values(|p: (String, String)| (p.0@, p.1@))
}

impl View for Json {
    type V = JsonView;

    open spec fn view(&self) -> JsonView {
        match self {
            Json::Null => JsonView::Null,
            Json::Bool(b) => JsonView::Bool(*b),
            Json::Number(n) => JsonView::Number(n.text@, n.unsigned),
            Json::Str(s) => JsonView::Str(s@),
            Json::Array(a) => JsonView::Array(texts(a@)),
            Json::Object(o) => JsonView::Object(text_pairs(o@)),
        }
    }
}

/// The view of an optional value.
pub open spec fn view_of(v: Option<Json>) -> Option<JsonView> {
    match v {
        Some(j) => Some(j@),
        None => None,
    }
}

/// The value that `serde_json` reads from a text, or `None` where the text
/// is not one JSON document.
pub uninterp spec fn json_document(text: Seq<char>) -> Option<JsonView>;

/// The compact JSON text that `serde_json` writes for an object whose
/// members are the given keys and string values.
pub uninterp spec fn json_object_text(members: Seq<(Seq<char>, Seq<char>)>) -> Seq<char>;

/// Parses a JSON document with `serde_json::from_str::<serde_json::Value>`.
///
/// Trusted: the contract claims only that the result is the value that the
/// named function `json_document` gives for the text. Scalars are handed
/// out as they are (a number as its `Display` text and `Number::as_u64`);
/// the members of arrays and objects as the text that `Value`'s `Display`
/// writes for them.
#[verifier::external_body]
pub(crate) fn parse_json(text: &str) -> (r: Option<Json>)
    ensures
        view_of(r) == json_document(text@),
{
    let value: Value = serde_json::from_str(text).ok()?;
    Some(match value {
        Value::Null => Json::Null,
        Value::Bool(b) => Json::Bool(b),
        Value::Number(n) => Json::Number(JsonNumber { text: n.to_string(), unsigned: n.as_u64() }),
        Value::String(s) => Json::Str(s),
        Value::Array(a) => Json::Array(a.iter().map(|e| e.to_string()).collect()),
        Value::Object(m) => Json::Object(m.iter().map(|(k, e)| (k.clone(), e.to_string())).collect()),
    })
}

/// Writes a JSON object of string members with `serde_json`: a
/// `serde_json::Map` filled by `insert` in the given order, wrapped in
/// `Value::Object` and written by `Value`'s `Display` (`to_string`).
///
/// Trusted: the contract claims only that the text is the one the named
/// function `json_object_text` gives for the members.
#[verifier::external_body]
pub(crate) fn json_object(members: &Vec<(String, String)>) -> (r: String)
    ensures
        r@ == json_object_text(text_pairs(members@)),
{
    let mut map = serde_json::Map::new();
    for (k, v) in members {
        map.insert(k.clone(), Value::String(v.clone()));
    }
    Value::Object(map).to_string()
}

// ---------------------------------------------------------------------------
// Lookups
// ---------------------------------------------------------------------------

/// The text of the first member named `key`.
pub open spec fn lookup(entries: Seq<(Seq<char>, Seq<char>)>, key: Seq<char>) -> Option<Seq<char>>
    decreases entries.len(),
{
    if entries.len() == 0 {
        None
    } else if entries[0].0 == key {
        Some(entries[0].1)
    } else {
        lookup(entries.drop_first(), key)
    }
}

/// The member `key` of an object (`Value::get` with a string key).
pub open spec fn member(v: Option<JsonView>, key: Seq<char>) -> Option<JsonView> {
    match v {
        Some(JsonView::Object(entries)) => match lookup(entries, key) {
            Some(t) => json_document(t),
            None => None,
        },
        _ => None,
    }
}

/// The contents of a string value (`Value::as_str`).
pub open spec fn string_value(v: Option<JsonView>) -> Option<Seq<char>> {
    match v {
        Some(JsonView::Str(s)) => Some(s),
        _ => None,
    }
}

/// A number as an unsigned integer (`Value::as_u64`).
pub open spec fn unsigned_value(v: Option<JsonView>) -> Option<u64> {
    match v {
        Some(JsonView::Number(_, u)) => u,
        _ => None,
    }
}

/// The text of a number (it stands where the program reads `Value::as_f64`).
pub open spec fn number_text(v: Option<JsonView>) -> Option<Seq<char>> {
    match v {
        Some(JsonView::Number(t, _)) => Some(t),
        _ => None,
    }
}

/// A boolean value (`Value::as_bool`).
pub open spec fn bool_value(v: Option<JsonView>) -> Option<bool> {
    match v {
        Some(JsonView::Bool(b)) => Some(b),
        _ => None,
    }
}

/// The member texts of an array (`Value::as_array`).
pub open spec fn elements(v: Option<JsonView>) -> Option<Seq<Seq<char>>> {
    match v {
        Some(JsonView::Array(items)) => Some(items),
        _ => None,
    }
}

/// The member `key` of an object.
pub fn get_member(v: &Option<Json>, key: &str) -> (r: Option<Json>)
    ensures
        view_of(r) == member(view_of(*v), key@),
{
    match v {
        Some(Json::Object(entries)) => {
            let ghost all = text_pairs(entries@);
            let mut i: usize = 0;
            assert(all.subrange(0, all.len() as int) =~= all);
            while i < entries.len()
                invariant
                    i <= entries.len(),
                    all == text_pairs(entries@),
                    view_of(*v) == Some(JsonView::Object(all)),
                    lookup(all, key@) == lookup(all.subrange(i as int, all.len() as int), key@),
                decreases entries.len() - i,
            {
                let ghost rest = all.subrange(i as int, all.len() as int);
                assert(rest[0] == (entries@[i as int].0@, entries@[i as int].1@));
                if crate::text::same(&entries[i].0, key) {
                    assert(lookup(rest, key@) == Some(entries@[i as int].1@));
                    assert(view_of(*v) == Some(JsonView::Object(all)));
                    assert(lookup(all, key@) == Some(entries[i as int].1@));
                    return parse_json(entries[i].1.as_str());
                }
                assert(rest.drop_first() =~= all.subrange(i + 1, all.len() as int));
                i = i + 1;
            }
            assert(all.subrange(i as int, all.len() as int) =~= Seq::<(Seq<char>, Seq<char>)>::empty());
            None
        },
        _ => None,
    }
}

/// The contents of a string value.
pub fn get_string(v: &Option<Json>) -> (r: Option<String>)
    ensures
        match r {
            Some(s) => string_value(view_of(*v)) == Some(s@),
            None => string_value(view_of(*v)) is None,
        },
{
    match v {
        Some(Json::Str(s)) => Some(s.clone()),
        _ => None,
    }
}

/// A number as an unsigned integer.
pub fn get_unsigned(v: &Option<Json>) -> (r: Option<u64>)
    ensures
        r == unsigned_value(view_of(*v)),
{
    match v {
        Some(Json::Number(n)) => n.unsigned,
        _ => None,
    }
}

/// The text of a number.
pub fn get_number_text(v: &Option<Json>) -> (r: Option<String>)
    ensures
        match r {
            Some(s) => number_text(view_of(*v)) == Some(s@),
            None => number_text(view_of(*v)) is None,
        },
{
    match v {
        Some(Json::Number(n)) => Some(n.text.clone()),
        _ => None,
    }
}

/// A boolean value.
pub fn get_bool(v: &Option<Json>) -> (r: Option<bool>)
    ensures
        r == bool_value(view_of(*v)),
{
    match v {
        Some(Json::Bool(b)) => Some(*b),
        _ => None,
    }
}

/// The member texts of an array.
pub fn get_elements(v: &Option<Json>) -> (r: Option<Vec<String>>)
    ensures
        match r {
            Some(items) => elements(view_of(*v)) == Some(texts(items@)),
            None => elements(view_of(*v)) is None,
        },
{
    match v {
        Some(Json::Array(items)) => {
            let mut out: Vec<String> = Vec::new();
            let mut i: usize = 0;
            while i < items.len()
                invariant
                    i <= items.len(),
                    out@ == items@.take(i as int),
                decreases items.len() - i,
            {
                out.push(items[i].clone());
                i = i + 1;
                assert(out@ =~= items@.take(i as int));
            }
            assert(items@.take(items.len() as int) =~= items@);
            Some(out)
        },
        _ => None,
    }
}

} // verus!

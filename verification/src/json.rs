//! JSON documents as the library reads them: a tree of plain values that `serde_json` parses,
//! and the lookups that streaming and API replies go through.

use crate::text::{from_chars, is_digit, parse_digits_u64, parse_u64_str, slice_chars, str_eq, to_chars};
use vstd::prelude::*;

verus! {

/// A parsed JSON value. Numbers keep the text `serde_json` renders for them, so that no float
/// is ever held; objects keep their entries in the order `serde_json` iterates its map.
#[derive(Debug)]
pub enum JsonValue {
    Null,
    Bool(bool),
    Number(String),
    Str(String),
    Array(Vec<JsonValue>),
    Object(Vec<(String, JsonValue)>),
}

/// A JSON value as plain values.
pub enum JsonModel {
    Null,
    Bool(bool),
    Number(Seq<char>),
    Str(Seq<char>),
    Array(Seq<JsonModel>),
    Object(Seq<(Seq<char>, JsonModel)>),
}

/// The plain values of a JSON tree.
pub open spec fn json_model(v: JsonValue) -> JsonModel
    decreases v,
{
    match v {
        JsonValue::Null => JsonModel::Null,
        JsonValue::Bool(b) => JsonModel::Bool(b),
        JsonValue::Number(n) => JsonModel::Number(n@),
        JsonValue::Str(s) => JsonModel::Str(s@),
        JsonValue::Array(a) => JsonModel::Array(
            Seq::new(
                a@.len(),
                |i: int|
                    if 0 <= i < a@.len() {
                        json_model(a@[i])
                    } else {
                        JsonModel::Null
                    },
            ),
        ),
        JsonValue::Object(m) => JsonModel::Object(
            Seq::new(
                m@.len(),
                |i: int|
                    if 0 <= i < m@.len() {
                        (m@[i].0@, json_model(m@[i].1))
                    } else {
                        (Seq::empty(), JsonModel::Null)
                    },
            ),
        ),
    }
}

/// The tree `serde_json::from_str::<serde_json::Value>` yields for a text, or `None` where the
/// text is not one JSON document.
pub uninterp spec fn parsed_json(text: Seq<char>) -> Option<JsonValue>;

/// The one-for-one copy of a `serde_json::Value` into the library's tree.
#[verifier::external_body]
fn tree_of(v: &serde_json::Value) -> JsonValue {
    match v {
        serde_json::Value::Null => JsonValue::Null,
        serde_json::Value::Bool(b) => JsonValue::Bool(*b),
        serde_json::Value::Number(n) => JsonValue::Number(n.to_string()),
        serde_json::Value::String(s) => JsonValue::Str(s.clone()),
        serde_json::Value::Array(a) => JsonValue::Array(a.iter().map(tree_of).collect()),
        serde_json::Value::Object(m) => JsonValue::Object(
            m.iter().map(|(k, x)| (k.clone(), tree_of(x))).collect(),
        ),
    }
}

/// `serde_json::from_str::<serde_json::Value>(text)`, copied into the library's tree. What the
/// parser accepts and builds is named by `parsed_json`, not restated.
#[verifier::external_body]
pub fn parse_json(text: &str) -> (r: Option<JsonValue>)
    ensures
        r == parsed_json(text@),
{
    match serde_json::from_str::<serde_json::Value>(text) {
        Ok(v) => Some(tree_of(&v)),
        Err(_) => None,
    }
}

/// The compact text `serde_json` writes for a value, given by its plain values (object keys in
/// its map's sorted order).
pub uninterp spec fn json_text(v: JsonModel) -> Seq<char>;

/// The copy of the library's tree into a `serde_json::Value`: each node one for one, except that
/// a number is read back from its text by `serde_json::from_str` (so a text that is some other
/// JSON document becomes that document) and becomes `null` where its text does not parse.
#[verifier::external_body]
fn value_of(v: &JsonValue) -> serde_json::Value {
    match v {
        JsonValue::Null => serde_json::Value::Null,
        JsonValue::Bool(b) => serde_json::Value::Bool(*b),
        JsonValue::Number(n) => serde_json::from_str(n).unwrap_or(serde_json::Value::Null),
        JsonValue::Str(s) => serde_json::Value::String(s.clone()),
        JsonValue::Array(a) => serde_json::Value::Array(a.iter().map(value_of).collect()),
        JsonValue::Object(m) => serde_json::Value::Object(
            m.iter().map(|(k, x)| (k.clone(), value_of(x))).collect(),
        ),
    }
}

/// `serde_json::Value::to_string`: the compact JSON text of the value.
#[verifier::external_body]
pub fn to_json_string(v: &JsonValue) -> (r: String)
    ensures
        r@ == json_text(json_model(*v)),
{
    value_of(v).to_string()
}

/// The value stored under `key` in an object (the first entry with that key); `None` for a
/// missing key or a value that is not an object. This is `serde_json::Value::get`.
pub open spec fn entries_get(m: Seq<(String, JsonValue)>, key: Seq<char>) -> Option<JsonValue>
    decreases m.len(),
{
    if m.len() == 0 {
        None
    } else if m[0].0@ == key {
        Some(m[0].1)
    } else {
        entries_get(m.drop_first(), key)
    }
}

pub open spec fn json_get(v: JsonValue, key: Seq<char>) -> Option<JsonValue> {
    match v {
        JsonValue::Object(m) => entries_get(m@, key),
        _ => None,
    }
}

/// `v[key]`: the value under `key`, or `null` where there is none.
pub open spec fn json_index(v: JsonValue, key: Seq<char>) -> JsonValue {
    match json_get(v, key) {
        Some(x) => x,
        None => JsonValue::Null,
    }
}

/// `as_str`: the text of a JSON string.
pub open spec fn json_str(v: JsonValue) -> Option<Seq<char>> {
    match v {
        JsonValue::Str(s) => Some(s@),
        _ => None,
    }
}

/// `as_u64`: a number that is a non-negative integer within 64 bits. `serde_json` renders such
/// a number as its plain decimal digits and every other number with a sign, a point or an
/// exponent.
pub open spec fn json_u64(v: JsonValue) -> Option<u64> {
    match v {
        JsonValue::Number(n) => parse_digits_u64(n@),
        _ => None,
    }
}

/// `as_i64`: a number that is an integer within 64 signed bits. `serde_json` renders such a
/// number as its decimal digits, after a `-` when it is negative.
pub open spec fn json_i64(v: JsonValue) -> Option<i64> {
    match v {
        JsonValue::Number(n) => if n@.len() > 0 && n@[0] == '-' {
            match parse_digits_u64(n@.drop_first()) {
                Some(k) => if k <= 0x8000_0000_0000_0000 {
                    Some((-(k as int)) as i64)
                } else {
                    None
                },
                None => None,
            }
        } else {
            match parse_digits_u64(n@) {
                Some(k) => if k <= i64::MAX {
                    Some(k as i64)
                } else {
                    None
                },
                None => None,
            }
        },
        _ => None,
    }
}

/// `as_u64().unwrap_or(0)`.
pub open spec fn json_u64_or_zero(v: JsonValue) -> u64 {
    match json_u64(v) {
        Some(n) => n,
        None => 0,
    }
}

/// `as_array`: the elements of a JSON array.
pub open spec fn json_array(v: JsonValue) -> Option<Seq<JsonValue>> {
    match v {
        JsonValue::Array(a) => Some(a@),
        _ => None,
    }
}

/// `as_str().unwrap_or("")`.
pub open spec fn json_str_or_empty(v: JsonValue) -> Seq<char> {
    match json_str(v) {
        Some(s) => s,
        None => Seq::empty(),
    }
}

impl JsonValue {
    /// `serde_json::Value::get` with a string key.
    pub fn get(&self, key: &str) -> (r: Option<&JsonValue>)
        ensures
            match r {
                Some(x) => json_get(*self, key@) == Some(*x),
                None => json_get(*self, key@) is None,
            },
    {
        match self {
            JsonValue::Object(m) => {
                let mut i: usize = 0;
                assert(m@.skip(0) =~= m@);
                while i < m.len()
                    invariant
                        *self == JsonValue::Object(*m),
                        i <= m@.len(),
                        entries_get(m@, key@) == entries_get(m@.skip(i as int), key@),
                    decreases m.len() - i,
                {
                    assert(m@.skip(i as int).drop_first() =~= m@.skip(i + 1));
                    if str_eq(m[i].0.as_str(), key) {
                        return Some(&m[i].1);
                    }
                    i = i + 1;
                }
                None
            },
            _ => None,
        }
    }

    /// `serde_json::Value::as_str`.
    pub fn as_str(&self) -> (r: Option<&String>)
        ensures
            match r {
                Some(s) => json_str(*self) == Some(s@),
                None => json_str(*self) is None,
            },
    {
        match self {
            JsonValue::Str(s) => Some(s),
            _ => None,
        }
    }

    /// `serde_json::Value::as_u64`.
    pub fn as_u64(&self) -> (r: Option<u64>)
        ensures
            r == json_u64(*self),
    {
        match self {
            JsonValue::Number(n) => {
                let chars = to_chars(n.as_str());
                if chars.len() > 0 && chars[0] == '+' {
                    assert(!is_digit(n@[0]));
                    None
                } else {
                    parse_u64_str(n.as_str())
                }
            },
            _ => None,
        }
    }

    /// `serde_json::Value::as_i64`.
    pub fn as_i64(&self) -> (r: Option<i64>)
        ensures
            r == json_i64(*self),
    {
        match self {
            JsonValue::Number(n) => {
                let chars = to_chars(n.as_str());
                let negative = chars.len() > 0 && chars[0] == '-';
                let start: usize = if negative {
                    1
                } else {
                    0
                };
                if chars.len() > start && chars[start] == '+' {
                    proof {
                        if negative {
                            assert(n@.drop_first()[0] == n@[1]);
                            assert(!is_digit(n@.drop_first()[0]));
                        } else {
                            assert(!is_digit(n@[0]));
                        }
                    }
                    return None;
                }
                let rest = from_chars(slice_chars(chars.as_slice(), start, chars.len()).as_slice());
                proof {
                    if negative {
                        assert(rest@ =~= n@.drop_first());
                    } else {
                        assert(rest@ =~= n@);
                    }
                }
                match parse_u64_str(rest.as_str()) {
                    Some(k) => {
                        if negative {
                            if k <= 0x8000_0000_0000_0000u64 {
                                if k == 0x8000_0000_0000_0000u64 {
                                    Some(i64::MIN)
                                } else {
                                    Some(-(k as i64))
                                }
                            } else {
                                None
                            }
                        } else if k <= 0x7fff_ffff_ffff_ffffu64 {
                            Some(k as i64)
                        } else {
                            None
                        }
                    },
                    None => None,
                }
            },
            _ => None,
        }
    }

    /// `serde_json::Value::as_array`.
    pub fn as_array(&self) -> (r: Option<&Vec<JsonValue>>)
        ensures
            match r {
                Some(a) => json_array(*self) == Some(a@),
                None => json_array(*self) is None,
            },
    {
        match self {
            JsonValue::Array(a) => Some(a),
            _ => None,
        }
    }

    /// `serde_json::Value::is_object`.
    pub fn is_object(&self) -> (r: bool)
        ensures
            r == (*self is Object),
    {
        match self {
            JsonValue::Object(_) => true,
            _ => false,
        }
    }
}

/// A looked-up value, with an absent one read as `null` as `serde_json`'s indexing does.
pub open spec fn or_null(v: Option<&JsonValue>) -> JsonValue {
    match v {
        Some(x) => *x,
        None => JsonValue::Null,
    }
}

/// The text of an optional string.
pub open spec fn str_view(s: Option<String>) -> Option<Seq<char>> {
    match s {
        Some(t) => Some(t@),
        None => None,
    }
}

/// `v[key]` on a value that may itself be absent.
pub fn index_in<'a>(v: Option<&'a JsonValue>, key: &str) -> (r: Option<&'a JsonValue>)
    ensures
        or_null(r) == json_index(or_null(v), key@),
{
    match v {
        Some(x) => x.get(key),
        None => None,
    }
}

/// `v.as_str().map(str::to_string)` on a value that may be absent.
pub fn str_in(v: Option<&JsonValue>) -> (r: Option<String>)
    ensures
        str_view(r) == json_str(or_null(v)),
{
    match v {
        Some(x) => match x.as_str() {
            Some(s) => Some(s.clone()),
            None => None,
        },
        None => None,
    }
}

/// `v.as_u64().unwrap_or(0)` on a value that may be absent.
pub fn u64_in(v: Option<&JsonValue>) -> (r: u64)
    ensures
        r == json_u64_or_zero(or_null(v)),
{
    match v {
        Some(x) => match x.as_u64() {
            Some(n) => n,
            None => 0,
        },
        None => 0,
    }
}

/// The plain values of a list of JSON values.
pub open spec fn models(items: Seq<JsonValue>) -> Seq<JsonModel> {
    Seq::new(items.len(), |i: int| json_model(items[i]))
}

/// The plain values of a list of object entries.
pub open spec fn entry_models(entries: Seq<(String, JsonValue)>) -> Seq<(Seq<char>, JsonModel)> {
    Seq::new(entries.len(), |i: int| (entries[i].0@, json_model(entries[i].1)))
}

/// A JSON string.
pub fn jstring(s: &str) -> (v: JsonValue)
    ensures
        json_model(v) == JsonModel::Str(s@),
{
    JsonValue::Str(s.to_string())
}

/// A JSON array of the given values.
pub fn jarray(items: Vec<JsonValue>) -> (v: JsonValue)
    ensures
        json_model(v) == JsonModel::Array(models(items@)),
{
    let v = JsonValue::Array(items);
    assert(json_model(v) == JsonModel::Array(models(items@))) by {
        if let JsonModel::Array(s) = json_model(v) {
            assert(s =~= models(items@));
        }
    }
    v
}

/// A JSON object with the given entries, in order.
pub fn jobject(entries: Vec<(String, JsonValue)>) -> (v: JsonValue)
    ensures
        json_model(v) == JsonModel::Object(entry_models(entries@)),
{
    let v = JsonValue::Object(entries);
    assert(json_model(v) == JsonModel::Object(entry_models(entries@))) by {
        if let JsonModel::Object(s) = json_model(v) {
            assert(s =~= entry_models(entries@));
        }
    }
    v
}

/// An optional string as JSON: the string, or `null`.
pub fn jopt_string(s: &Option<String>) -> (v: JsonValue)
    ensures
        json_model(v) == (match *s {
            Some(t) => JsonModel::Str(t@),
            None => JsonModel::Null,
        }),
{
    match s {
        Some(t) => JsonValue::Str(t.clone()),
        None => JsonValue::Null,
    }
}

/// `v.as_u64()` on a value that may be absent.
pub fn u64_opt_in(v: Option<&JsonValue>) -> (r: Option<u64>)
    ensures
        r == json_u64(or_null(v)),
{
    match v {
        Some(x) => x.as_u64(),
        None => None,
    }
}

} // verus!

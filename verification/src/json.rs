//! A JSON document model, read from and written to text by `serde_json`.
//!
//! The library builds and inspects values of [`Json`]; turning text into a
//! value and a value into text is `serde_json`'s work, reached through the
//! trusted items at the end of this file. Objects keep their entries in the
//! order given; when `serde_json` writes one, its map keeps one entry per key
//! (the last one given) in ascending key order.
use vstd::prelude::*;
use crate::text::chars_of;

verus! {

/// A JSON value whose numbers are held as their JSON text.
pub enum Json {
    Null,
    Bool(bool),
    Number(String),
    Str(String),
    Array(Vec<Json>),
    Object(Vec<(String, Json)>),
}

/// The mathematical form of a [`Json`] value.
pub enum JsonModel {
    Null,
    Bool(bool),
    Number(Seq<char>),
    Str(Seq<char>),
    Array(Seq<JsonModel>),
    Object(Seq<(Seq<char>, JsonModel)>),
}

/// The model of a JSON value.
pub open spec fn json_model(j: Json) -> JsonModel
    decreases j,
{
    match j {
        Json::Null => JsonModel::Null,
        Json::Bool(b) => JsonModel::Bool(b),
        Json::Number(t) => JsonModel::Number(t@),
        Json::Str(s) => JsonModel::Str(s@),
        Json::Array(items) => JsonModel::Array(item_models(items@)),
        Json::Object(es) => JsonModel::Object(entry_models(es@)),
    }
}

/// The models of a sequence of JSON values.
pub open spec fn item_models(s: Seq<Json>) -> Seq<JsonModel>
    decreases s,
{
    if s.len() == 0 {
        seq![]
    } else {
        item_models(s.drop_last()).push(json_model(s.last()))
    }
}

/// The models of a sequence of object entries.
pub open spec fn entry_models(s: Seq<(String, Json)>) -> Seq<(Seq<char>, JsonModel)>
    decreases s,
{
    if s.len() == 0 {
        seq![]
    } else {
        entry_models(s.drop_last()).push((s.last().0@, json_model(s.last().1)))
    }
}

impl View for Json {
    type V = JsonModel;

    open spec fn view(&self) -> JsonModel {
        json_model(*self)
    }
}

/// The value of the first entry with key `key`.
pub open spec fn lookup(es: Seq<(Seq<char>, JsonModel)>, key: Seq<char>) -> Option<JsonModel>
    decreases es.len(),
{
    if es.len() == 0 {
        None
    } else if es[0].0 == key {
        Some(es[0].1)
    } else {
        lookup(es.drop_first(), key)
    }
}

/// The member `key` of an object, `None` for other values.
pub open spec fn get_spec(m: JsonModel, key: Seq<char>) -> Option<JsonModel> {
    match m {
        JsonModel::Object(es) => lookup(es, key),
        _ => None,
    }
}

/// The text of a string value.
pub open spec fn as_str_spec(m: Option<JsonModel>) -> Option<Seq<char>> {
    match m {
        Some(JsonModel::Str(s)) => Some(s),
        _ => None,
    }
}

/// The first entry with a key is the one a lookup finds.
pub proof fn lemma_lookup_first(es: Seq<(Seq<char>, JsonModel)>, key: Seq<char>, i: int)
    requires
        0 <= i < es.len(),
        es[i].0 == key,
        forall|t: int| 0 <= t < i ==> es[t].0 != key,
    ensures
        lookup(es, key) == Some(es[i].1),
    decreases i,
{
    if i > 0 {
        assert(es[0].0 != key);
        let rest = es.drop_first();
        assert forall|t: int| 0 <= t < i - 1 implies rest[t].0 != key by {
            assert(rest[t] == es[t + 1]);
        }
        lemma_lookup_first(rest, key, i - 1);
    }
}

/// `item_models` keeps length and position.
pub proof fn lemma_item_models(s: Seq<Json>)
    ensures
        item_models(s).len() == s.len(),
        forall|i: int| 0 <= i < s.len() ==> #[trigger] item_models(s)[i] == json_model(s[i]),
    decreases s.len(),
{
    if s.len() > 0 {
        lemma_item_models(s.drop_last());
    }
}

/// `entry_models` keeps length and position.
pub proof fn lemma_entry_models(s: Seq<(String, Json)>)
    ensures
        entry_models(s).len() == s.len(),
        forall|i: int|
            0 <= i < s.len() ==> #[trigger] entry_models(s)[i] == (s[i].0@, json_model(s[i].1)),
    decreases s.len(),
{
    if s.len() > 0 {
        lemma_entry_models(s.drop_last());
    }
}

impl Json {
    /// The member `key` of an object.
    pub fn get(&self, key: &str) -> (r: Option<&Json>)
        ensures
            r is Some <==> get_spec(self@, key@) is Some,
            r matches Some(v) ==> get_spec(self@, key@) == Some(v@),
    {
        match self {
            Json::Object(es) => {
                let k = chars_of(key);
                let n = es.len();
                let ghost ms = entry_models(es@);
                proof {
                    lemma_entry_models(es@);
                    assert(ms.skip(0) =~= ms);
                }
                for i in 0..n
                    invariant
                        n == es@.len(),
                        ms == entry_models(es@),
                        ms.len() == n,
                        forall|t: int| 0 <= t < n ==> #[trigger] ms[t] == (es@[t].0@, json_model(es@[t].1)),
                        k@ == key@,
                        *self == Json::Object(*es),
                        lookup(ms, key@) == lookup(ms.skip(i as int), key@),
                {
                    let kc = chars_of(es[i].0.as_str());
                    if crate::text::chars_eq(&kc, &k) {
                        assert(ms.skip(i as int)[0] == ms[i as int]);
                        return Some(&es[i].1);
                    }
                    assert(ms.skip(i as int).drop_first() =~= ms.skip(i + 1));
                }
                assert(ms.skip(n as int).len() == 0);
                None
            },
            _ => None,
        }
    }

    /// The text of a string value.
    pub fn as_str(&self) -> (r: Option<&String>)
        ensures
            r is Some <==> self@ is Str,
            r matches Some(s) ==> self@ == JsonModel::Str(s@),
    {
        match self {
            Json::Str(s) => Some(s),
            _ => None,
        }
    }

    /// The entries of an object value.
    pub fn as_object(&self) -> (r: Option<&Vec<(String, Json)>>)
        ensures
            r is Some <==> self@ is Object,
            r matches Some(es) ==> self@ == JsonModel::Object(entry_models(es@)),
    {
        match self {
            Json::Object(es) => Some(es),
            _ => None,
        }
    }
}

/// The model of an optional JSON value.
pub open spec fn opt_model(j: Option<Json>) -> Option<JsonModel> {
    match j {
        Some(v) => Some(v@),
        None => None,
    }
}

#[verifier::external_type_specification]
#[verifier::external_body]
pub struct ExJsonValue(serde_json::Value);

/// The value `serde_json` reads from `text` (`serde_json::from_str` into a
/// `Value`), `None` when the text is not JSON.
pub uninterp spec fn parsed_json(text: Seq<char>) -> Option<JsonModel>;

/// The value `serde_json` reads from `bytes` (`serde_json::from_slice` into a
/// `Value`), or the text of its error.
pub uninterp spec fn parsed_json_bytes(bytes: Seq<u8>) -> Result<JsonModel, Seq<char>>;

/// The compact text `serde_json` writes for a value (`Value::to_string`).
pub uninterp spec fn json_text(m: JsonModel) -> Seq<char>;

/// A `serde_json::Value` as a [`Json`], variant for variant (numbers by their
/// `Number::to_string` text, object entries in the map's order).
#[verifier::external_body]
fn json_of_value(v: &serde_json::Value) -> Json {
    match v {
        serde_json::Value::Null => Json::Null,
        serde_json::Value::Bool(b) => Json::Bool(*b),
        serde_json::Value::Number(n) => Json::Number(n.to_string()),
        serde_json::Value::String(s) => Json::Str(s.clone()),
        serde_json::Value::Array(a) => Json::Array(a.iter().map(json_of_value).collect()),
        serde_json::Value::Object(m) => {
            Json::Object(m.iter().map(|(k, x)| (k.clone(), json_of_value(x))).collect())
        },
    }
}

/// A [`Json`] as a `serde_json::Value`, variant for variant (numbers parsed
/// from their text by `Number::from_str`, `null` where that fails; object
/// entries collected into a `serde_json::Map`).
#[verifier::external_body]
fn value_of_json(j: &Json) -> serde_json::Value {
    match j {
        Json::Null => serde_json::Value::Null,
        Json::Bool(b) => serde_json::Value::Bool(*b),
        Json::Number(t) => t.parse().map(serde_json::Value::Number).unwrap_or(serde_json::Value::Null),
        Json::Str(s) => serde_json::Value::String(s.clone()),
        Json::Array(a) => serde_json::Value::Array(a.iter().map(value_of_json).collect()),
        Json::Object(es) => {
            serde_json::Value::Object(es.iter().map(|(k, x)| (k.clone(), value_of_json(x))).collect())
        },
    }
}

/// `serde_json::from_str` into a `Value`: the value of `text`, `None` when it
/// is not JSON. What the value is, is left to the name [`parsed_json`].
#[verifier::external_body]
pub(crate) fn parse_json(text: &str) -> (r: Option<Json>)
    ensures
        opt_model(r) == parsed_json(text@),
{
    match serde_json::from_str::<serde_json::Value>(text) {
        Ok(v) => Some(json_of_value(&v)),
        Err(_) => None,
    }
}

/// `serde_json::from_slice` into a `Value`: the value of `bytes`, or the text
/// of the error (`Error::to_string`). Both are left to the name
/// [`parsed_json_bytes`].
#[verifier::external_body]
pub(crate) fn parse_json_bytes(bytes: &[u8]) -> (r: Result<Json, String>)
    ensures
        match r {
            Ok(j) => parsed_json_bytes(bytes@) == Ok::<JsonModel, Seq<char>>(j@),
            Err(e) => parsed_json_bytes(bytes@) == Err::<JsonModel, Seq<char>>(e@),
        },
{
    match serde_json::from_slice::<serde_json::Value>(bytes) {
        Ok(v) => Ok(json_of_value(&v)),
        Err(e) => Err(e.to_string()),
    }
}

/// `Value::to_string`: the compact JSON text of `j`, left to the name
/// [`json_text`].
#[verifier::external_body]
pub(crate) fn to_text(j: &Json) -> (r: String)
    ensures
        r@ == json_text(j@),
{
    value_of_json(j).to_string()
}

} // verus!

//! The JSON documents this library reads (metadata lines and upload
//! responses) are parsed by `serde_json`. The parser and its document type
//! are trusted: each wrapper states what the called function returns in terms
//! of an abstract document model, and everything that interprets a document
//! is verified against that model.

use vstd::prelude::*;

verus! {

/// Abstract model of a parsed JSON value. Only what the library reads is
/// distinguished: strings, objects, and everything else.
pub ghost enum JsonModel {
    Str(Seq<char>),
    Obj(Map<Seq<char>, JsonModel>),
    Other,
}

#[verifier::external_type_specification]
#[verifier::external_body]
pub struct ExValue(serde_json::Value);

/// The model of a given `serde_json::Value`: a pure function of the value.
pub uninterp spec fn value_model(v: serde_json::Value) -> JsonModel;

/// What `serde_json::from_str::<Value>` returns for a given text: `None`
/// where the text is not valid JSON. The result depends on the text alone.
pub uninterp spec fn json_of(s: Seq<char>) -> Option<JsonModel>;

/// Relies on `serde_json::from_str::<Value>`: parses a complete JSON text,
/// deterministically in the text.
#[verifier::external_body]
fn parse_value(s: &str) -> (r: Option<serde_json::Value>)
    ensures
        match r {
            Some(v) => json_of(s@) == Some(value_model(v)),
            None => json_of(s@) is None,
        },
{
    serde_json::from_str::<serde_json::Value>(s).ok()
}

/// Relies on `serde_json::Value::is_object`.
#[verifier::external_body]
fn value_is_object(v: &serde_json::Value) -> (r: bool)
    ensures
        r == (value_model(*v) matches JsonModel::Obj(_)),
{
    v.is_object()
}

/// Relies on `serde_json::Value::get` with a string index: on an object, the
/// entry under that key; `None` on any other value or an absent key.
#[verifier::external_body]
fn value_get<'a>(v: &'a serde_json::Value, key: &str) -> (r: Option<&'a serde_json::Value>)
    ensures
        match value_model(*v) {
            JsonModel::Obj(m) => match r {
                Some(child) => m.contains_key(key@) && value_model(*child) == m[key@],
                None => !m.contains_key(key@),
            },
            _ => r is None,
        },
{
    v.get(key)
}

/// Relies on `serde_json::Value::as_str`: the payload of a JSON string,
/// `None` on any other value.
#[verifier::external_body]
fn value_as_str<'a>(v: &'a serde_json::Value) -> (r: Option<&'a str>)
    ensures
        match value_model(*v) {
            JsonModel::Str(s) => r matches Some(x) && x@ == s,
            _ => r is None,
        },
{
    v.as_str()
}

/// The string payload found under `key` in the object `m`, if the key is
/// present and its value is a JSON string.
pub open spec fn str_field(m: Map<Seq<char>, JsonModel>, key: Seq<char>) -> Option<Seq<char>> {
    if m.contains_key(key) {
        match m[key] {
            JsonModel::Str(s) => Some(s),
            _ => None,
        }
    } else {
        None
    }
}

/// A parsed JSON document, held behind the verified accessors below.
pub struct JsonDoc {
    value: serde_json::Value,
}

impl View for JsonDoc {
    type V = JsonModel;

    closed spec fn view(&self) -> JsonModel {
        value_model(self.value)
    }
}

impl JsonDoc {
    /// Parses a complete JSON text; `None` where the text is not valid JSON.
    pub fn parse(s: &str) -> (r: Option<JsonDoc>)
        ensures
            match r {
                Some(doc) => json_of(s@) == Some(doc@),
                None => json_of(s@) is None,
            },
    {
        match parse_value(s) {
            Some(v) => Some(JsonDoc { value: v }),
            None => None,
        }
    }

    /// Whether the document is a JSON object.
    pub fn is_object(&self) -> (r: bool)
        ensures
            r == (self@ matches JsonModel::Obj(_)),
    {
        value_is_object(&self.value)
    }

    /// The string payload under `key`, when the document is an object, the
    /// key is present, and its value is a JSON string.
    pub fn str_entry(&self, key: &str) -> (r: Option<String>)
        ensures
            match self@ {
                JsonModel::Obj(m) => match r {
                    Some(s) => str_field(m, key@) == Some(s@),
                    None => str_field(m, key@) is None,
                },
                _ => r is None,
            },
    {
        match value_get(&self.value, key) {
            Some(child) => match value_as_str(child) {
                Some(s) => Some(s.to_owned()),
                None => None,
            },
            None => None,
        }
    }

    /// The object under `key`, when the document is an object, the key is
    /// present, and its value is itself a JSON object.
    pub fn object_entry(&self, key: &str) -> (r: Option<JsonDoc>)
        ensures
            match self@ {
                JsonModel::Obj(m) => match r {
                    Some(doc) => m.contains_key(key@) && m[key@] == doc@
                        && doc@ matches JsonModel::Obj(_),
                    None => !(m.contains_key(key@) && m[key@] matches JsonModel::Obj(_)),
                },
                _ => r is None,
            },
    {
        match value_get(&self.value, key) {
            Some(child) => {
                if value_is_object(child) {
                    Some(JsonDoc { value: clone_value(child) })
                } else {
                    None
                }
            },
            None => None,
        }
    }
}

/// Relies on `serde_json::Value::clone`: the copy has the same contents.
#[verifier::external_body]
fn clone_value(v: &serde_json::Value) -> (r: serde_json::Value)
    ensures
        value_model(r) == value_model(*v),
{
    v.clone()
}

} // verus!

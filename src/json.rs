//! A JSON document model read by the error mapper, and the calls into
//! serde_json that produce and print it.
use vstd::prelude::*;

verus! {

#[verifier::external_type_specification]
#[verifier::external_body]
pub struct ExJsonValue(serde_json::Value);

#[verifier::external_type_specification]
#[verifier::external_body]
pub struct ExJsonNumber(serde_json::Number);

/// A decoded JSON value. Object members keep the order in which the decoder
/// handed them out; numbers are carried through unread. A decoded object
/// never repeats a key. In an object built by hand that does, lookups read
/// the first entry with the key, while `render_json` prints the last one.
pub enum Json {
    Null,
    Bool(bool),
    Number(serde_json::Number),
    Str(String),
    Array(Vec<Json>),
    Object(Vec<(String, Json)>),
}

/// The value that serde_json decodes from a text, or `None` where the text is
/// not JSON.
pub uninterp spec fn json_decode(text: Seq<char>) -> Option<Json>;

/// The compact text that serde_json prints for a value.
pub uninterp spec fn json_text(value: Json) -> Seq<char>;

/// Relies on `serde_json::from_str::<serde_json::Value>`: whether a text
/// decodes, and into which value, depends on the text alone. A failure is
/// handed back as serde_json's description of it.
#[verifier::external_body]
pub(crate) fn decode_json(text: &str) -> (r: Result<Json, String>)
    ensures
        r is Ok <==> json_decode(text@) is Some,
        r matches Ok(j) ==> json_decode(text@) == Some(j),
{
    serde_json::from_str::<serde_json::Value>(text).map(json_from_value).map_err(|e| e.to_string())
}

/// Moves a decoded `serde_json::Value` into the library's model, variant for
/// variant.
#[verifier::external_body]
fn json_from_value(v: serde_json::Value) -> Json {
    match v {
        serde_json::Value::Null => Json::Null,
        serde_json::Value::Bool(b) => Json::Bool(b),
        serde_json::Value::Number(n) => Json::Number(n),
        serde_json::Value::String(s) => Json::Str(s),
        serde_json::Value::Array(a) => Json::Array(a.into_iter().map(json_from_value).collect()),
        serde_json::Value::Object(m) => Json::Object(
            m.into_iter().map(|(k, x)| (k, json_from_value(x))).collect(),
        ),
    }
}

/// Relies on `Display` for `serde_json::Value` (compact form): the text
/// depends on the value alone.
#[verifier::external_body]
pub(crate) fn render_json(value: &Json) -> (r: String)
    ensures
        r@ == json_text(*value),
{
    value_from_json(value).to_string()
}

/// Copies the library's model back into a `serde_json::Value`, variant for
/// variant.
#[verifier::external_body]
fn value_from_json(j: &Json) -> serde_json::Value {
    match j {
        Json::Null => serde_json::Value::Null,
        Json::Bool(b) => serde_json::Value::Bool(*b),
        Json::Number(n) => serde_json::Value::Number(n.clone()),
        Json::Str(s) => serde_json::Value::String(s.clone()),
        Json::Array(a) => serde_json::Value::Array(a.iter().map(value_from_json).collect()),
        Json::Object(e) => serde_json::Value::Object(
            e.iter().map(|(k, x)| (k.clone(), value_from_json(x))).collect(),
        ),
    }
}

/// The member stored under `key` in a list of object entries: the first entry
/// with that key.
pub open spec fn entry_of(entries: Seq<(String, Json)>, key: Seq<char>) -> Option<Json>
    decreases entries.len(),
{
    if entries.len() == 0 {
        None
    } else if entries[0].0@ == key {
        Some(entries[0].1)
    } else {
        entry_of(entries.drop_first(), key)
    }
}

/// The member `key` of an object; `None` for a missing key and for a value
/// that is not an object.
pub open spec fn member(j: Json, key: Seq<char>) -> Option<Json> {
    match j {
        Json::Object(entries) => entry_of(entries@, key),
        _ => None,
    }
}

/// The member `key` of an object where that member is a string.
pub open spec fn str_member(j: Json, key: Seq<char>) -> Option<Seq<char>> {
    match member(j, key) {
        Some(Json::Str(s)) => Some(s@),
        _ => None,
    }
}

impl Json {
    /// Looks up the member `key` of an object.
    pub fn lookup(&self, key: &String) -> (r: Option<&Json>)
        ensures
            r matches Some(x) ==> member(*self, key@) == Some(*x),
            r is None ==> member(*self, key@) is None,
    {
        match self {
            Json::Object(entries) => {
                let mut i: usize = 0;
                assert(entries@.skip(0) =~= entries@);
                while i < entries.len()
                    invariant
                        0 <= i <= entries@.len(),
                        member(*self, key@) == entry_of(entries@, key@),
                        entry_of(entries@, key@) == entry_of(entries@.skip(i as int), key@),
                    decreases entries@.len() - i,
                {
                    assert(entries@.skip(i as int).drop_first() =~= entries@.skip(i + 1));
                    if entries[i].0 == *key {
                        assert(entries@.skip(i as int)[0] == entries@[i as int]);
                        return Some(&entries[i].1);
                    }
                    i += 1;
                }
                None
            },
            _ => None,
        }
    }

    /// The member `key` of an object where that member is a string.
    pub fn lookup_str(&self, key: &String) -> (r: Option<String>)
        ensures
            r matches Some(s) ==> str_member(*self, key@) == Some(s@),
            r is None ==> str_member(*self, key@) is None,
    {
        match self.lookup(key) {
            Some(Json::Str(s)) => Some(s.clone()),
            _ => None,
        }
    }
}

} // verus!

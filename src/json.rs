//! A plain model of a parsed JSON document, and field lookup on it.
use vstd::prelude::*;
use vstd::string::*;

verus! {

/// A parsed JSON value. Numbers keep their text; objects keep their members
/// in order, each key once.
#[derive(Debug)]
pub enum JsonValue {
    Null,
    Bool(bool),
    Number(String),
    Str(String),
    Array(Vec<JsonValue>),
    Object(Vec<JsonMember>),
}

/// One member of a JSON object.
#[derive(Debug)]
pub struct JsonMember {
    pub key: String,
    pub value: JsonValue,
}

/// The value that `serde_json` parses out of `bytes`, or `None` where the
/// bytes are not one JSON document.
pub uninterp spec fn parsed_json(bytes: Seq<u8>) -> Option<JsonValue>;

#[verifier::external_type_specification]
#[verifier::external_body]
pub struct ExSerdeValue(serde_json::Value);

/// The converting half of `parse_json`: moves a `serde_json::Value` into the
/// library's model, variant for variant, numbers by their `Display` text.
#[verifier::external_body]
fn from_serde(v: serde_json::Value) -> JsonValue {
    match v {
        serde_json::Value::Null => JsonValue::Null,
        serde_json::Value::Bool(b) => JsonValue::Bool(b),
        serde_json::Value::Number(n) => JsonValue::Number(n.to_string()),
        serde_json::Value::String(s) => JsonValue::Str(s),
        serde_json::Value::Array(a) => JsonValue::Array(a.into_iter().map(from_serde).collect()),
        serde_json::Value::Object(o) => JsonValue::Object(
            o.into_iter().map(|(key, x)| JsonMember { key, value: from_serde(x) }).collect(),
        ),
    }
}

/// Relies on `serde_json::from_slice::<serde_json::Value>`: the document is
/// a function of the bytes alone, and `None` stands for any parse error.
#[verifier::external_body]
pub(crate) fn parse_json(bytes: &[u8]) -> (r: Option<JsonValue>)
    ensures
        r == parsed_json(bytes@),
{
    serde_json::from_slice::<serde_json::Value>(bytes).ok().map(from_serde)
}

/// The first member of `fields` under `key`.
pub open spec fn member_of(fields: Seq<JsonMember>, key: Seq<char>) -> Option<JsonValue>
    decreases fields.len(),
{
    if fields.len() == 0 {
        None
    } else if fields[0].key@ == key {
        Some(fields[0].value)
    } else {
        member_of(fields.drop_first(), key)
    }
}

/// The member of an object under `key`; `None` for anything but an object.
pub open spec fn field_of(v: JsonValue, key: Seq<char>) -> Option<JsonValue> {
    match v {
        JsonValue::Object(fields) => member_of(fields@, key),
        _ => None,
    }
}

/// Looks `key` up in an object.
pub fn field<'a>(v: &'a JsonValue, key: &str) -> (r: Option<&'a JsonValue>)
    ensures
        match r {
            Some(x) => field_of(*v, key@) == Some(*x),
            None => field_of(*v, key@) is None,
        },
{
    match v {
        JsonValue::Object(fields) => {
            let k = String::from_str(key);
            let mut i: usize = 0;
            assert(fields@.skip(0) =~= fields@);
            while i < fields.len()
                invariant
                    0 <= i <= fields@.len(),
                    member_of(fields@, key@) == member_of(fields@.skip(i as int), key@),
                    k@ == key@,
                    field_of(*v, key@) == member_of(fields@, key@),
                decreases fields.len() - i,
            {
                proof {
                    assert(fields@.skip(i as int).drop_first() =~= fields@.skip(i + 1));
                    assert(fields@.skip(i as int)[0] == fields@[i as int]);
                }
                if fields[i].key == k {
                    return Some(&fields[i].value);
                }
                i = i + 1;
            }
            None
        },
        _ => None,
    }
}

} // verus!

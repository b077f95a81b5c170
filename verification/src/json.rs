//! The JSON documents the relay reads, modelled with plain values so that
//! the extraction logic is verified.  Parsing itself is serde_json's work,
//! behind one trusted wrapper; everything after the parse is proved.

use vstd::prelude::*;

verus! {

use vstd::string::StringExecFns;

/// A parsed JSON document.  Numbers keep their textual form: the relay
/// never computes with them, it only carries and prints them.
pub enum JsonValue {
    Null,
    Bool(bool),
    Num(String),
    Str(String),
    Arr(Vec<JsonValue>),
    Obj(Vec<(String, JsonValue)>),
}

/// What serde_json's parser makes of a document: the value tree on
/// acceptance, the parse error's text on rejection.  The outcome depends
/// on the characters alone.
pub uninterp spec fn json_parse(s: Seq<char>) -> Result<JsonValue, Seq<char>>;

#[verifier::external_type_specification]
#[verifier::external_body]
pub struct ExSerdeValue(serde_json::Value);

/// The conversion half of `parse_json`: rebuilds serde_json's tree with
/// the library's own value type, variant for variant.
#[verifier::external_body]
fn of_value(v: serde_json::Value) -> JsonValue {
    match v {
        serde_json::Value::Null => JsonValue::Null,
        serde_json::Value::Bool(b) => JsonValue::Bool(b),
        serde_json::Value::Number(n) => JsonValue::Num(n.to_string()),
        serde_json::Value::String(s) => JsonValue::Str(s),
        serde_json::Value::Array(items) => JsonValue::Arr(
            items.into_iter().map(of_value).collect(),
        ),
        serde_json::Value::Object(fields) => JsonValue::Obj(
            fields.into_iter().map(|(k, w)| (k, of_value(w))).collect(),
        ),
    }
}

/// A parse outcome at the level contracts speak of: the error downgraded
/// to its characters.
pub open spec fn parse_view(r: Result<JsonValue, String>) -> Result<JsonValue, Seq<char>> {
    match r {
        Ok(v) => Ok(v),
        Err(e) => Err(e@),
    }
}

/// Relies on `serde_json::from_str::<serde_json::Value>`: parses a JSON
/// document into a value tree, or reports why it is not one.
#[verifier::external_body]
pub(crate) fn parse_json(s: &str) -> (r: Result<JsonValue, String>)
    ensures
        parse_view(r) == json_parse(s@),
{
    match serde_json::from_str::<serde_json::Value>(s) {
        Ok(v) => Ok(of_value(v)),
        Err(e) => Err(e.to_string()),
    }
}

/// The value under `key` among `fields`: the first binding of the key, as
/// an object lookup finds it.
pub open spec fn spec_lookup(fields: Seq<(String, JsonValue)>, key: Seq<char>) -> Option<JsonValue>
    decreases fields.len(),
{
    if fields.len() == 0 {
        None
    } else if fields[0].0@ == key {
        Some(fields[0].1)
    } else {
        spec_lookup(fields.drop_first(), key)
    }
}

/// The value under `key` in `v`: a lookup on an object, nothing on any
/// other value.
pub open spec fn spec_get(v: JsonValue, key: Seq<char>) -> Option<JsonValue> {
    match v {
        JsonValue::Obj(fields) => spec_lookup(fields@, key),
        _ => None,
    }
}

/// The text a tool-call response carries on the fast path: the string
/// under `result.content[0].text`, where `content` must be a non-empty
/// array whose first item is an object binding `text` to a string.
pub open spec fn spec_extract_text(v: JsonValue) -> Option<Seq<char>> {
    match spec_get(v, "result"@) {
        Some(res) => match spec_get(res, "content"@) {
            Some(content) => match content {
                JsonValue::Arr(items) => if items@.len() > 0 {
                    match spec_get(items@[0], "text"@) {
                        Some(item) => match item {
                            JsonValue::Str(t) => Some(t@),
                            _ => None,
                        },
                        _ => None,
                    }
                } else {
                    None
                },
                _ => None,
            },
            None => None,
        },
        None => None,
    }
}

/// Looks `key` up in `v`, when `v` is an object that binds it.
pub fn get_field<'a>(v: &'a JsonValue, key: &String) -> (r: Option<&'a JsonValue>)
    ensures
        match r {
            Some(f) => spec_get(*v, key@) == Some(*f),
            None => spec_get(*v, key@) is None,
        },
{
    match v {
        JsonValue::Obj(fields) => {
            let mut idx: usize = 0;
            proof {
                assert(fields@.skip(0) =~= fields@);
            }
            while idx < fields.len()
                invariant
                    *v == JsonValue::Obj(*fields),
                    idx <= fields@.len(),
                    spec_lookup(fields@, key@) == spec_lookup(fields@.skip(idx as int), key@),
                decreases fields@.len() - idx,
            {
                proof {
                    assert(fields@.skip(idx as int)[0] == fields@[idx as int]);
                    assert(fields@.skip(idx as int).drop_first() =~= fields@.skip(idx as int + 1));
                }
                if fields[idx].0 == *key {
                    return Some(&fields[idx].1);
                }
                idx = idx + 1;
            }
            None
        },
        _ => None,
    }
}

/// Extracts the fast-path text of a tool-call response, when the response
/// has the expected shape.
pub fn extract_text(v: &JsonValue) -> (r: Option<String>)
    ensures
        match r {
            Some(t) => spec_extract_text(*v) == Some(t@),
            None => spec_extract_text(*v) is None,
        },
{
    let result_key = String::from_str("result");
    let content_key = String::from_str("content");
    let text_key = String::from_str("text");
    match get_field(v, &result_key) {
        Some(res) => match get_field(res, &content_key) {
            Some(content) => match content {
                JsonValue::Arr(items) => {
                    if items.len() > 0 {
                        match get_field(&items[0], &text_key) {
                            Some(item) => match item {
                                JsonValue::Str(t) => Some(t.clone()),
                                _ => None,
                            },
                            None => None,
                        }
                    } else {
                        None
                    }
                },
                _ => None,
            },
            None => None,
        },
        None => None,
    }
}

} // verus!

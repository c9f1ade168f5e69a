//! A plain model of a parsed JSON document, and the trusted parse step.
//!
//! Parsing is done by serde_json; everything the decoder then does with the
//! parsed tree — object lookups, field typing, schema checks — happens on
//! [`Json`], a tree of plain values that Verus can reason about.

use vstd::prelude::*;

verus! {

#[verifier::external_type_specification]
#[verifier::external_body]
pub struct ExJsonValue(serde_json::Value);

/// A parsed JSON value.
///
/// Numbers are split by what they hold: `Int` for anything representable as
/// an `i64`, `UInt` for larger non-negative integers, and `FracNum` for a
/// number that is not an integer at all. The decoder reads only integers;
/// `FracNum` values are carried so that a document holding them still
/// decodes wherever they sit in unrecognized fields.
pub enum Json {
    Null,
    Bool(bool),
    Int(i64),
    UInt(u64),
    FracNum,
    Str(String),
    Arr(Vec<Json>),
    Obj(Vec<(String, Json)>),
}

/// The value that parsing a piece of text yields, or `None` where the text
/// is not valid JSON. Parsing is a function of the text alone.
pub uninterp spec fn json_text_model(s: Seq<char>) -> Option<Json>;

/// Relies on `serde_json::from_str::<serde_json::Value>`: the parse result
/// is a function of the input text alone, and fails exactly on text that is
/// not valid JSON.
#[verifier::external_body]
pub fn parse_json(s: &str) -> (r: Option<Json>)
    ensures
        r == json_text_model(s@),
{
    serde_json::from_str::<serde_json::Value>(s).ok().map(from_value)
}

/// Relies on the shape of `serde_json::Value`: each parsed node is carried
/// over to the matching [`Json`] variant, integers through
/// `serde_json::Number::as_i64` and `as_u64`.
#[verifier::external_body]
fn from_value(v: serde_json::Value) -> Json {
    match v {
        serde_json::Value::Null => Json::Null,
        serde_json::Value::Bool(b) => Json::Bool(b),
        serde_json::Value::Number(n) => match (n.as_i64(), n.as_u64()) {
            (Some(i), _) => Json::Int(i),
            (None, Some(u)) => Json::UInt(u),
            (None, None) => Json::FracNum,
        },
        serde_json::Value::String(s) => Json::Str(s),
        serde_json::Value::Array(a) => Json::Arr(a.into_iter().map(from_value).collect()),
        serde_json::Value::Object(m) => Json::Obj(m.into_iter().map(|p| (p.0, from_value(p.1))).collect()),
    }
}

/// The first field of `fields` at or after position `i` whose key reads
/// `key`, if any.
pub open spec fn lookup_from(fields: Seq<(String, Json)>, key: Seq<char>, i: int) -> Option<Json>
    decreases fields.len() - i,
{
    if i < 0 || i >= fields.len() {
        None
    } else if fields[i].0@ == key {
        Some(fields[i].1)
    } else {
        lookup_from(fields, key, i + 1)
    }
}

/// The value stored under `key` if `j` is an object that holds that key.
pub open spec fn get_spec(j: Json, key: Seq<char>) -> Option<Json> {
    match j {
        Json::Obj(fields) => lookup_from(fields@, key, 0),
        _ => None,
    }
}

impl Json {
    /// Looks `key` up in this value, which succeeds exactly when the value
    /// is an object holding that key.
    pub fn get<'a>(&'a self, key: &str) -> (r: Option<&'a Json>)
        ensures
            r matches Some(v) ==> get_spec(*self, key@) == Some(*v),
            r is None ==> get_spec(*self, key@) is None,
    {
        match self {
            Json::Obj(fields) => {
                let k: String = key.to_owned();
                let mut i: usize = 0;
                while i < fields.len()
                    invariant
                        0 <= i <= fields.len(),
                        k@ == key@,
                        *self is Obj,
                        (*self)->Obj_0 == *fields,
                        lookup_from(fields@, key@, 0) == lookup_from(fields@, key@, i as int),
                    decreases fields.len() - i,
                {
                    if fields[i].0 == k {
                        proof {
                            assert(lookup_from(fields@, key@, i as int) == Some(
                                fields@[i as int].1,
                            ));
                        }
                        return Some(&fields[i].1);
                    }
                    i = i + 1;
                }
                None
            },
            _ => None,
        }
    }
}

/// Appending a field under a key other than `key` leaves the lookup of
/// `key` unchanged, wherever the scan starts.
pub proof fn lemma_lookup_push(
    fields: Seq<(String, Json)>,
    key: Seq<char>,
    extra: (String, Json),
    i: int,
)
    requires
        extra.0@ != key,
    ensures
        lookup_from(fields.push(extra), key, i) == lookup_from(fields, key, i),
    decreases fields.len() + 1 - i,
{
    let pushed = fields.push(extra);
    if i < 0 || i >= pushed.len() {
    } else {
        lemma_lookup_push(fields, key, extra, i + 1);
        if i == fields.len() {
            assert(pushed[i] == extra);
        } else {
            assert(pushed[i] == fields[i]);
        }
    }
}

} // verus!

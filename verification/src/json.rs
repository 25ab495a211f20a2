use vstd::prelude::*;

use crate::num::{parse_i64, spec_parse_i64};

verus! {

/// A parsed JSON document, as plain values this crate can reason about.
///
/// The model keeps exactly what the service's response shapes use: scalars,
/// strings and objects.  A number is kept as its decimal text, so that what
/// holds of it is decided by this crate's own reading of that text.  An
/// array is noted but its elements are not kept: no endpoint of the service
/// puts data the client reads inside an array, and a shape that demands a
/// scalar or an object rejects an array wherever it stands.
#[derive(Debug)]
pub enum JsonValue {
    Null,
    Bool(bool),
    /// A number, as its decimal text.
    Num(String),
    Str(String),
    /// An array stood here; its elements are not modelled.
    Arr,
    /// An object, as its key/value pairs.  A lookup takes the first pair
    /// under a key; what the parser hands over never repeats one.
    Obj(Vec<(String, JsonValue)>),
}

/// Declares `serde_json::Value`, the parser's tree type, so that the
/// conversion below may take it; the type stays opaque here.
#[verifier::external_type_specification]
#[verifier::external_body]
pub struct ExValue(serde_json::Value);

/// Rebuilds a parsed `serde_json` tree as a `JsonValue`, variant by
/// variant: a number becomes its decimal text through
/// `serde_json::Number`'s display, an array is noted as `Arr`, an object's
/// entries are moved over one by one.
#[verifier::external_body]
fn value_to_model(v: serde_json::Value) -> JsonValue {
    match v {
        serde_json::Value::Null => JsonValue::Null,
        serde_json::Value::Bool(b) => JsonValue::Bool(b),
        serde_json::Value::Number(n) => JsonValue::Num(n.to_string()),
        serde_json::Value::String(s) => JsonValue::Str(s),
        serde_json::Value::Array(_) => JsonValue::Arr,
        serde_json::Value::Object(m) => JsonValue::Obj(
            m.into_iter().map(|p| (p.0, value_to_model(p.1))).collect(),
        ),
    }
}

/// The JSON document the text `s` holds, under this crate's model, or
/// nothing where the parser does not accept `s`: text that is not one
/// well-formed JSON document, or a document nested deeper than the parser's
/// recursion limit.  What this function returns on a given text is decided
/// by `serde_json`'s parser; it depends on the text alone.
pub uninterp spec fn json_of(s: Seq<char>) -> Option<JsonValue>;

/// Relies on `serde_json::from_str::<serde_json::Value>`: it parses the
/// text as one complete JSON document, deterministically, and fails on text
/// that is not one (or that nests deeper than its recursion limit); the
/// parsed tree is rebuilt by `value_to_model`.
#[verifier::external_body]
pub(crate) fn json_from_str(s: &str) -> (r: Result<JsonValue, String>)
    ensures
        (match r {
            Ok(v) => json_of(s@) == Some(v),
            Err(_) => json_of(s@) is None,
        }),
{
    match serde_json::from_str::<serde_json::Value>(s) {
        Ok(v) => Ok(value_to_model(v)),
        Err(e) => Err(e.to_string()),
    }
}

/// The value under `key` in the pair list `pairs`, scanning from the front.
pub open spec fn jget(pairs: Seq<(String, JsonValue)>, key: Seq<char>) -> Option<JsonValue>
    decreases pairs.len(),
{
    if pairs.len() == 0 {
        None
    } else if pairs[0].0@ == key {
        Some(pairs[0].1)
    } else {
        jget(pairs.drop_first(), key)
    }
}

/// The string under `key`, where `key` is present and holds a string.
pub open spec fn spec_req_str(pairs: Seq<(String, JsonValue)>, key: Seq<char>) -> Option<
    Seq<char>,
> {
    match jget(pairs, key) {
        Some(JsonValue::Str(s)) => Some(s@),
        _ => None,
    }
}

/// The string under an optional `key`: absent or null counts as no value,
/// a string counts as that string, anything else does not fit the shape.
pub open spec fn spec_opt_str(pairs: Seq<(String, JsonValue)>, key: Seq<char>) -> Option<
    Option<Seq<char>>,
> {
    match jget(pairs, key) {
        None => Some(None),
        Some(JsonValue::Null) => Some(None),
        Some(JsonValue::Str(s)) => Some(Some(s@)),
        Some(_) => None,
    }
}

/// The signed 64-bit integer under `key`, where `key` holds a number whose
/// text denotes one.
pub open spec fn spec_i64_field(pairs: Seq<(String, JsonValue)>, key: Seq<char>) -> Option<
    i64,
> {
    match jget(pairs, key) {
        Some(JsonValue::Num(t)) => spec_parse_i64(t@),
        _ => None,
    }
}

/// Character-for-character equality of two text slices.
pub fn str_eq(a: &str, b: &str) -> (r: bool)
    ensures
        r == (a@ == b@),
{
    let an = a.unicode_len();
    let bn = b.unicode_len();
    if an != bn {
        proof {
            assert(a@ != b@);
        }
        return false;
    }
    let mut i: usize = 0;
    while i < an
        invariant
            0 <= i <= an,
            an == a@.len(),
            an == b@.len(),
            forall|k: int| 0 <= k < i ==> a@[k] == b@[k],
        decreases an - i,
    {
        if a.get_char(i) != b.get_char(i) {
            return false;
        }
        i += 1;
    }
    proof {
        assert(a@ =~= b@);
    }
    true
}

/// Looks `key` up in an object's pair list, front to back, as `jget` reads
/// it.
pub fn obj_get<'a>(pairs: &'a Vec<(String, JsonValue)>, key: &str) -> (r: Option<
    &'a JsonValue,
>)
    ensures
        (match r {
            Some(v) => jget(pairs@, key@) == Some(*v),
            None => jget(pairs@, key@) is None,
        }),
{
    let mut i: usize = 0;
    proof {
        assert(pairs@.skip(0) =~= pairs@);
    }
    while i < pairs.len()
        invariant
            0 <= i <= pairs@.len(),
            jget(pairs@, key@) == jget(pairs@.skip(i as int), key@),
        decreases pairs@.len() - i,
    {
        proof {
            assert(pairs@.skip(i as int)[0] == pairs@[i as int]);
        }
        if str_eq(pairs[i].0.as_str(), key) {
            return Some(&pairs[i].1);
        }
        proof {
            assert(pairs@.skip(i as int).drop_first() =~= pairs@.skip(i + 1));
        }
        i += 1;
    }
    proof {
        assert(pairs@.skip(i as int).len() == 0);
    }
    None
}

/// Clones out the string under `key`, exactly where `spec_req_str` has one.
pub fn get_req_str(pairs: &Vec<(String, JsonValue)>, key: &str) -> (r: Option<String>)
    ensures
        (match r {
            Some(s) => spec_req_str(pairs@, key@) == Some(s@),
            None => spec_req_str(pairs@, key@) is None,
        }),
{
    match obj_get(pairs, key) {
        Some(JsonValue::Str(s)) => Some(s.clone()),
        _ => None,
    }
}

/// Clones out the string under an optional `key`, exactly as `spec_opt_str`
/// reads it; the outer `None` says the value under `key` has the wrong
/// shape.
pub fn get_opt_str(pairs: &Vec<(String, JsonValue)>, key: &str) -> (r: Option<Option<String>>)
    ensures
        (match r {
            Some(None) => spec_opt_str(pairs@, key@) == Some(None::<Seq<char>>),
            Some(Some(s)) => spec_opt_str(pairs@, key@) == Some(Some(s@)),
            None => spec_opt_str(pairs@, key@) is None,
        }),
{
    match obj_get(pairs, key) {
        None => Some(None),
        Some(JsonValue::Null) => Some(None),
        Some(JsonValue::Str(s)) => Some(Some(s.clone())),
        Some(_) => None,
    }
}

/// Reads the number under `key` as a signed 64-bit integer, exactly where
/// `spec_i64_field` has one.
pub fn get_i64_field(pairs: &Vec<(String, JsonValue)>, key: &str) -> (r: Option<i64>)
    ensures
        r == spec_i64_field(pairs@, key@),
{
    match obj_get(pairs, key) {
        Some(JsonValue::Num(t)) => parse_i64(t.as_str()),
        _ => None,
    }
}

} // verus!

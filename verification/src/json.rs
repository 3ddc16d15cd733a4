//! A mathematical model of JSON documents, and trusted accessors into
//! `serde_json`, through which every response body enters the library.
//!
//! `JsonV` is the spec-level shape of a parsed document.  The uninterpreted
//! functions `jv` and `parsed_json` name, respectively, the model of a
//! `serde_json::Value` and the outcome of parsing a text; every accessor
//! wrapper below states its result against these names, so that the decoding
//! logic built on top is verified against one consistent picture of the
//! document.
use vstd::prelude::*;

verus! {

/// Spec-level shape of a JSON document.
///
/// An object is modelled as the sequence of its entries in iteration order;
/// `serde_json` keeps object keys distinct and sorted, so a first-match
/// lookup over this sequence agrees with the map lookup the crate performs.
/// A number is kept abstract (it may be a float), identified only by the
/// underlying `serde_json::Number` value.
pub enum JsonV {
    Null,
    Bool(bool),
    Num(serde_json::Number),
    Str(Seq<char>),
    Arr(Seq<JsonV>),
    Obj(Seq<(Seq<char>, JsonV)>),
}

#[verifier::external_type_specification]
#[verifier::external_body]
pub struct ExValue(serde_json::Value);

#[verifier::external_type_specification]
#[verifier::external_body]
pub struct ExNumber(serde_json::Number);

#[verifier::external_type_specification]
#[verifier::external_body]
#[verifier::reject_recursive_types(K)]
#[verifier::reject_recursive_types(V)]
pub struct ExMap<K, V>(serde_json::Map<K, V>);

/// The JSON document a `serde_json::Value` holds.
pub uninterp spec fn jv(v: serde_json::Value) -> JsonV;

/// The outcome of parsing a text as JSON: `None` when the text is not valid
/// JSON, otherwise the model of the parsed document.  Parsing is a function
/// of the text alone.
pub uninterp spec fn parsed_json(s: Seq<char>) -> Option<JsonV>;

/// The value `serde_json::Number::as_u64` yields: `Some` exactly for numbers
/// that are unsigned integers within `u64` range.
pub uninterp spec fn num_u64(n: serde_json::Number) -> Option<u64>;

/// The entries a `serde_json::Map` holds, in iteration order.
pub uninterp spec fn jmap(m: serde_json::Map<String, serde_json::Value>) -> Seq<(Seq<char>, JsonV)>;

/// First-match lookup among an object's entries.
pub open spec fn obj_get(ps: Seq<(Seq<char>, JsonV)>, key: Seq<char>) -> Option<JsonV>
    decreases ps.len(),
{
    if ps.len() == 0 {
        None
    } else if ps[0].0 == key {
        Some(ps[0].1)
    } else {
        obj_get(ps.drop_first(), key)
    }
}

/// The field a JSON object carries under a key, with a `null` field counting
/// as absent, and any lookup on a non-object yielding nothing.
pub open spec fn field_of(j: JsonV, key: Seq<char>) -> Option<JsonV> {
    if j is Obj {
        match obj_get(j->Obj_0, key) {
            Some(JsonV::Null) => None,
            r => r,
        }
    } else {
        None
    }
}

/// A field read as an unsigned integer.
pub open spec fn u64_field(j: JsonV, key: Seq<char>) -> Option<u64> {
    match field_of(j, key) {
        Some(JsonV::Num(n)) => num_u64(n),
        _ => None,
    }
}

/// A field read as a string.
pub open spec fn str_field(j: JsonV, key: Seq<char>) -> Option<Seq<char>> {
    match field_of(j, key) {
        Some(JsonV::Str(s)) => Some(s),
        _ => None,
    }
}

/// A field read as a boolean.
pub open spec fn bool_field(j: JsonV, key: Seq<char>) -> Option<bool> {
    match field_of(j, key) {
        Some(JsonV::Bool(b)) => Some(b),
        _ => None,
    }
}

/// A field read as a number, kept abstract.
pub open spec fn num_field(j: JsonV, key: Seq<char>) -> Option<serde_json::Number> {
    match field_of(j, key) {
        Some(JsonV::Num(n)) => Some(n),
        _ => None,
    }
}

/// Relies on `serde_json::from_str::<Value>`: parses the text as a JSON
/// document, or fails exactly when the text is not valid JSON.
#[verifier::external_body]
pub fn parse_json(s: &str) -> (r: Option<serde_json::Value>)
    ensures
        match r {
            Some(v) => parsed_json(s@) == Some(jv(v)),
            None => parsed_json(s@) is None,
        },
{
    match serde_json::from_str::<serde_json::Value>(s) {
        Ok(v) => Some(v),
        Err(_) => None,
    }
}

/// Relies on `serde_json::Value::get` with a string index: looks the key up
/// when the value is an object, and yields nothing otherwise.
#[verifier::external_body]
pub fn value_get<'a>(v: &'a serde_json::Value, key: &str) -> (r: Option<&'a serde_json::Value>)
    ensures
        match r {
            Some(w) => jv(*v) is Obj && obj_get(jv(*v)->Obj_0, key@) == Some(jv(*w)),
            None => !(jv(*v) is Obj) || obj_get(jv(*v)->Obj_0, key@) is None,
        },
{
    v.get(key)
}

/// Relies on `serde_json::Value::is_null`.
#[verifier::external_body]
pub fn value_is_null(v: &serde_json::Value) -> (r: bool)
    ensures
        r == (jv(*v) == JsonV::Null),
{
    v.is_null()
}

/// Relies on `serde_json::Value::as_str`.
#[verifier::external_body]
pub fn value_as_str<'a>(v: &'a serde_json::Value) -> (r: Option<&'a str>)
    ensures
        match r {
            Some(s) => jv(*v) == JsonV::Str(s@),
            None => !(jv(*v) is Str),
        },
{
    v.as_str()
}

/// Relies on `serde_json::Value::as_bool`.
#[verifier::external_body]
pub fn value_as_bool(v: &serde_json::Value) -> (r: Option<bool>)
    ensures
        match r {
            Some(b) => jv(*v) == JsonV::Bool(b),
            None => !(jv(*v) is Bool),
        },
{
    v.as_bool()
}

/// Relies on `serde_json::Value::as_number`.
#[verifier::external_body]
pub fn value_as_number<'a>(v: &'a serde_json::Value) -> (r: Option<&'a serde_json::Number>)
    ensures
        match r {
            Some(n) => jv(*v) == JsonV::Num(*n),
            None => !(jv(*v) is Num),
        },
{
    v.as_number()
}

/// Relies on `serde_json::Value::as_array`.
#[verifier::external_body]
pub fn value_as_array<'a>(v: &'a serde_json::Value) -> (r: Option<&'a Vec<serde_json::Value>>)
    ensures
        match r {
            Some(a) => jv(*v) is Arr && jv(*v)->Arr_0 == a@.map_values(|x: serde_json::Value| jv(x)),
            None => !(jv(*v) is Arr),
        },
{
    v.as_array()
}

/// Relies on `serde_json::Value::as_object`.
#[verifier::external_body]
pub fn value_as_object<'a>(v: &'a serde_json::Value) -> (r: Option<
    &'a serde_json::Map<String, serde_json::Value>,
>)
    ensures
        match r {
            Some(m) => jv(*v) is Obj && jv(*v)->Obj_0 == jmap(*m),
            None => !(jv(*v) is Obj),
        },
{
    v.as_object()
}

/// Relies on `serde_json::Map::iter`: hands the entries out in iteration
/// order.
#[verifier::external_body]
pub fn map_entries<'a>(m: &'a serde_json::Map<String, serde_json::Value>) -> (r: Vec<
    (&'a String, &'a serde_json::Value),
>)
    ensures
        r@.map_values(|p: (&String, &serde_json::Value)| (p.0@, jv(*p.1))) == jmap(*m),
{
    m.iter().collect()
}

/// Relies on `serde_json::Number::as_u64`.
#[verifier::external_body]
pub fn number_as_u64(n: &serde_json::Number) -> (r: Option<u64>)
    ensures
        r == num_u64(*n),
{
    n.as_u64()
}

/// A field of an object, with `null` counting as absent.
pub fn get_field<'a>(v: &'a serde_json::Value, key: &str) -> (r: Option<&'a serde_json::Value>)
    ensures
        match r {
            Some(w) => field_of(jv(*v), key@) == Some(jv(*w)),
            None => field_of(jv(*v), key@) is None,
        },
{
    match value_get(v, key) {
        None => None,
        Some(w) => {
            if value_is_null(w) {
                None
            } else {
                Some(w)
            }
        },
    }
}

/// A field read as an unsigned integer.
pub fn get_u64(v: &serde_json::Value, key: &str) -> (r: Option<u64>)
    ensures
        r == u64_field(jv(*v), key@),
{
    match get_field(v, key) {
        None => None,
        Some(w) => match value_as_number(w) {
            None => None,
            Some(n) => number_as_u64(n),
        },
    }
}

/// A field read as an owned string.
pub fn get_str(v: &serde_json::Value, key: &str) -> (r: Option<String>)
    ensures
        match r {
            Some(s) => str_field(jv(*v), key@) == Some(s@),
            None => str_field(jv(*v), key@) is None,
        },
{
    match get_field(v, key) {
        None => None,
        Some(w) => match value_as_str(w) {
            None => None,
            Some(s) => Some(s.to_owned()),
        },
    }
}

/// A field read as a boolean.
pub fn get_bool(v: &serde_json::Value, key: &str) -> (r: Option<bool>)
    ensures
        r == bool_field(jv(*v), key@),
{
    match get_field(v, key) {
        None => None,
        Some(w) => value_as_bool(w),
    }
}

/// A field read as an owned number.
pub fn get_num(v: &serde_json::Value, key: &str) -> (r: Option<serde_json::Number>)
    ensures
        match r {
            Some(n) => num_field(jv(*v), key@) == Some(n),
            None => num_field(jv(*v), key@) is None,
        },
{
    match get_field(v, key) {
        None => None,
        Some(w) => match value_as_number(w) {
            None => None,
            Some(n) => Some(n.clone()),
        },
    }
}

/// Relies on `serde_json::Number`'s `Clone`, which reproduces the value.
pub assume_specification[ <serde_json::Number as Clone>::clone ](
    n: &serde_json::Number,
) -> (r: serde_json::Number)
    ensures
        r == *n,
;

/// Relies on `serde_json::Value`'s `Clone`, which reproduces the document.
pub assume_specification[ <serde_json::Value as Clone>::clone ](
    v: &serde_json::Value,
) -> (r: serde_json::Value)
    ensures
        r == *v,
;

} // verus!

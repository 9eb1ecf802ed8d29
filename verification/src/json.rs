//! The JSON values that the client exchanges with Paper, and the operations on them.
//!
//! Values are `serde_json::Value`s. What a value holds is described by [`JsonSpec`];
//! every operation on a value states its effect over that description.

use vstd::prelude::*;

verus! {

/// The mathematical content of a JSON value.
pub enum JsonSpec {
    Null,
    Bool(bool),
    /// An integer number.
    Int(int),
    /// A number that is not an integer, by the text that serde_json writes for it.
    Float(Seq<char>),
    Str(Seq<char>),
    Array(Seq<JsonSpec>),
    Object(Map<Seq<char>, JsonSpec>),
}

#[verifier::external_type_specification]
#[verifier::external_body]
pub struct ExJsonValue(serde_json::Value);

/// What a `serde_json::Value` holds: its kind, and for arrays and objects, their elements
/// and members.
pub uninterp spec fn json_model(v: serde_json::Value) -> JsonSpec;

/// The text that `serde_json::from_str` reads as a JSON value, or its error message.
pub uninterp spec fn json_read(text: Seq<char>) -> Result<JsonSpec, Seq<char>>;

/// The compact text that serde_json writes for a JSON value.
pub uninterp spec fn json_text(j: JsonSpec) -> Seq<char>;

/// The indented text that `serde_json::to_string_pretty` writes for a JSON value, or its
/// error message.
pub uninterp spec fn json_pretty(j: JsonSpec) -> Result<Seq<char>, Seq<char>>;

/// The descriptions of a sequence of values.
pub open spec fn models(vs: Seq<serde_json::Value>) -> Seq<JsonSpec> {
    vs.map_values(|x: serde_json::Value| json_model(x))
}

/// The description of an optional value.
pub open spec fn opt_model(v: Option<&serde_json::Value>) -> Option<JsonSpec> {
    match v {
        Some(x) => Some(json_model(*x)),
        None => None,
    }
}

/// The member `key` of `j`, where `j` is an object that has one.
pub open spec fn field(j: JsonSpec, key: Seq<char>) -> Option<JsonSpec> {
    match j {
        JsonSpec::Object(m) => if m.contains_key(key) {
            Some(m[key])
        } else {
            None
        },
        _ => None,
    }
}

/// The text of `j`, where `j` is a string.
pub open spec fn str_of(j: Option<JsonSpec>) -> Option<Seq<char>> {
    match j {
        Some(JsonSpec::Str(s)) => Some(s),
        _ => None,
    }
}

/// The text of the member `key` of `j`, where that member exists and is a string.
pub open spec fn str_field(j: JsonSpec, key: Seq<char>) -> Option<Seq<char>> {
    str_of(field(j, key))
}

/// The elements of the member `key` of `j`, where that member exists and is an array.
pub open spec fn array_field(j: JsonSpec, key: Seq<char>) -> Option<Seq<JsonSpec>> {
    match field(j, key) {
        Some(JsonSpec::Array(items)) => Some(items),
        _ => None,
    }
}

/// The texts of the string members `key` of those of `items` that have one, in order.
pub open spec fn field_strs(items: Seq<JsonSpec>, key: Seq<char>) -> Seq<Seq<char>>
    decreases items.len(),
{
    if items.len() == 0 {
        Seq::empty()
    } else {
        let t = field_strs(items.drop_last(), key);
        match str_field(items.last(), key) {
            Some(s) => t.push(s),
            None => t,
        }
    }
}

/// The object holding exactly one member.
pub open spec fn object1(k: Seq<char>, v: JsonSpec) -> JsonSpec {
    JsonSpec::Object(Map::empty().insert(k, v))
}

/// The JSON value of an optional value: the value, or null.
pub open spec fn or_null(j: Option<JsonSpec>) -> JsonSpec {
    match j {
        Some(x) => x,
        None => JsonSpec::Null,
    }
}

/// Calls `serde_json::Value::get` with a string index: the member `key` of an object,
/// and `None` for an object without it and for every other kind of value.
#[verifier::external_body]
pub(crate) fn json_get<'a>(v: &'a serde_json::Value, key: &str) -> (r: Option<&'a serde_json::Value>)
    ensures
        opt_model(r) == field(json_model(*v), key@),
{
    v.get(key)
}

/// Calls `serde_json::Value::as_str`: the text of a string value, `None` for any other.
#[verifier::external_body]
pub(crate) fn json_as_str(v: &serde_json::Value) -> (r: Option<&str>)
    ensures
        r is Some <==> json_model(*v) is Str,
        r matches Some(s) ==> json_model(*v) == JsonSpec::Str(s@),
{
    v.as_str()
}

/// Calls `serde_json::Value::as_array`: the elements of an array value, `None` for any other.
#[verifier::external_body]
pub(crate) fn json_as_array(v: &serde_json::Value) -> (r: Option<&Vec<serde_json::Value>>)
    ensures
        r is Some <==> json_model(*v) is Array,
        r matches Some(a) ==> json_model(*v) == JsonSpec::Array(models(a@)),
{
    v.as_array()
}

/// Calls `serde_json::Value::as_u64`: an integer number that fits in a `u64`.
#[verifier::external_body]
pub(crate) fn json_as_u64(v: &serde_json::Value) -> (r: Option<u64>)
    ensures
        r == (match json_model(*v) {
            JsonSpec::Int(i) => if 0 <= i <= u64::MAX {
                Some(i as u64)
            } else {
                None
            },
            _ => None,
        }),
{
    v.as_u64()
}

/// Calls `serde_json::Value::as_i64`: an integer number that fits in an `i64`.
#[verifier::external_body]
pub(crate) fn json_as_i64(v: &serde_json::Value) -> (r: Option<i64>)
    ensures
        r == (match json_model(*v) {
            JsonSpec::Int(i) => if i64::MIN <= i <= i64::MAX {
                Some(i as i64)
            } else {
                None
            },
            _ => None,
        }),
{
    v.as_i64()
}

/// Calls `serde_json::Value::as_bool`: the value of a boolean.
#[verifier::external_body]
pub(crate) fn json_as_bool(v: &serde_json::Value) -> (r: Option<bool>)
    ensures
        r == (match json_model(*v) {
            JsonSpec::Bool(b) => Some(b),
            _ => None,
        }),
{
    v.as_bool()
}

/// Calls `serde_json::Value::is_object`.
#[verifier::external_body]
pub(crate) fn json_is_object(v: &serde_json::Value) -> (r: bool)
    ensures
        r == json_model(*v) is Object,
{
    v.is_object()
}

/// Calls `serde_json::Value::clone`: a value with the same content.
#[verifier::external_body]
pub(crate) fn json_clone(v: &serde_json::Value) -> (r: serde_json::Value)
    ensures
        json_model(r) == json_model(*v),
{
    v.clone()
}

/// Builds `serde_json::Value::Null`.
#[verifier::external_body]
pub(crate) fn json_null() -> (r: serde_json::Value)
    ensures
        json_model(r) == JsonSpec::Null,
{
    serde_json::Value::Null
}

/// Builds `serde_json::Value::Bool`.
#[verifier::external_body]
pub(crate) fn json_bool(b: bool) -> (r: serde_json::Value)
    ensures
        json_model(r) == JsonSpec::Bool(b),
{
    serde_json::Value::Bool(b)
}

/// Builds `serde_json::Value::String`.
#[verifier::external_body]
pub(crate) fn json_string(s: String) -> (r: serde_json::Value)
    ensures
        json_model(r) == JsonSpec::Str(s@),
{
    serde_json::Value::String(s)
}

/// Builds a number from a `u64` with `serde_json::Value::from`.
#[verifier::external_body]
pub(crate) fn json_u64(n: u64) -> (r: serde_json::Value)
    ensures
        json_model(r) == JsonSpec::Int(n as int),
{
    serde_json::Value::from(n)
}

/// Builds `serde_json::Value::Array`.
#[verifier::external_body]
pub(crate) fn json_array(items: Vec<serde_json::Value>) -> (r: serde_json::Value)
    ensures
        json_model(r) == JsonSpec::Array(models(items@)),
{
    serde_json::Value::Array(items)
}

/// Builds an empty `serde_json::Value::Object`.
#[verifier::external_body]
pub(crate) fn json_object() -> (r: serde_json::Value)
    ensures
        json_model(r) == JsonSpec::Object(Map::empty()),
{
    serde_json::Value::Object(serde_json::Map::new())
}

/// Calls `serde_json::Map::insert` on the members of an object: the member `key` is
/// `value` afterwards, whether or not the object had one before.
#[verifier::external_body]
pub(crate) fn json_insert(obj: &mut serde_json::Value, key: String, value: serde_json::Value)
    requires
        json_model(*old(obj)) is Object,
    ensures
        json_model(*final(obj)) == JsonSpec::Object(
            json_model(*old(obj))->Object_0.insert(key@, json_model(value)),
        ),
{
    if let serde_json::Value::Object(members) = obj {
        members.insert(key, value);
    }
}

/// Calls `serde_json::Map::extend` with a copy of the members of `src`: each member of
/// `src` replaces the member of `dst` with the same key, or is added.
#[verifier::external_body]
pub(crate) fn json_extend(dst: &mut serde_json::Value, src: &serde_json::Value)
    requires
        json_model(*old(dst)) is Object,
        json_model(*src) is Object,
    ensures
        json_model(*final(dst)) == JsonSpec::Object(
            json_model(*old(dst))->Object_0.union_prefer_right(json_model(*src)->Object_0),
        ),
{
    if let (serde_json::Value::Object(d), serde_json::Value::Object(s)) = (dst, src) {
        d.extend(s.clone());
    }
}

/// Sets the member `key` of an object to `value`.
pub fn json_set(obj: &mut serde_json::Value, key: &str, value: serde_json::Value)
    requires
        json_model(*old(obj)) is Object,
    ensures
        json_model(*final(obj)) == JsonSpec::Object(
            json_model(*old(obj))->Object_0.insert(key@, json_model(value)),
        ),
{
    json_insert(obj, key.to_owned(), value)
}

/// A string value with the text of `s`.
pub fn json_str(s: &str) -> (r: serde_json::Value)
    ensures
        json_model(r) == JsonSpec::Str(s@),
{
    json_string(s.to_owned())
}

/// Takes the elements out of an array value; any other value is handed back.
#[verifier::external_body]
pub(crate) fn json_into_array(v: serde_json::Value) -> (r: Result<Vec<serde_json::Value>, serde_json::Value>)
    ensures
        match r {
            Ok(items) => json_model(v) == JsonSpec::Array(models(items@)),
            Err(w) => json_model(w) == json_model(v) && !(json_model(v) is Array),
        },
{
    match v {
        serde_json::Value::Array(items) => Ok(items),
        other => Err(other),
    }
}

/// The string members `key` of those of `items` that have one, in order.
pub fn collect_field_strs(items: &Vec<serde_json::Value>, key: &str) -> (r: Vec<String>)
    ensures
        r@.map_values(|s: String| s@) == field_strs(models(items@), key@),
{
    let mut found: Vec<String> = Vec::new();
    let mut i: usize = 0;
    while i < items.len()
        invariant
            i <= items@.len(),
            found@.map_values(|s: String| s@) == field_strs(models(items@).take(i as int), key@),
        decreases items@.len() - i,
    {
        assert(models(items@).take(i + 1).drop_last() =~= models(items@).take(i as int));
        assert(models(items@).take(i + 1).last() == json_model(items@[i as int]));
        match json_get(&items[i], key) {
            Some(t) => match json_as_str(t) {
                Some(s) => {
                    let ghost before = found@.map_values(|s: String| s@);
                    found.push(s.to_owned());
                    assert(found@.map_values(|s: String| s@) =~= before.push(s@));
                },
                None => {},
            },
            None => {},
        }
        i = i + 1;
    }
    assert(models(items@).take(items@.len() as int) =~= models(items@));
    found
}

/// Calls `serde_json::Value::to_string`: the compact JSON text of a value.
#[verifier::external_body]
pub(crate) fn json_to_text(v: &serde_json::Value) -> (r: String)
    ensures
        r@ == json_text(json_model(*v)),
{
    v.to_string()
}

/// Calls `serde_json::to_string_pretty`: the indented JSON text of a value, or the
/// serializer's error message.
#[verifier::external_body]
pub(crate) fn json_to_pretty_text(v: &serde_json::Value) -> (r: Result<String, String>)
    ensures
        match (r, json_pretty(json_model(*v))) {
            (Ok(t), Ok(s)) => t@ == s,
            (Err(e), Err(m)) => e@ == m,
            _ => false,
        },
{
    serde_json::to_string_pretty(v).map_err(|e| e.to_string())
}

/// Calls `serde_json::from_str` for a `serde_json::Value`: the value that `text` holds,
/// or the parser's error message.
#[verifier::external_body]
pub(crate) fn json_parse(text: &str) -> (r: Result<serde_json::Value, String>)
    ensures
        match (r, json_read(text@)) {
            (Ok(v), Ok(j)) => json_model(v) == j,
            (Err(e), Err(m)) => e@ == m,
            _ => false,
        },
{
    serde_json::from_str::<serde_json::Value>(text).map_err(|e| e.to_string())
}

} // verus!

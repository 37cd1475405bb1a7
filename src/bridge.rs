use vstd::prelude::*;

use rhai::Dynamic;
use serde_json::Value;

use crate::model::{ascending_keys, key_less, script_of, JsonModel, ScriptModel};

verus! {

#[verifier::external_type_specification]
#[verifier::external_body]
pub struct ExNumber(serde_json::Number);

#[verifier::external_type_specification]
#[verifier::external_body]
pub struct ExValue(serde_json::Value);

#[verifier::external_type_specification]
#[verifier::external_body]
#[verifier::reject_recursive_types(K)]
#[verifier::reject_recursive_types(V)]
pub struct ExJsonMap<K, V>(serde_json::Map<K, V>);

#[verifier::external_type_specification]
#[verifier::external_body]
pub struct ExDynamic(rhai::Dynamic);

/// What a JSON value holds.
pub uninterp spec fn json_view(v: serde_json::Value) -> JsonModel;

/// The entries of a JSON object map, in its (ascending) key order.
pub uninterp spec fn json_map_view(m: serde_json::Map<String, Value>) -> Seq<(Seq<char>, JsonModel)>;

/// The JSON float nearest to an integer: the `f64` that rhai makes of an
/// integer too large for its own integers.
pub uninterp spec fn float_near(u: int) -> serde_json::Number;

/// What an engine value holds.
pub uninterp spec fn script_view(d: rhai::Dynamic) -> ScriptModel;

/// The models of a sequence of JSON values.
pub open spec fn json_views(s: Seq<Value>) -> Seq<JsonModel> {
    s.map_values(|v: Value| json_view(v))
}

/// The models of a sequence of keyed JSON values.
pub open spec fn json_entry_views(s: Seq<(String, Value)>) -> Seq<(Seq<char>, JsonModel)> {
    s.map_values(|e: (String, Value)| (e.0@, json_view(e.1)))
}

/// The models of a sequence of engine values.
pub open spec fn script_views(s: Seq<Dynamic>) -> Seq<ScriptModel> {
    s.map_values(|d: Dynamic| script_view(d))
}

/// The models of a sequence of keyed engine values.
pub open spec fn script_entry_views(s: Seq<(String, Dynamic)>) -> Seq<(Seq<char>, ScriptModel)> {
    s.map_values(|e: (String, Dynamic)| (e.0@, script_view(e.1)))
}

/// Relies on serde_json::Value::is_null: true exactly for `Value::Null`.
#[verifier::external_body]
fn json_is_null(v: &Value) -> (r: bool)
    ensures
        r == (json_view(*v) is Null),
{
    v.is_null()
}

/// Relies on serde_json::Value::as_bool: the boolean of a `Value::Bool`.
#[verifier::external_body]
fn json_as_bool(v: &Value) -> (r: Option<bool>)
    ensures
        match json_view(*v) {
            JsonModel::Bool(b) => r == Some(b),
            _ => r is None,
        },
{
    v.as_bool()
}

/// Relies on serde_json::Value::is_number: true exactly for `Value::Number`.
#[verifier::external_body]
fn json_is_number(v: &Value) -> (r: bool)
    ensures
        r == (json_view(*v) is Int || json_view(*v) is UInt || json_view(*v) is Float),
{
    v.is_number()
}

/// Relies on serde_json::Value::as_str: the text of a `Value::String`.
#[verifier::external_body]
fn json_as_str(v: &Value) -> (r: Option<String>)
    ensures
        match json_view(*v) {
            JsonModel::Str(s) => r is Some && r->Some_0@ == s,
            _ => r is None,
        },
{
    v.as_str().map(|s| s.to_string())
}

/// Relies on serde_json::Value::as_array: the elements of a `Value::Array`, in order.
#[verifier::external_body]
fn json_as_array(v: &Value) -> (r: Option<Vec<Value>>)
    ensures
        match json_view(*v) {
            JsonModel::Array(a) => r is Some && json_views(r->Some_0@) == a,
            _ => r is None,
        },
{
    v.as_array().cloned()
}

/// Relies on serde_json::Value::as_object: the map of a `Value::Object`.
#[verifier::external_body]
fn json_as_object(v: &Value) -> (r: Option<&serde_json::Map<String, Value>>)
    ensures
        match json_view(*v) {
            JsonModel::Object(o) => r is Some && json_map_view(*r->Some_0) == o,
            _ => r is None,
        },
{
    v.as_object()
}

/// Relies on serde_json::Map::iter: each entry once, in ascending key order
/// (the map is a `BTreeMap` keyed by `String`).
#[verifier::external_body]
pub(crate) fn json_map_entries(m: &serde_json::Map<String, Value>) -> (r: Vec<(String, Value)>)
    ensures
        json_entry_views(r@) == json_map_view(*m),
        ascending_keys(json_entry_views(r@)),
{
    m.iter().map(|(k, x)| (k.clone(), x.clone())).collect()
}

/// Relies on rhai::Dynamic::UNIT: the unit value `()`.
#[verifier::external_body]
fn script_unit() -> (r: Dynamic)
    ensures
        script_view(r) == ScriptModel::Unit,
{
    Dynamic::UNIT
}

/// Relies on rhai::Dynamic::from_bool: a boolean engine value.
#[verifier::external_body]
fn script_bool(b: bool) -> (r: Dynamic)
    ensures
        script_view(r) == ScriptModel::Bool(b),
{
    Dynamic::from_bool(b)
}

/// Relies on rhai::serde::to_dynamic on a JSON number: an integer that fits
/// `i64` becomes an engine integer, a larger one the nearest engine float, a
/// JSON float the same engine float; with floats enabled, as here, it does not
/// fail on a number.
#[verifier::external_body]
fn script_number(v: &Value) -> (r: Option<Dynamic>)
    requires
        json_view(*v) is Int || json_view(*v) is UInt || json_view(*v) is Float,
    ensures
        r is Some,
        match json_view(*v) {
            JsonModel::Int(i) => script_view(r->Some_0) == ScriptModel::Int(i),
            JsonModel::UInt(u) => script_view(r->Some_0) == ScriptModel::Float(float_near(u)),
            JsonModel::Float(n) => script_view(r->Some_0) == ScriptModel::Float(n),
            _ => r is Some,
        },
{
    rhai::serde::to_dynamic(v).ok()
}

/// Relies on rhai::Dynamic::from for `String`: a string engine value.
#[verifier::external_body]
fn script_string(s: String) -> (r: Dynamic)
    ensures
        script_view(r) == ScriptModel::Str(s@),
{
    Dynamic::from(s)
}

/// Relies on rhai::Dynamic::from_array: an array engine value, order kept.
#[verifier::external_body]
pub(crate) fn script_array(items: Vec<Dynamic>) -> (r: Dynamic)
    ensures
        script_view(r) == ScriptModel::Array(script_views(items@)),
{
    Dynamic::from_array(items)
}

/// Relies on rhai::Dynamic::from_map: an object-map engine value holding the
/// given entries; the map is a `BTreeMap` and keeps them in ascending key order.
#[verifier::external_body]
pub(crate) fn script_map(entries: Vec<(String, Dynamic)>) -> (r: Dynamic)
    requires
        ascending_keys(script_entry_views(entries@)),
    ensures
        script_view(r) == ScriptModel::Table(script_entry_views(entries@)),
{
    Dynamic::from_map(entries.into_iter().map(|(k, x)| (k.into(), x)).collect())
}

/// Converts a host value into an engine value: null becomes unit, booleans,
/// numbers and strings their engine counterparts, arrays and objects are
/// converted element by element. The host value is only read.
pub fn convert(j: &Value) -> (r: Dynamic)
    ensures
        script_view(r) == script_of(json_view(*j)),
    decreases json_view(*j),
{
    if json_is_null(j) {
        return script_unit();
    }
    if let Some(b) = json_as_bool(j) {
        return script_bool(b);
    }
    if json_is_number(j) {
        return match script_number(j) {
            Some(d) => d,
            None => script_unit(),
        };
    }
    if let Some(s) = json_as_str(j) {
        return script_string(s);
    }
    if let Some(items) = json_as_array(j) {
        assert(decreases_to!(json_view(*j) => json_view(*j)->Array_0));
        let out = convert_seq(&items);
        return script_array(out);
    }
    match json_as_object(j) {
        Some(map) => {
            assert(decreases_to!(json_view(*j) => json_view(*j)->Object_0));
            let out = convert_map(map);
            script_map(out)
        },
        None => script_unit(),
    }
}

/// Converts each value of a sequence, keeping the order.
pub fn convert_seq(params: &Vec<Value>) -> (r: Vec<Dynamic>)
    ensures
        script_of(JsonModel::Array(json_views(params@))) == ScriptModel::Array(script_views(r@)),
    decreases json_views(params@),
{
    let ghost a = json_views(params@);
    let mut out: Vec<Dynamic> = Vec::new();
    let mut i: usize = 0;
    while i < params.len()
        invariant
            a == json_views(params@),
            0 <= i <= params.len(),
            out@.len() == i,
            forall|k: int| 0 <= k < i ==> script_view(#[trigger] out@[k]) == script_of(a[k]),
        decreases params.len() - i,
    {
        assert(json_view(params@[i as int]) == a[i as int]);
        assert(decreases_to!(a => a[i as int]));
        let d = convert(&params[i]);
        out.push(d);
        i = i + 1;
    }
    assert(script_views(out@) =~= script_of(JsonModel::Array(a))->Array_0);
    out
}

/// Converts each entry of an object map, keeping its key; the entries come
/// in ascending key order.
pub fn convert_map(hash: &serde_json::Map<String, Value>) -> (r: Vec<(String, Dynamic)>)
    ensures
        script_of(JsonModel::Object(json_map_view(*hash))) == ScriptModel::Table(script_entry_views(r@)),
        ascending_keys(script_entry_views(r@)),
    decreases json_map_view(*hash),
{
    let entries = json_map_entries(hash);
    let ghost o = json_entry_views(entries@);
    let mut out: Vec<(String, Dynamic)> = Vec::new();
    let mut i: usize = 0;
    while i < entries.len()
        invariant
            o == json_entry_views(entries@),
            o == json_map_view(*hash),
            ascending_keys(o),
            0 <= i <= entries.len(),
            out@.len() == i,
            forall|k: int|
                0 <= k < i ==> (#[trigger] out@[k]).0@ == o[k].0 && script_view(out@[k].1) == script_of(o[k].1),
        decreases entries.len() - i,
    {
        assert(json_view(entries@[i as int].1) == o[i as int].1);
        assert(decreases_to!(o => o[i as int].1)) by {
            assert(decreases_to!(o => o[i as int]));
            assert(decreases_to!(o[i as int] => o[i as int].1));
        }
        let d = convert(&entries[i].1);
        let k = entries[i].0.clone();
        out.push((k, d));
        i = i + 1;
    }
    assert(script_entry_views(out@) =~= script_of(JsonModel::Object(o))->Table_0);
    assert(ascending_keys(script_entry_views(out@))) by {
        assert forall|a: int, b: int| 0 <= a < b < out@.len() implies key_less(
            script_entry_views(out@)[a].0,
            script_entry_views(out@)[b].0,
        ) by {
            assert(key_less(o[a].0, o[b].0));
        }
    }
    out
}

} // verus!

use vstd::prelude::*;

use crate::bridge::float_near;

verus! {

/// Mathematical model of a host (JSON) value.
pub enum JsonModel {
    Null,
    Bool(bool),
    /// An integer that fits `i64`.
    Int(int),
    /// A non-negative integer above `i64::MAX` (and within `u64`).
    UInt(int),
    /// A number written with a fraction or exponent.
    Float(serde_json::Number),
    Str(Seq<char>),
    Array(Seq<JsonModel>),
    /// Entries in ascending key order.
    Object(Seq<(Seq<char>, JsonModel)>),
}

/// Mathematical model of a script-engine value.
pub enum ScriptModel {
    /// The engine's unit value `()`.
    Unit,
    Bool(bool),
    Int(int),
    /// The engine float whose value is that of this JSON float.
    Float(serde_json::Number),
    Char(char),
    Str(Seq<char>),
    /// A byte array.
    Blob(Seq<u8>),
    /// A point in time; every timestamp prints alike.
    TimeStamp,
    Array(Seq<ScriptModel>),
    /// An object map; entries in ascending key order, as the map holds them.
    Table(Seq<(Seq<char>, ScriptModel)>),
    /// Any other kind of engine value (function pointers, custom types,
    /// values shared between closures).
    Other,
}

/// What the value bridge produces for a host value.
pub open spec fn script_of(j: JsonModel) -> ScriptModel
    decreases j,
{
    match j {
        JsonModel::Null => ScriptModel::Unit,
        JsonModel::Bool(b) => ScriptModel::Bool(b),
        JsonModel::Int(i) => ScriptModel::Int(i),
        JsonModel::UInt(u) => ScriptModel::Float(float_near(u)),
        JsonModel::Float(n) => ScriptModel::Float(n),
        JsonModel::Str(s) => ScriptModel::Str(s),
        JsonModel::Array(a) => ScriptModel::Array(
            Seq::new(a.len(), |i: int| if 0 <= i < a.len() { script_of(a[i]) } else { ScriptModel::Unit }),
        ),
        JsonModel::Object(o) => ScriptModel::Table(
            Seq::new(
                o.len(),
                |i: int|
                    if 0 <= i < o.len() {
                        (o[i].0, script_of(o[i].1))
                    } else {
                        (Seq::empty(), ScriptModel::Unit)
                    },
            ),
        ),
    }
}

/// Lexicographic order of keys, by code point (the order of `str`).
pub open spec fn key_less(a: Seq<char>, b: Seq<char>) -> bool
    decreases a.len(),
{
    if a.len() == 0 {
        b.len() > 0
    } else if b.len() == 0 {
        false
    } else if a[0] != b[0] {
        (a[0] as u32) < (b[0] as u32)
    } else {
        key_less(a.drop_first(), b.drop_first())
    }
}

/// The keys of an entry list are strictly ascending.
pub open spec fn ascending_keys<V>(entries: Seq<(Seq<char>, V)>) -> bool {
    forall|i: int, k: int| 0 <= i < k < entries.len() ==> key_less(entries[i].0, entries[k].0)
}

/// No number in the value lies above `i64::MAX` without being a float.
pub open spec fn exact_numbers(j: JsonModel) -> bool
    decreases j,
{
    match j {
        JsonModel::UInt(_) => false,
        JsonModel::Array(a) => forall|i: int| 0 <= i < a.len() ==> exact_numbers(#[trigger] a[i]),
        JsonModel::Object(o) => forall|i: int| 0 <= i < o.len() ==> exact_numbers(#[trigger] o[i].1),
        _ => true,
    }
}

/// The value holds nothing modelled as `Other`.
pub open spec fn plain(m: ScriptModel) -> bool
    decreases m,
{
    match m {
        ScriptModel::Other => false,
        ScriptModel::Array(a) => forall|i: int| 0 <= i < a.len() ==> plain(#[trigger] a[i]),
        ScriptModel::Table(t) => forall|i: int| 0 <= i < t.len() ==> plain(#[trigger] t[i].1),
        _ => true,
    }
}

/// The value bridge loses nothing on values whose numbers it carries exactly:
/// two such host values that convert to the same engine value are equal.
pub proof fn lemma_convert_injective(a: JsonModel, b: JsonModel)
    requires
        exact_numbers(a),
        exact_numbers(b),
    ensures
        script_of(a) == script_of(b) ==> a == b,
    decreases a,
{
    if script_of(a) == script_of(b) {
        match (a, b) {
            (JsonModel::Array(x), JsonModel::Array(y)) => {
                assert(script_of(a)->Array_0.len() == x.len());
                assert(script_of(b)->Array_0.len() == y.len());
                assert forall|i: int| 0 <= i < x.len() implies x[i] == y[i] by {
                    assert(script_of(a)->Array_0[i] == script_of(x[i]));
                    assert(script_of(b)->Array_0[i] == script_of(y[i]));
                    assert(exact_numbers(x[i]) && exact_numbers(y[i]));
                    assert(decreases_to!(a => a->Array_0));
                    assert(decreases_to!(x => x[i]));
                    lemma_convert_injective(x[i], y[i]);
                }
                assert(x =~= y);
            },
            (JsonModel::Object(x), JsonModel::Object(y)) => {
                assert(script_of(a)->Table_0.len() == x.len());
                assert(script_of(b)->Table_0.len() == y.len());
                assert forall|i: int| 0 <= i < x.len() implies x[i] == y[i] by {
                    assert(script_of(a)->Table_0[i] == (x[i].0, script_of(x[i].1)));
                    assert(script_of(b)->Table_0[i] == (y[i].0, script_of(y[i].1)));
                    assert(exact_numbers(x[i].1) && exact_numbers(y[i].1));
                    assert(decreases_to!(a => a->Object_0));
                    assert(decreases_to!(x => x[i]));
                    assert(decreases_to!(x[i] => x[i].1));
                    lemma_convert_injective(x[i].1, y[i].1);
                }
                assert(x =~= y);
            },
            _ => {},
        }
    }
}

} // verus!

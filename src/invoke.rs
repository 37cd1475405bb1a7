use vstd::prelude::*;

use rhai::{Dynamic, Engine, Scope};
use serde_json::Value;

use crate::bridge::{convert_map, convert_seq, json_map_view, json_view, json_views, script_view};
use crate::model::{plain, script_of, JsonModel, ScriptModel};

verus! {

#[verifier::external_type_specification]
#[verifier::external_body]
pub struct ExEngine(rhai::Engine);

#[verifier::external_type_specification]
#[verifier::external_body]
pub struct ExScope<'a>(rhai::Scope<'a>);

/// Failure of one helper call.
#[derive(Debug, Clone, PartialEq, Eq)]
pub enum ScriptError {
    /// The script file could not be read.
    Io(String),
    /// The script failed to parse or raised an error; the engine's message.
    Eval(String),
}

/// The bindings of a scope, in the order they were pushed.
pub uninterp spec fn scope_view(s: rhai::Scope<'static>) -> Seq<(Seq<char>, ScriptModel)>;

/// The engine's textual form (`Display`) of a value that holds nothing
/// modelled as `Other`; it depends on the value alone.
pub uninterp spec fn engine_text(m: ScriptModel) -> Seq<char>;

/// What serde_json's parser makes of a text, if it is one JSON document.
pub uninterp spec fn json_parse(s: Seq<char>) -> Option<JsonModel>;

/// Relies on rhai::Scope::new: a scope with no bindings.
#[verifier::external_body]
fn new_scope() -> (r: Scope<'static>)
    ensures
        scope_view(r) == Seq::<(Seq<char>, ScriptModel)>::empty(),
{
    Scope::new()
}

/// Relies on rhai::Scope::push_dynamic: adds one binding after the others.
#[verifier::external_body]
fn scope_push(s: &mut Scope<'static>, name: &str, value: Dynamic)
    ensures
        scope_view(*final(s)) == scope_view(*old(s)).push((name@, script_view(value))),
{
    s.push_dynamic(name.to_string(), value);
}

/// Relies on rhai::Engine::new: an engine with the standard packages.
#[verifier::external_body]
pub(crate) fn new_engine() -> (r: Engine) {
    Engine::new()
}

/// Relies on rhai::Engine::eval_with_scope: runs the script against the scope
/// and hands back its value, or the text of the engine's error. The script may
/// change the scope and may read the clock, so nothing is known of the outcome.
#[verifier::external_body]
fn eval_script(engine: &Engine, scope: &mut Scope<'static>, script: &str) -> (r: Result<Dynamic, String>) {
    engine.eval_with_scope::<Dynamic>(scope, script).map_err(|e| e.to_string())
}

/// Relies on rhai::Dynamic::is_string: true for a string value. (A value
/// shared between closures is modelled as `Other`; for it the answer depends
/// on whether its lock can be taken.)
#[verifier::external_body]
fn script_is_string(d: &Dynamic) -> (r: bool)
    ensures
        script_view(*d) is Str ==> r,
        r ==> script_view(*d) is Str || script_view(*d) is Other,
{
    d.is_string()
}

/// Relies on rhai::Dynamic::into_string: the text of a string value; for
/// another value the error is the name of its type.
#[verifier::external_body]
fn script_into_string(d: Dynamic) -> (r: Result<String, String>)
    ensures
        script_view(d) is Str ==> r is Ok && r->Ok_0@ == script_view(d)->Str_0,
{
    d.into_string().map_err(|e| e.to_string())
}

/// Relies on rhai::Dynamic's `Display`: a value without shared parts,
/// timestamps, functions or custom types prints by its value alone; unit
/// prints nothing, a boolean as `true` or `false`, a string as itself.
#[verifier::external_body]
fn script_display(d: &Dynamic) -> (r: String)
    ensures
        plain(script_view(*d)) ==> r@ == engine_text(script_view(*d)),
        known_text(script_view(*d)) is Some ==> r@ == known_text(script_view(*d))->Some_0,
{
    d.to_string()
}

/// Relies on serde_json::from_str for `Value`: the parsed document, if the
/// text is one.
#[verifier::external_body]
fn json_from_text(s: &str) -> (r: Option<Value>)
    ensures
        match json_parse(s@) {
            Some(m) => r is Some && json_view(r->Some_0) == m,
            None => r is None,
        },
{
    serde_json::from_str::<Value>(s).ok()
}

/// Relies on serde_json::Value::String: a JSON string value.
#[verifier::external_body]
fn json_string(s: String) -> (r: Value)
    ensures
        json_view(r) == JsonModel::Str(s@),
{
    Value::String(s)
}

/// The text of the engine values whose textual form this library states.
pub open spec fn known_text(m: ScriptModel) -> Option<Seq<char>> {
    match m {
        ScriptModel::Unit => Some(Seq::empty()),
        ScriptModel::Bool(b) => Some(if b { "true"@ } else { "false"@ }),
        ScriptModel::Str(s) => Some(s),
        _ => None,
    }
}

/// The text a script's result is reduced to: a string as it is, any other
/// value in the engine's textual form.
pub open spec fn text_of(m: ScriptModel) -> Seq<char> {
    match m {
        ScriptModel::Str(s) => s,
        _ => engine_text(m),
    }
}

/// The host value a script's textual result stands for: the JSON document it
/// spells, or else the text itself as a string.
pub open spec fn host_of_text(t: Seq<char>) -> JsonModel {
    match json_parse(t) {
        Some(m) => m,
        None => JsonModel::Str(t),
    }
}

/// The scope of one call: `params` bound to the converted positional
/// arguments in order, then `hash` bound to the converted named arguments.
pub open spec fn call_bindings(params: Seq<JsonModel>, hash: Seq<(Seq<char>, JsonModel)>) -> Seq<
    (Seq<char>, ScriptModel),
> {
    seq![("params"@, script_of(JsonModel::Array(params))), ("hash"@, script_of(JsonModel::Object(hash)))]
}

/// In every call's scope, `params` is a sequence as long as the positional
/// arguments holding their converted forms in order, and `hash` holds each
/// named argument's key with its converted value, and nothing else.
pub proof fn lemma_call_bindings(params: Seq<JsonModel>, hash: Seq<(Seq<char>, JsonModel)>)
    ensures
        call_bindings(params, hash).len() == 2,
        call_bindings(params, hash)[0].0 == "params"@,
        call_bindings(params, hash)[1].0 == "hash"@,
        call_bindings(params, hash)[0].1 is Array,
        call_bindings(params, hash)[0].1->Array_0.len() == params.len(),
        forall|i: int|
            0 <= i < params.len() ==> call_bindings(params, hash)[0].1->Array_0[i] == script_of(
                #[trigger] params[i],
            ),
        call_bindings(params, hash)[1].1 is Table,
        call_bindings(params, hash)[1].1->Table_0.len() == hash.len(),
        forall|i: int|
            0 <= i < hash.len() ==> call_bindings(params, hash)[1].1->Table_0[i] == (
                #[trigger] hash[i].0,
                script_of(hash[i].1),
            ),
{
}

/// Builds the fresh scope of one call. Nothing but `params` and `hash` is bound.
pub fn build_scope(params: &Vec<Value>, hash: &serde_json::Map<String, Value>) -> (r: Scope<'static>)
    ensures
        scope_view(r) == call_bindings(json_views(params@), json_map_view(*hash)),
{
    let p = convert_seq(params);
    let h = convert_map(hash);
    let pd = crate::bridge::script_array(p);
    let hd = crate::bridge::script_map(h);
    let mut scope = new_scope();
    scope_push(&mut scope, "params", pd);
    scope_push(&mut scope, "hash", hd);
    proof {
        reveal_strlit("params");
        reveal_strlit("hash");
    }
    assert(scope_view(scope) =~= call_bindings(json_views(params@), json_map_view(*hash)));
    scope
}

/// The text of a script's result: a string as it is, any other value in the
/// engine's textual form.
pub fn result_text(d: Dynamic) -> (r: String)
    ensures
        plain(script_view(d)) ==> r@ == text_of(script_view(d)),
        known_text(script_view(d)) is Some ==> r@ == known_text(script_view(d))->Some_0,
{
    if script_is_string(&d) {
        match script_into_string(d) {
            Ok(s) => s,
            Err(e) => e,
        }
    } else {
        script_display(&d)
    }
}

/// Reads a script's textual result back into the host model: the JSON
/// document it spells, or else the text as a JSON string. Never fails.
pub fn text_to_host(text: String) -> (r: Value)
    ensures
        json_view(r) == host_of_text(text@),
{
    match json_from_text(text.as_str()) {
        Some(v) => v,
        None => json_string(text),
    }
}

/// Turns the outcome of an evaluation into the outcome of the call: an engine
/// error becomes an evaluation failure carrying its message; a value is reduced
/// to text and read back into the host model.
pub fn finish(outcome: Result<Dynamic, String>) -> (r: Result<Value, ScriptError>)
    ensures
        match outcome {
            Err(m) => r == Err::<Value, ScriptError>(ScriptError::Eval(m)),
            Ok(d) => r is Ok && (plain(script_view(d)) ==> json_view(r->Ok_0) == host_of_text(
                text_of(script_view(d)),
            )) && (known_text(script_view(d)) is Some ==> json_view(r->Ok_0) == host_of_text(
                known_text(script_view(d))->Some_0,
            )),
        },
{
    match outcome {
        Err(m) => Err(ScriptError::Eval(m)),
        Ok(d) => {
            let t = result_text(d);
            Ok(text_to_host(t))
        },
    }
}

/// Evaluates a script against a fresh scope built from the call's arguments,
/// on a shared engine, and returns the host value of its result.
pub fn run_script(engine: &Engine, script: &str, params: &Vec<Value>, hash: &serde_json::Map<String, Value>) -> (r: Result<
    Value,
    ScriptError,
>)
    ensures
        r is Err ==> r->Err_0 is Eval,
{
    let mut scope = build_scope(params, hash);
    let outcome = eval_script(engine, &mut scope, script);
    finish(outcome)
}

} // verus!

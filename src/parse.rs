use vstd::prelude::*;
use crate::json::{Json, JsonModel};
use crate::error::ScanError;

verus! {

#[verifier::external_type_specification]
#[verifier::external_body]
pub struct ExValue(serde_json::Value);

#[verifier::external_type_specification]
#[verifier::external_body]
pub struct ExError(serde_json::Error);

/// The nesting depth of a parsed value: each element or member of an array
/// or object is strictly shallower than the value holding it.
pub uninterp spec fn json_depth(v: serde_json::Value) -> nat;

/// The mathematical value of a parsed value: numbers as their decimal text,
/// object members in the map's own order.
pub uninterp spec fn value_model(v: serde_json::Value) -> JsonModel;

/// Whether serde_json accepts `text` as one JSON document: well-formed, and
/// nested no deeper than its recursion limit.
pub uninterp spec fn json_text_valid(text: Seq<char>) -> bool;

/// The document that serde_json reads from `text`.
pub uninterp spec fn json_of(text: Seq<char>) -> JsonModel;

/// One level of a parsed value, its elements and members still unconverted.
enum Layer {
    Null,
    Bool(bool),
    Number(String),
    Str(String),
    Array(Vec<serde_json::Value>),
    Object(Vec<(String, serde_json::Value)>),
}

/// Whether the layer `l` is the top level of the document `m`.
spec fn layer_agrees(l: Layer, m: JsonModel) -> bool {
    match l {
        Layer::Null => m == JsonModel::Null,
        Layer::Bool(b) => m == JsonModel::Bool(b),
        Layer::Number(t) => m == JsonModel::Number(t@),
        Layer::Str(s) => m == JsonModel::Str(s@),
        Layer::Array(items) => m is Array && m->Array_0.len() == items@.len()
            && forall|i: int| 0 <= i < items@.len() ==> value_model(#[trigger] items@[i]) == m->Array_0[i],
        Layer::Object(members) => m is Object && m->Object_0.len() == members@.len()
            && forall|i: int| 0 <= i < members@.len() ==>
                m->Object_0[i] == (#[trigger] members@[i].0@, value_model(members@[i].1)),
    }
}

/// Relies on serde_json::from_str into a `Value`: it succeeds exactly on the
/// texts serde_json accepts, and reads each such text to the same value.
#[verifier::external_body]
fn parse_value(text: &str) -> (r: Result<serde_json::Value, serde_json::Error>)
    ensures
        r is Ok <==> json_text_valid(text@),
        r is Ok ==> value_model(r->Ok_0) == json_of(text@),
{
    serde_json::from_str::<serde_json::Value>(text)
}

/// Relies on serde_json's `Value` enum and the `Display` of its `Number`
/// (the number's decimal text); an object's members are taken in the map's
/// own order.
#[verifier::external_body]
fn unfold(v: serde_json::Value) -> (r: Layer)
    ensures
        layer_agrees(r, value_model(v)),
        r matches Layer::Array(items) ==> forall|i: int|
            0 <= i < items@.len() ==> json_depth(#[trigger] items@[i]) < json_depth(v),
        r matches Layer::Object(members) ==> forall|i: int|
            0 <= i < members@.len() ==> json_depth(#[trigger] members@[i].1) < json_depth(v),
{
    match v {
        serde_json::Value::Null => Layer::Null,
        serde_json::Value::Bool(b) => Layer::Bool(b),
        serde_json::Value::Number(n) => Layer::Number(n.to_string()),
        serde_json::Value::String(s) => Layer::Str(s),
        serde_json::Value::Array(a) => Layer::Array(a),
        serde_json::Value::Object(m) => Layer::Object(m.into_iter().collect()),
    }
}

/// Converts a parsed value into the library's own document form.
pub fn from_value(v: serde_json::Value) -> (r: Json)
    ensures
        r.model() == value_model(v),
    decreases json_depth(v),
{
    let layer = unfold(v);
    let ghost m = value_model(v);
    match layer {
        Layer::Null => Json::Null,
        Layer::Bool(b) => Json::Bool(b),
        Layer::Number(t) => Json::Number(t),
        Layer::Str(s) => Json::Str(s),
        Layer::Array(items) => {
            let ghost d = json_depth(v);
            let ghost all = items@;
            let mut out: Vec<Json> = Vec::new();
            let mut rest = items;
            while rest.len() > 0
                invariant
                    d == json_depth(v),
                    forall|i: int| 0 <= i < all.len() ==> json_depth(#[trigger] all[i]) < d,
                    m is Array && m->Array_0.len() == all.len(),
                    forall|i: int| 0 <= i < all.len() ==> value_model(#[trigger] all[i]) == m->Array_0[i],
                    out@.len() + rest@.len() == all.len(),
                    rest@ == all.subrange(out@.len() as int, all.len() as int),
                    forall|k: int| 0 <= k < out@.len() ==> (#[trigger] out@[k]).model() == m->Array_0[k],
                decreases rest.len(),
            {
                let ghost n = out@.len() as int;
                let item = rest.remove(0);
                assert(item == all[n]);
                let j = from_value(item);
                out.push(j);
                assert(rest@ =~= all.subrange(out@.len() as int, all.len() as int));
            }
            let r = Json::Array(out);
            assert(r.model()->Array_0 =~= m->Array_0);
            r
        },
        Layer::Object(members) => {
            let ghost d = json_depth(v);
            let ghost all = members@;
            let mut out: Vec<(String, Json)> = Vec::new();
            let mut rest = members;
            while rest.len() > 0
                invariant
                    d == json_depth(v),
                    forall|i: int| 0 <= i < all.len() ==> json_depth(#[trigger] all[i].1) < d,
                    m is Object && m->Object_0.len() == all.len(),
                    forall|i: int| 0 <= i < all.len() ==>
                        m->Object_0[i] == (#[trigger] all[i].0@, value_model(all[i].1)),
                    out@.len() + rest@.len() == all.len(),
                    rest@ == all.subrange(out@.len() as int, all.len() as int),
                    forall|k: int| 0 <= k < out@.len() ==>
                        ((#[trigger] out@[k]).0@, out@[k].1.model()) == m->Object_0[k],
                decreases rest.len(),
            {
                let ghost n = out@.len() as int;
                let (k, item) = rest.remove(0);
                assert((k, item) == all[n]);
                let j = from_value(item);
                out.push((k, j));
                assert(rest@ =~= all.subrange(out@.len() as int, all.len() as int));
            }
            let r = Json::Object(out);
            assert(r.model()->Object_0 =~= m->Object_0);
            r
        },
    }
}

/// Parses `text` as one JSON document.
pub fn parse_document(text: &str) -> (r: Result<Json, ScanError>)
    ensures
        r is Ok <==> json_text_valid(text@),
        r is Ok ==> r->Ok_0.model() == json_of(text@),
        r is Err ==> r->Err_0 == ScanError::InvalidJson,
{
    match parse_value(text) {
        Ok(v) => Ok(from_value(v)),
        Err(_) => Err(ScanError::InvalidJson),
    }
}

} // verus!

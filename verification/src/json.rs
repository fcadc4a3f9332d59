//! Reading a JSON text into the intermediate serialized form: serde_json
//! parses the text and holds the tree; the decoder below walks it node by
//! node into a `SerializedValue`, keys in source order.

use vstd::prelude::*;

use crate::value::SerModel;
use crate::value::SerializedValue;
use crate::value::lemma_ser_entry_models;
use crate::value::lemma_ser_models;
use crate::value::ser_entry_models;
use crate::value::ser_models;

verus! {

/// serde_json's dynamic value, kept opaque: `json_model` names the tree a
/// value holds, and the trusted reader below presents it one node at a time.
#[verifier::external_type_specification]
#[verifier::external_body]
pub struct ExValue(serde_json::Value);

/// The serialized tree a serde_json value holds.
pub uninterp spec fn json_model(v: serde_json::Value) -> SerModel;

/// One node of a JSON tree, as serde_json's accessors present it: a scalar,
/// or the children of an array or object node.
pub enum JsonNode {
    Null,
    Bool(bool),
    NumU(u64),
    NumI(i64),
    NumF(u64),
    Text(String),
    Arr(Vec<serde_json::Value>),
    Obj(Vec<(String, serde_json::Value)>),
}

/// What one read node says of the tree the value holds: a scalar is the tree
/// itself; an array or object node carries children that hold the subtrees,
/// in order.
pub open spec fn json_node_describes(v: serde_json::Value, r: JsonNode) -> bool {
    match r {
        JsonNode::Null => json_model(v) == SerModel::Null,
        JsonNode::Bool(b) => json_model(v) == SerModel::Bool(b),
        JsonNode::NumU(u) => json_model(v) == SerModel::NumU(u),
        JsonNode::NumI(i) => json_model(v) == SerModel::NumI(i),
        JsonNode::NumF(bits) => json_model(v) == SerModel::NumF(bits),
        JsonNode::Text(s) => json_model(v) == SerModel::Text(s@),
        JsonNode::Arr(a) => match json_model(v) {
            SerModel::Arr(elems) => elems.len() == a@.len() && forall|i: int|
                0 <= i < a@.len() ==> elems[i] == json_model(a@[i]),
            _ => false,
        },
        JsonNode::Obj(entries) => match json_model(v) {
            SerModel::Obj(kvs) => kvs.len() == entries@.len() && forall|i: int|
                0 <= i < entries@.len() ==> kvs[i] == (entries@[i].0@, json_model(entries@[i].1)),
            _ => false,
        },
    }
}

/// Relies on serde_json::Value: the variant read one arm each; a number by
/// Value::as_u64, as_i64 and as_f64, which represent an integer as u64, else
/// as i64, when possible, and any other number as f64, carried here as its
/// bit pattern; array elements and object entries cloned out in order — with
/// the preserve-order feature an object iterates in source key order.
#[verifier::external_body]
fn json_node(v: &serde_json::Value) -> (r: JsonNode)
    ensures
        json_node_describes(*v, r),
{
    match v {
        serde_json::Value::Null => JsonNode::Null,
        serde_json::Value::Bool(b) => JsonNode::Bool(*b),
        serde_json::Value::Number(n) => n.as_u64().map(JsonNode::NumU).or_else(
            || n.as_i64().map(JsonNode::NumI),
        ).unwrap_or_else(|| JsonNode::NumF(n.as_f64().map(|x| x.to_bits()).unwrap_or(0))),
        serde_json::Value::String(s) => JsonNode::Text(s.clone()),
        serde_json::Value::Array(a) => JsonNode::Arr(a.clone()),
        serde_json::Value::Object(m) => JsonNode::Obj(
            m.iter().map(|(k, x)| (k.clone(), x.clone())).collect(),
        ),
    }
}

/// Decodes a serde_json value into the serialized tree it holds.
#[verifier::loop_isolation(false)]
pub fn decode_json(v: &serde_json::Value) -> (r: SerializedValue)
    ensures
        r.model() == json_model(*v),
    decreases json_model(*v),
{
    match json_node(v) {
        JsonNode::Null => SerializedValue::Null,
        JsonNode::Bool(b) => SerializedValue::Bool(b),
        JsonNode::NumU(u) => SerializedValue::NumU(u),
        JsonNode::NumI(i) => SerializedValue::NumI(i),
        JsonNode::NumF(bits) => SerializedValue::NumF(bits),
        JsonNode::Text(s) => SerializedValue::Text(s),
        JsonNode::Arr(a) => {
            let ghost elems = json_model(*v)->Arr_0;
            let mut out: Vec<SerializedValue> = Vec::new();
            let mut j: usize = 0;
            while j < a.len()
                invariant
                    j <= a@.len(),
                    out@.len() == j,
                    forall|i: int| 0 <= i < j ==> out@[i].model() == json_model(a@[i]),
                decreases a@.len() - j,
            {
                proof {
                    assert(json_model(a@[j as int]) == elems[j as int]);
                    assert(decreases_to!(json_model(*v) => json_model(*v)->Arr_0));
                    assert(decreases_to!(elems => elems[j as int]));
                }
                out.push(decode_json(&a[j]));
                j = j + 1;
            }
            proof {
                lemma_ser_models(out@);
                assert(ser_models(out@) =~= elems);
            }
            SerializedValue::Arr(out)
        },
        JsonNode::Obj(entries) => {
            let ghost kvs = json_model(*v)->Obj_0;
            let mut out: Vec<(String, SerializedValue)> = Vec::new();
            let mut j: usize = 0;
            while j < entries.len()
                invariant
                    j <= entries@.len(),
                    out@.len() == j,
                    forall|i: int| 0 <= i < j ==> out@[i].0@ == entries@[i].0@ && out@[i].1.model()
                        == json_model(entries@[i].1),
                decreases entries@.len() - j,
            {
                proof {
                    assert(kvs[j as int] == (entries@[j as int].0@, json_model(
                        entries@[j as int].1,
                    )));
                    assert(decreases_to!(json_model(*v) => json_model(*v)->Obj_0));
                    assert(decreases_to!(kvs => kvs[j as int]));
                    assert(decreases_to!(kvs[j as int] => kvs[j as int].1));
                }
                let entry = &entries[j];
                let k = entry.0.clone();
                let d = decode_json(&entry.1);
                out.push((k, d));
                j = j + 1;
            }
            proof {
                lemma_ser_entry_models(out@);
                assert(ser_entry_models(out@) =~= kvs);
            }
            SerializedValue::Obj(out)
        },
    }
}

/// The outcome of parsing a text as JSON: the serialized tree the text
/// denotes, or nothing where the text is not valid JSON. A function of the
/// text alone.
pub uninterp spec fn parsed_json(text: Seq<char>) -> Option<SerModel>;

/// Relies on serde_json::from_str::<Value>: parses the text as JSON, `Ok`
/// exactly on valid JSON; what is parsed depends on the text alone.
#[verifier::external_body]
fn parse_json(text: &str) -> (r: Option<serde_json::Value>)
    ensures
        match r {
            Some(v) => parsed_json(text@) == Some(json_model(v)),
            None => parsed_json(text@) is None,
        },
{
    serde_json::from_str(text).ok()
}

/// Parses a JSON text into the serialized tree it denotes: `Some` exactly on
/// valid JSON.
pub fn parse_serialized(text: &str) -> (r: Option<SerializedValue>)
    ensures
        match r {
            Some(sv) => parsed_json(text@) == Some(sv.model()),
            None => parsed_json(text@) is None,
        },
{
    match parse_json(text) {
        Some(v) => Some(decode_json(&v)),
        None => None,
    }
}

} // verus!

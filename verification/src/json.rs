//! The JSON documents this protocol reads, as a plain tree, and the one
//! trusted parse that produces the tree from raw bytes.
//!
//! Everything the protocol decides about a document — which keys are the
//! cursor keys, which key holds the item array, how the token response is
//! interpreted — is verified code over [`JVal`]; only turning bytes into the
//! tree is trusted to serde_json.
use vstd::prelude::*;

verus! {

/// A parsed JSON value, reduced to the shapes the protocol distinguishes.
///
/// A number is kept only when it is an unsigned integer that fits `usize`
/// (the item type of the list endpoints); any other number is `OtherNum`,
/// which no protocol rule ever accepts.
#[derive(Debug)]
pub enum JVal {
    Null,
    Bool(bool),
    UInt(usize),
    OtherNum,
    Str(String),
    Arr(Vec<JVal>),
    Obj(Vec<(String, JVal)>),
}

#[verifier::external_type_specification]
#[verifier::external_body]
pub struct ExValue(serde_json::Value);

/// The parse of `bytes`: `None` when the bytes are not a JSON document,
/// otherwise the document as a [`JVal`] tree, with object entries in the
/// order serde_json's map iterates them (sorted by key under the default
/// features) and duplicate keys already collapsed to the last occurrence.
pub uninterp spec fn json_of(bytes: Seq<u8>) -> Option<JVal>;

/// Relies on `serde_json::from_slice::<Value>`: the parse depends on the
/// bytes alone, so its result (converted to a `JVal` tree by `convert`)
/// is named `json_of`.
#[verifier::external_body]
pub(crate) fn parse_json(bytes: &[u8]) -> (r: Option<JVal>)
    ensures
        r == json_of(bytes@),
{
    match serde_json::from_slice::<serde_json::Value>(bytes) {
        Ok(v) => Some(convert(&v)),
        Err(_) => None,
    }
}

/// Relies on `serde_json::Number::as_u64`: converts serde_json's tree into
/// [`JVal`], variant by variant, moving values only.
#[verifier::external_body]
fn convert(v: &serde_json::Value) -> JVal {
    match v {
        serde_json::Value::Null => JVal::Null,
        serde_json::Value::Bool(b) => JVal::Bool(*b),
        serde_json::Value::Number(n) => match n.as_u64() {
            Some(u) if u <= usize::MAX as u64 => JVal::UInt(u as usize),
            _ => JVal::OtherNum,
        },
        serde_json::Value::String(s) => JVal::Str(s.clone()),
        serde_json::Value::Array(a) => JVal::Arr(a.iter().map(convert).collect()),
        serde_json::Value::Object(m) => JVal::Obj(
            m.iter().map(|(k, w)| (k.clone(), convert(w))).collect(),
        ),
    }
}

} // verus!

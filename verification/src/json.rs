//! A model of JSON documents and the trusted boundary to `serde_json`.
//!
//! A `serde_json::Value` is opaque to the verifier; `jnode_of` names the tree
//! such a value holds, and each wrapper below states what one `serde_json`
//! call yields in terms of that tree. Numbers are carried as their canonical
//! printed text, which the library parses with its own verified parser.

use vstd::prelude::*;

use serde_json::{Number, Value};

verus! {

/// The mathematical content of a JSON document.
pub enum JsonNode {
    Null,
    Bool(bool),
    Num(Seq<char>),
    Str(Seq<char>),
    Arr(Seq<JsonNode>),
    Obj(Map<Seq<char>, JsonNode>),
}

#[verifier::external_type_specification]
#[verifier::external_body]
pub struct ExValue(Value);

#[verifier::external_type_specification]
#[verifier::external_body]
pub struct ExNumber(Number);

/// The tree held by a `serde_json::Value`; numbers appear as their canonical
/// printed text.
pub uninterp spec fn jnode_of(v: Value) -> JsonNode;

/// The canonical printed text of a `serde_json::Number`.
pub uninterp spec fn number_text(n: Number) -> Seq<char>;

/// What parsing a text as one JSON document yields: the tree, or nothing when
/// the text is not a single valid document.
pub uninterp spec fn json_doc(s: Seq<char>) -> Option<JsonNode>;

/// Relies on `serde_json::from_str::<Value>`: the result is a function of the
/// input text alone, and parsing fails exactly when the text is not a single
/// valid JSON document.
#[verifier::external_body]
pub(crate) fn json_parse(s: &str) -> (r: Option<Value>)
    ensures
        r is Some <==> json_doc(s@) is Some,
        r is Some ==> Some(jnode_of(r->0)) == json_doc(s@),
{
    serde_json::from_str::<Value>(s).ok()
}

/// Relies on `serde_json::Value::is_object`.
#[verifier::external_body]
pub(crate) fn value_is_object(v: &Value) -> (r: bool)
    ensures
        r <==> jnode_of(*v) is Obj,
{
    v.is_object()
}

/// Relies on `serde_json::Value::is_null`.
#[verifier::external_body]
pub(crate) fn value_is_null(v: &Value) -> (r: bool)
    ensures
        r <==> jnode_of(*v) is Null,
{
    v.is_null()
}

/// Relies on `serde_json::Value::get` with a string key: on an object it
/// looks the key up in the underlying map.
#[verifier::external_body]
pub(crate) fn value_get<'a>(v: &'a Value, key: &str) -> (r: Option<&'a Value>)
    requires
        jnode_of(*v) is Obj,
    ensures
        r is Some <==> jnode_of(*v)->Obj_0.contains_key(key@),
        r is Some ==> Some(jnode_of(*r->0)) == Some(jnode_of(*v)->Obj_0[key@]),
{
    v.get(key)
}

/// Relies on `serde_json::Value::as_str`.
#[verifier::external_body]
pub(crate) fn value_as_str(v: &Value) -> (r: Option<String>)
    ensures
        r is Some <==> jnode_of(*v) is Str,
        r is Some ==> r->0@ == jnode_of(*v)->Str_0,
{
    v.as_str().map(|s| s.to_owned())
}

/// Relies on `serde_json::Value::as_number`.
#[verifier::external_body]
pub(crate) fn value_as_number<'a>(v: &'a Value) -> (r: Option<&'a Number>)
    ensures
        r is Some <==> jnode_of(*v) is Num,
        r is Some ==> number_text(*r->0) == jnode_of(*v)->Num_0,
{
    v.as_number()
}

/// Relies on the `Display` impl of `serde_json::Number`: the printed text is
/// a function of the number alone.
#[verifier::external_body]
pub(crate) fn number_to_string(n: &Number) -> (r: String)
    ensures
        r@ == number_text(*n),
{
    format!("{}", n)
}

/// Relies on `serde_json::Value::as_array`.
#[verifier::external_body]
pub(crate) fn value_as_array<'a>(v: &'a Value) -> (r: Option<&'a Vec<Value>>)
    ensures
        r is Some <==> jnode_of(*v) is Arr,
        r is Some ==> ({
            let arr = (*r->0)@;
            let elems = jnode_of(*v)->Arr_0;
            arr.len() == elems.len() && forall|i: int|
                0 <= i < elems.len() ==> jnode_of(#[trigger] arr[i]) == elems[i]
        }),
{
    v.as_array()
}

} // verus!

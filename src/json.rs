use vstd::prelude::*;
use serde_json::Value;

verus! {

#[verifier::external_type_specification]
#[verifier::external_body]
pub struct ExValue(serde_json::Value);

/// The nodes of a JSON value reached through object keys: each path of
/// object keys that leads from the value to a node (the empty path to the
/// value itself), mapped to the node's text when it is a JSON string and to
/// `None` otherwise.
pub uninterp spec fn json_nodes(v: serde_json::Value) -> Map<Seq<Seq<char>>, Option<Seq<char>>>;

/// What parsing a text as JSON gives: the nodes of the value, or `None`
/// when the text is not JSON.
pub uninterp spec fn json_parse(text: Seq<char>) -> Option<Map<Seq<Seq<char>>, Option<Seq<char>>>>;

/// The nodes below the member `key`, with their paths taken from there.
pub open spec fn member_nodes(
    nodes: Map<Seq<Seq<char>>, Option<Seq<char>>>,
    key: Seq<char>,
) -> Map<Seq<Seq<char>>, Option<Seq<char>>> {
    Map::new(
        |p: Seq<Seq<char>>| nodes.contains_key(seq![key] + p),
        |p: Seq<Seq<char>>| nodes[seq![key] + p],
    )
}

/// Relies on serde_json's `Value::get` with a string index: the member under
/// `key` when the value is an object holding that key, `None` otherwise.
#[verifier::external_body]
pub(crate) fn member<'a>(v: &'a Value, key: &str) -> (r: Option<&'a Value>)
    ensures
        r is Some <==> json_nodes(*v).contains_key(seq![key@]),
        r matches Some(m) ==> json_nodes(*m) == member_nodes(json_nodes(*v), key@),
{
    v.get(key)
}

/// Relies on serde_json's `Value::as_str`: the text of a JSON string, `None`
/// for any other kind of value.
#[verifier::external_body]
pub(crate) fn text_of(v: &Value) -> (r: Option<String>)
    ensures
        r is Some <==> json_nodes(*v)[seq![]] is Some,
        r matches Some(t) ==> json_nodes(*v)[seq![]] == Some(t@),
{
    v.as_str().map(String::from)
}

/// Relies on `serde_json::from_str::<Value>`: a value exactly when the text
/// is JSON, with the nodes that the text describes.
#[verifier::external_body]
pub(crate) fn parse_json(text: &str) -> (r: Option<Value>)
    ensures
        r is Some <==> json_parse(text@) is Some,
        r matches Some(v) ==> json_parse(text@) == Some(json_nodes(v)),
{
    serde_json::from_str::<Value>(text).ok()
}

} // verus!

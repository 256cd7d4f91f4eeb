//! JSON documents as the connection handlers see them: what is read out of an
//! inbound document, and how an outbound one is written. Parsing and writing
//! are `serde_json`'s; this module states what the library relies on.

use vstd::prelude::*;

verus! {

/// `serde_json::Value`, a JSON document. The proofs do not look inside one;
/// what the library reads out of it goes by the names below.
#[verifier::external_type_specification]
#[verifier::external_body]
pub struct ExValue(serde_json::Value);

/// The document that a text is read as; `None` where the text is no JSON.
pub uninterp spec fn parsed_json(text: Seq<char>) -> Option<serde_json::Value>;

/// The members of a JSON object whose value is a string, by member name. A
/// document that is no object has none.
pub uninterp spec fn json_strings(doc: serde_json::Value) -> Map<Seq<char>, Seq<char>>;

/// The members of a JSON object whose value is an array, by member name. Each
/// element stands as its text where it is a string and as `None` where it is
/// anything else. A document that is no object has none.
pub uninterp spec fn json_lists(doc: serde_json::Value) -> Map<Seq<char>, Seq<Option<Seq<char>>>>;

/// The compact JSON text of a document.
pub uninterp spec fn json_text(doc: serde_json::Value) -> Seq<char>;

/// The compact JSON text of the object whose members are the given names and
/// string values, a later pair replacing an earlier one of the same name.
pub uninterp spec fn json_object_text(members: Seq<(Seq<char>, Seq<char>)>) -> Seq<char>;

/// Names and values of `members` as plain text.
pub open spec fn member_texts(members: Seq<(String, String)>) -> Seq<(Seq<char>, Seq<char>)> {
    Seq::new(members.len(), |i: int| (members[i].0@, members[i].1@))
}

/// The text of an optional string.
pub open spec fn text_of(item: Option<String>) -> Option<Seq<char>> {
    match item {
        Some(text) => Some(text@),
        None => None,
    }
}

/// The texts of a list of optional strings.
pub open spec fn item_texts(items: Seq<Option<String>>) -> Seq<Option<Seq<char>>> {
    Seq::new(items.len(), |i: int| text_of(items[i]))
}

/// Calls `serde_json::from_str` for a `serde_json::Value`. Hands out the
/// document where the text is JSON and nothing where it is not. Trusted: the
/// text alone decides what comes out.
#[verifier::external_body]
pub(crate) fn parse_document(text: &str) -> (doc: Option<serde_json::Value>)
    ensures
        doc == parsed_json(text@),
{
    match serde_json::from_str::<serde_json::Value>(text) {
        Ok(doc) => Some(doc),
        Err(_) => None,
    }
}

/// Calls `serde_json::Value::get` with a member name and `Value::as_str` on
/// what it finds. Trusted: the result is the text of that member where the
/// document is an object that has the member with a string value, and nothing
/// in every other case.
#[verifier::external_body]
pub(crate) fn string_member(doc: &serde_json::Value, name: &str) -> (text: Option<String>)
    ensures
        text.is_some() == json_strings(*doc).contains_key(name@),
        text is Some ==> text.unwrap()@ == json_strings(*doc)[name@],
{
    doc.get(name).and_then(|member| member.as_str()).map(|text| text.to_owned())
}

/// Calls `serde_json::Value::get` with a member name and `Value::as_array` on
/// what it finds, then `Value::as_str` on each element. Trusted: the result is
/// the member's elements in order, each as its text or as `None` where it is
/// no string, where the document is an object that has the member with an
/// array value, and nothing in every other case.
#[verifier::external_body]
pub(crate) fn list_member(doc: &serde_json::Value, name: &str) -> (list: Option<
    Vec<Option<String>>,
>)
    ensures
        list.is_some() == json_lists(*doc).contains_key(name@),
        list is Some ==> item_texts(list.unwrap()@) == json_lists(*doc)[name@],
{
    doc.get(name).and_then(|member| member.as_array()).map(
        |items| items.iter().map(|item| item.as_str().map(|text| text.to_owned())).collect(),
    )
}

/// Calls `to_string` on a `serde_json::Value`, which writes the document as
/// compact JSON text.
#[verifier::external_body]
pub(crate) fn render_document(doc: &serde_json::Value) -> (text: String)
    ensures
        text@ == json_text(*doc),
{
    doc.to_string()
}

/// Collects names and string values into a `serde_json::Map`, wraps it as
/// `serde_json::Value::Object` and calls `to_string` on it. Trusted: the text
/// depends on the names and values alone.
#[verifier::external_body]
pub(crate) fn render_text_object(members: &Vec<(String, String)>) -> (text: String)
    ensures
        text@ == json_object_text(member_texts(members@)),
{
    let object: serde_json::Map<String, serde_json::Value> = members.iter().map(
        |member| (member.0.clone(), serde_json::Value::String(member.1.clone())),
    ).collect();
    serde_json::Value::Object(object).to_string()
}

} // verus!

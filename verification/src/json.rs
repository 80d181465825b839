//! The JSON text that crosses the broker, as far as `serde_json` produces and
//! reads it.  The contracts here are believed, not proved.

use serde_json::Value;
use std::collections::BTreeMap;
use vstd::prelude::*;

verus! {

/// The JSON string literal, quotes and escapes included, that `serde_json`
/// writes for `text`.
pub uninterp spec fn json_quoted(text: Seq<char>) -> Seq<char>;

/// The string that `serde_json` reads from a document which is one JSON string
/// and nothing else, or `None` where it rejects the document.
pub uninterp spec fn json_string(document: Seq<u8>) -> Option<Seq<char>>;

/// What one member of a JSON object holds, as far as the bridge reads it.
#[derive(Debug)]
pub enum Member {
    Null,
    Flag(bool),
    /// An array: each element as the boolean it is, if it is one.
    List(Vec<Option<bool>>),
    /// An object: each member under its name, as the boolean it is, if it
    /// is one.
    Fields(Vec<(String, Option<bool>)>),
    /// A number or a string.
    Other,
}

/// What one member of a JSON object holds, by its characters.
pub enum MemberView {
    Null,
    Flag(bool),
    List(Seq<Option<bool>>),
    Fields(Seq<(Seq<char>, Option<bool>)>),
    Other,
}

/// The members that `serde_json` reads from a document which is one JSON
/// object, in the order of their names, each name once; `None` where it
/// rejects the document.
pub uninterp spec fn json_members(document: Seq<u8>) -> Option<Seq<(Seq<char>, MemberView)>>;

/// The members of an inner object, by their characters.
pub open spec fn fields_view(fields: Seq<(String, Option<bool>)>) -> Seq<
    (Seq<char>, Option<bool>),
> {
    fields.map_values(|f: (String, Option<bool>)| (f.0@, f.1))
}

/// A member, by its characters.
pub open spec fn member_view(member: Member) -> MemberView {
    match member {
        Member::Null => MemberView::Null,
        Member::Flag(flag) => MemberView::Flag(flag),
        Member::List(items) => MemberView::List(items@),
        Member::Fields(fields) => MemberView::Fields(fields_view(fields@)),
        Member::Other => MemberView::Other,
    }
}

/// The members of a document, by their characters.
pub open spec fn members_view(members: Seq<(String, Member)>) -> Seq<(Seq<char>, MemberView)> {
    members.map_values(|m: (String, Member)| (m.0@, member_view(m.1)))
}

/// Calls `serde_json::to_string` on a string slice.  The result is the JSON
/// literal of that string, a value that depends on the characters alone.
/// There always is one: the serializer fails only where its writer does,
/// and it writes a string slice into a vector, which takes every byte.
#[verifier::external_body]
pub(crate) fn quote(text: &str) -> (r: Option<String>)
    ensures
        r is Some,
        r.unwrap()@ == json_quoted(text@),
{
    serde_json::to_string(text).ok()
}

/// The JSON string literal of `text`.
pub fn quoted(text: &str) -> (r: String)
    ensures
        r@ == json_quoted(text@),
{
    match quote(text) {
        Some(literal) => literal,
        None => vstd::pervasive::unreached(),
    }
}

/// Calls `serde_json::from_slice` for a `String`.  The document is accepted
/// exactly when it is one JSON string, and the result is that string.
#[verifier::external_body]
pub(crate) fn parse_string(document: &[u8]) -> (r: Option<String>)
    ensures
        match r {
            Some(text) => json_string(document@) == Some(text@),
            None => json_string(document@) is None,
        },
{
    serde_json::from_slice::<String>(document).ok()
}

/// Calls `serde_json::from_slice` for a map from strings to
/// `serde_json::Value`, and lists the members as the map hands them out,
/// that is by ascending name.  Each value is told apart by its variant; the
/// elements of an array and the members of an inner object are read with
/// `Value::as_bool`.
#[verifier::external_body]
pub(crate) fn parse_members(document: &[u8]) -> (r: Option<Vec<(String, Member)>>)
    ensures
        match r {
            Some(members) => json_members(document@) == Some(members_view(members@)),
            None => json_members(document@) is None,
        },
{
    let members: BTreeMap<String, Value> = serde_json::from_slice(document).ok()?;
    Some(members.into_iter().map(|(name, value)| (name, match value {
        Value::Null => Member::Null,
        Value::Bool(flag) => Member::Flag(flag),
        Value::Number(_) => Member::Other,
        Value::String(_) => Member::Other,
        Value::Array(items) => Member::List(items.iter().map(Value::as_bool).collect()),
        Value::Object(fields) => Member::Fields(
            fields.iter().map(|(key, field)| (key.clone(), field.as_bool())).collect(),
        ),
    })).collect())
}

} // verus!

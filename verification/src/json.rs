//! The boundary to `serde_json`: the JSON values that bus frames carry.
//!
//! A `serde_json::Value` is opaque to the verifier. What it holds is named by
//! [`json_model`], a tree of plain values, and every function here that
//! touches a `Value` calls into `serde_json` and states over that tree what
//! the call does. None of these statements is proved.

use vstd::prelude::*;
use vstd::utf8::{decode_utf8, valid_utf8};

verus! {

/// `serde_json::Value`, carried through verified code.
#[verifier::external_type_specification]
#[verifier::external_body]
pub struct ExValue(serde_json::Value);

/// `serde_json::Error`, carried through verified code.
#[verifier::external_type_specification]
#[verifier::external_body]
pub struct ExJsonError(serde_json::Error);

/// A JSON value as mathematics. A number is held as the decimal text that
/// `serde_json` writes for it; an object as a map from member name to member.
pub enum JsonModel {
    Null,
    Bool(bool),
    Number(Seq<char>),
    Text(Seq<char>),
    Array(Seq<JsonModel>),
    Object(Map<Seq<char>, JsonModel>),
}

/// What a `serde_json::Value` holds.
pub uninterp spec fn json_model(v: serde_json::Value) -> JsonModel;

/// What `serde_json::from_str` reads from a text: the value, or `None` where
/// it reports an error.
pub uninterp spec fn json_parse(text: Seq<char>) -> Option<JsonModel>;

/// The compact text that `serde_json` writes for a value.
pub uninterp spec fn json_render(m: JsonModel) -> Seq<char>;

/// The member `key` of `m`: present only where `m` is an object that has it.
pub open spec fn model_member(m: JsonModel, key: Seq<char>) -> Option<JsonModel> {
    match m {
        JsonModel::Object(members) => if members.contains_key(key) {
            Some(members[key])
        } else {
            None
        },
        _ => None,
    }
}

/// The text of `m`: present only where `m` is a JSON string.
pub open spec fn model_text(m: JsonModel) -> Option<Seq<char>> {
    match m {
        JsonModel::Text(s) => Some(s),
        _ => None,
    }
}

/// Calls `serde_json::from_str` at type `Value`. The result is a function of
/// the text alone: `Ok` with the value that [`json_parse`] names, `Err` where
/// it names none.
#[verifier::external_body]
pub(crate) fn parse_json(text: &str) -> (r: Result<serde_json::Value, serde_json::Error>)
    ensures
        match r {
            Ok(v) => json_parse(text@) == Some(json_model(v)),
            Err(_) => json_parse(text@) is None,
        },
{
    serde_json::from_str::<serde_json::Value>(text)
}

/// Calls `Value::get` with a string key: the member of that name where the
/// value is an object that has one, `None` for any other value.
#[verifier::external_body]
pub(crate) fn member<'a>(v: &'a serde_json::Value, key: &str) -> (r: Option<&'a serde_json::Value>)
    ensures
        match r {
            Some(m) => model_member(json_model(*v), key@) == Some(json_model(*m)),
            None => model_member(json_model(*v), key@) is None,
        },
{
    v.get(key)
}

/// Calls `Value::as_str`: the string where the value is a JSON string, `None`
/// for any other value.
#[verifier::external_body]
pub(crate) fn text_of<'a>(v: &'a serde_json::Value) -> (r: Option<&'a str>)
    ensures
        match r {
            Some(s) => model_text(json_model(*v)) == Some(s@),
            None => model_text(json_model(*v)) is None,
        },
{
    v.as_str()
}

/// The object that a list of named members makes: each later member is put
/// over what the earlier ones made.
pub open spec fn members_model(fields: Seq<(String, serde_json::Value)>) -> Map<
    Seq<char>,
    JsonModel,
>
    decreases fields.len(),
{
    if fields.len() == 0 {
        Map::empty()
    } else {
        members_model(fields.drop_last()).insert(fields.last().0@, json_model(fields.last().1))
    }
}

/// No two members of the list have the same name.
pub open spec fn distinct_names(fields: Seq<(String, serde_json::Value)>) -> bool {
    forall|i: int, j: int| 0 <= i < j < fields.len() ==> fields[i].0@ != fields[j].0@
}

/// Calls `Value::from` on a string slice, which makes a JSON string of it.
#[verifier::external_body]
pub(crate) fn text_value(s: &str) -> (r: serde_json::Value)
    ensures
        json_model(r) == JsonModel::Text(s@),
{
    serde_json::Value::from(s)
}

/// Collects named members into a `Value`, which `serde_json` makes an object
/// of. With distinct names the object holds exactly the members given.
#[verifier::external_body]
pub(crate) fn object_value(fields: Vec<(String, serde_json::Value)>) -> (r: serde_json::Value)
    requires
        distinct_names(fields@),
    ensures
        json_model(r) == JsonModel::Object(members_model(fields@)),
{
    fields.into_iter().collect::<serde_json::Value>()
}

/// Calls `to_string` on a `Value`, whose `Display` writes compact JSON. The
/// text is a function of what the value holds.
#[verifier::external_body]
pub(crate) fn render(v: &serde_json::Value) -> (r: String)
    ensures
        r@ == json_render(json_model(*v)),
{
    v.to_string()
}

/// Calls `std::str::from_utf8`: the bytes as a string slice where they are
/// valid UTF-8, `None` where they are not.
#[verifier::external_body]
pub(crate) fn utf8_text(bytes: &[u8]) -> (r: Option<&str>)
    ensures
        match r {
            Some(s) => valid_utf8(bytes@) && s@ == decode_utf8(bytes@),
            None => !valid_utf8(bytes@),
        },
{
    match std::str::from_utf8(bytes) {
        Ok(s) => Some(s),
        Err(_) => None,
    }
}

} // verus!

//! Everything this library takes on trust.
//!
//! JSON text is never parsed into a tree here. Each function below asks
//! `serde_json` for one layer of a text and gets texts back, so that all the
//! proofs in the other modules speak of nothing but sequences of characters.
//! Verus does not look into these bodies: it believes the contracts as they
//! are written.

use serde_json::value::RawValue;
use std::collections::BTreeMap;
use vstd::prelude::*;
use vstd::string::*;
use vstd::utf8::*;

verus! {

/// `serde_json::Error`: why a text could not be read or written. It is
/// carried through and never looked into.
#[verifier::external_type_specification]
#[verifier::external_body]
pub struct ExJsonError(serde_json::Error);

/// `core::str::Utf8Error`: where bytes stop being UTF-8. It is carried
/// through and never looked into.
#[verifier::external_type_specification]
#[verifier::external_body]
pub struct ExUtf8Error(core::str::Utf8Error);

/// What `serde_json::from_str` makes of `text` when it is asked for a
/// `BTreeMap<String, Box<RawValue>>`: the members of the JSON object written
/// there, each key with the text of its value, in the order of the map; `None`
/// where the call fails.
pub uninterp spec fn json_object(text: Seq<char>) -> Option<Seq<(Seq<char>, Seq<char>)>>;

/// What `serde_json::from_str` makes of `text` when it is asked for a
/// `Vec<Box<RawValue>>`: the texts of the items of the JSON array written
/// there, in their order; `None` where the call fails.
pub uninterp spec fn json_array(text: Seq<char>) -> Option<Seq<Seq<char>>>;

/// What `serde_json::from_str` makes of `text` when it is asked for a
/// `String`: the characters that the JSON string written there stands for;
/// `None` where the call fails.
pub uninterp spec fn json_string(text: Seq<char>) -> Option<Seq<char>>;

/// What `serde_json::to_string` writes for the string `value`: a JSON string
/// literal, quotes included; `None` where the call fails.
pub uninterp spec fn json_quoted(value: Seq<char>) -> Option<Seq<char>>;

/// Calls `serde_json::from_str::<BTreeMap<String, Box<RawValue>>>` and hands
/// out the map's entries in its own order, each value as the text that
/// `RawValue::get` gives. The contract claims only that the outcome is the one
/// that [`json_object`] names for this text.
#[verifier::external_body]
pub(crate) fn read_object(text: &str) -> (members: Result<
    Vec<(String, String)>,
    serde_json::Error,
>)
    ensures
        members matches Ok(m) ==> json_object(text@) == Some(m.deep_view()),
        members is Err ==> json_object(text@) is None,
{
    let map: BTreeMap<String, Box<RawValue>> = serde_json::from_str(text)?;
    Ok(map.into_iter().map(|(key, value)| (key, value.get().to_owned())).collect())
}

/// Calls `serde_json::from_str::<Vec<Box<RawValue>>>` and hands out each item
/// as the text that `RawValue::get` gives. The contract claims only that the
/// outcome is the one that [`json_array`] names for this text.
#[verifier::external_body]
pub(crate) fn read_array(text: &str) -> (items: Result<Vec<String>, serde_json::Error>)
    ensures
        items matches Ok(v) ==> json_array(text@) == Some(v.deep_view()),
        items is Err ==> json_array(text@) is None,
{
    let items: Vec<Box<RawValue>> = serde_json::from_str(text)?;
    Ok(items.into_iter().map(|item| item.get().to_owned()).collect())
}

/// Calls `serde_json::from_str::<String>`. The contract claims only that the
/// outcome is the one that [`json_string`] names for this text.
#[verifier::external_body]
pub(crate) fn read_string(text: &str) -> (value: Result<String, serde_json::Error>)
    ensures
        value matches Ok(s) ==> json_string(text@) == Some(s@),
        value is Err ==> json_string(text@) is None,
{
    serde_json::from_str(text)
}

/// Calls `serde_json::to_string` on a `str`. The contract claims only that the
/// outcome is the one that [`json_quoted`] names for this string.
#[verifier::external_body]
pub(crate) fn write_string(value: &str) -> (text: Result<String, serde_json::Error>)
    ensures
        text matches Ok(s) ==> json_quoted(value@) == Some(s@),
        text is Err ==> json_quoted(value@) is None,
{
    serde_json::to_string(value)
}

/// Calls `core::str::from_utf8`. The contract claims what its documentation
/// says: the call succeeds exactly on well-formed UTF-8, and the string it
/// then returns is made of the very bytes it was given.
#[verifier::external_body]
pub(crate) fn read_utf8(bytes: &[u8]) -> (text: Result<&str, core::str::Utf8Error>)
    ensures
        text is Ok <==> valid_utf8(bytes@),
        text matches Ok(s) ==> s.spec_bytes() == bytes@,
{
    core::str::from_utf8(bytes)
}

} // verus!

//! Reading single values out of a JSON text. Parsing and lookup are done by
//! `serde_json`; what it finds is given a name here, and the decoders are
//! stated over those names.

use vstd::prelude::*;
use vstd::string::*;
use crate::data::texts;
use crate::text::{decimal, decimal_string};

verus! {

/// The string that `text` holds at `pointer`: `text` parsed by
/// `serde_json::from_str`, the value looked up by `Value::pointer`, read by
/// `Value::as_str`. `None` where `text` is no JSON, nothing stands at
/// `pointer`, or what stands there is no string.
pub uninterp spec fn json_text(text: Seq<char>, pointer: Seq<char>) -> Option<Seq<char>>;

/// The unsigned number that `text` holds at `pointer`, read by
/// `Value::as_u64`; `None` as for `json_text`, or where the value is no
/// such number.
pub uninterp spec fn json_number(text: Seq<char>, pointer: Seq<char>) -> Option<u64>;

/// The length of the array that `text` holds at `pointer`, read by
/// `Value::as_array`; `None` as for `json_text`, or where the value is no
/// array.
pub uninterp spec fn json_length(text: Seq<char>, pointer: Seq<char>) -> Option<usize>;

/// The keys of the object that `text` holds at `pointer`, read by
/// `Value::as_object`, in the order in which the object hands them out;
/// `None` as for `json_text`, or where the value is no object.
pub uninterp spec fn json_keys(text: Seq<char>, pointer: Seq<char>) -> Option<Seq<Seq<char>>>;

/// Calls `serde_json::from_str`, `Value::pointer` and `Value::as_str`: the
/// result is the string named `json_text`.
#[verifier::external_body]
pub(crate) fn text_at(text: &str, pointer: &str) -> (r: Option<String>)
    ensures
        match r {
            Some(s) => json_text(text@, pointer@) == Some(s@),
            None => json_text(text@, pointer@) is None,
        },
{
    let value: serde_json::Value = serde_json::from_str(text).ok()?;
    value.pointer(pointer)?.as_str().map(|s| s.to_string())
}

/// Calls `serde_json::from_str`, `Value::pointer` and `Value::as_u64`: the
/// result is the number named `json_number`.
#[verifier::external_body]
pub(crate) fn number_at(text: &str, pointer: &str) -> (r: Option<u64>)
    ensures
        r == json_number(text@, pointer@),
{
    let value: serde_json::Value = serde_json::from_str(text).ok()?;
    value.pointer(pointer)?.as_u64()
}

/// Calls `serde_json::from_str`, `Value::pointer` and `Value::as_array`:
/// the result is the length named `json_length`.
#[verifier::external_body]
pub(crate) fn length_at(text: &str, pointer: &str) -> (r: Option<usize>)
    ensures
        r == json_length(text@, pointer@),
{
    let value: serde_json::Value = serde_json::from_str(text).ok()?;
    value.pointer(pointer)?.as_array().map(|a| a.len())
}

/// Calls `serde_json::from_str`, `Value::pointer` and `Value::as_object`,
/// and hands out the keys of the object: they are those named `json_keys`.
#[verifier::external_body]
pub(crate) fn keys_at(text: &str, pointer: &str) -> (r: Option<Vec<String>>)
    ensures
        match r {
            Some(keys) => json_keys(text@, pointer@) == Some(texts(keys@)),
            None => json_keys(text@, pointer@) is None,
        },
{
    let value: serde_json::Value = serde_json::from_str(text).ok()?;
    value.pointer(pointer)?.as_object().map(|m| m.keys().cloned().collect())
}

/// The pointer to what stands under `suffix` in element `index` of the
/// array at `prefix`.
pub open spec fn element_pointer(prefix: Seq<char>, index: nat, suffix: Seq<char>) -> Seq<char> {
    prefix + seq!['/'] + decimal(index) + suffix
}

/// The pointer to what stands under `suffix` in element `index` of the
/// array at `prefix`.
pub fn pointer_to(prefix: &str, index: u64, suffix: &str) -> (p: String)
    ensures
        p@ == element_pointer(prefix@, index as nat, suffix@),
{
    proof {
        reveal_strlit("/");
    }
    let mut p: String = String::from_str(prefix);
    p.append("/");
    let number: String = decimal_string(index);
    p.append(number.as_str());
    p.append(suffix);
    assert(p@ =~= prefix@ + seq!['/'] + decimal(index as nat) + suffix@);
    p
}

} // verus!

//! The calls into `serde_json`.
//!
//! Nothing in this file is proved. Each function makes one call and states
//! what `serde_json` documents of it; Verus takes that on faith. A parsed
//! document is opaque to Verus: what it holds is spoken of through the
//! spec functions below, which have no body. Each of them stands for what
//! one call returns, which depends on the call's arguments alone.

use vstd::prelude::*;

verus! {

#[verifier::external_type_specification]
#[verifier::external_body]
pub struct ExJsonValue(serde_json::Value);

/// What `serde_json::from_str::<Value>` makes of `text`: the document,
/// or none where it reports an error.
pub uninterp spec fn json_document(text: Seq<char>) -> Option<serde_json::Value>;

/// What `Value::get` finds under the string index `key`: the member of
/// that name of an object; none for a missing key and for a value that is
/// no object.
pub uninterp spec fn json_member(value: serde_json::Value, key: Seq<char>) -> Option<
    serde_json::Value,
>;

/// What `Value::as_u64` returns: the number as `u64`, where the value is
/// an integer and fits.
pub uninterp spec fn json_unsigned(value: serde_json::Value) -> Option<u64>;

/// What `Value::as_i64` returns: the number as `i64`, where the value is
/// an integer and fits.
pub uninterp spec fn json_integer(value: serde_json::Value) -> Option<i64>;

/// What `Value::as_str` returns: the characters of a string; none for
/// any other kind of value.
pub uninterp spec fn json_string(value: serde_json::Value) -> Option<Seq<char>>;

/// The bit pattern of what `Value::as_f64` returns: the number as a
/// double; none for a value that is no number.
pub uninterp spec fn json_double_bits(value: serde_json::Value) -> Option<u64>;

/// What `serde_json::to_string` writes for the string `text`: its JSON
/// string literal, in quotes and with escapes where JSON needs them.
pub uninterp spec fn json_quoted(text: Seq<char>) -> Seq<char>;

/// Calls `serde_json::from_str::<Value>`. An error becomes none. The
/// call neither panics nor runs away: nesting is cut off at a fixed depth.
#[verifier::external_body]
pub(crate) fn parse(text: &str) -> (document: Option<serde_json::Value>)
    ensures
        document == json_document(text@),
{
    serde_json::from_str::<serde_json::Value>(text).ok()
}

/// Calls `Value::get` with a string index, which borrows the member of
/// that name.
#[verifier::external_body]
pub(crate) fn member<'a>(value: &'a serde_json::Value, key: &str) -> (found: Option<
    &'a serde_json::Value,
>)
    ensures
        match found {
            Some(inner) => json_member(*value, key@) == Some(*inner),
            None => json_member(*value, key@).is_none(),
        },
{
    value.get(key)
}

/// Calls `Value::as_u64`.
#[verifier::external_body]
pub(crate) fn as_unsigned(value: &serde_json::Value) -> (number: Option<u64>)
    ensures
        number == json_unsigned(*value),
{
    value.as_u64()
}

/// Calls `Value::as_i64`.
#[verifier::external_body]
pub(crate) fn as_integer(value: &serde_json::Value) -> (number: Option<i64>)
    ensures
        number == json_integer(*value),
{
    value.as_i64()
}

/// Calls `Value::as_str`, which borrows the characters.
#[verifier::external_body]
pub(crate) fn as_string<'a>(value: &'a serde_json::Value) -> (text: Option<&'a str>)
    ensures
        match text {
            Some(t) => json_string(*value) == Some(t@),
            None => json_string(*value).is_none(),
        },
{
    value.as_str()
}

/// Calls `Value::as_f64` and hands the double on as its bit pattern, bit
/// for bit.
#[verifier::external_body]
pub(crate) fn as_double_bits(value: &serde_json::Value) -> (bits: Option<u64>)
    ensures
        bits == json_double_bits(*value),
{
    match value.as_f64() {
        Some(number) => Some(number.to_bits()),
        None => None,
    }
}

/// Calls `serde_json::to_string` on a string slice. Writing a string
/// cannot fail; were an error to come back, the result would be empty.
#[verifier::external_body]
pub(crate) fn quote(text: &str) -> (literal: String)
    ensures
        literal@ == json_quoted(text@),
{
    match serde_json::to_string(text) {
        Ok(literal) => literal,
        Err(_) => String::new(),
    }
}

} // verus!

//! Reading the JSON bodies that the protocol exchanges.
//!
//! Each reader names what it extracts as a function of the text alone: the
//! `challenge` string of a verification handshake, the `subscription.type`
//! tag of an event envelope, and the `access_token` / `expires_in` fields of
//! a credential-grant response. `None` covers both a body that is not valid
//! JSON and a body without the field: the callers treat the two alike.

use vstd::prelude::*;

verus! {

/// The `challenge` string field at the top level of `body`, or `None` when
/// the body is not valid JSON or has no such string field.
pub uninterp spec fn challenge_field_of(body: Seq<char>) -> Option<Seq<char>>;

/// The `subscription.type` string field of `body`, or `None` when the body
/// is not valid JSON or lacks a `subscription` object with a string `type`.
pub uninterp spec fn subscription_type_of(body: Seq<char>) -> Option<Seq<char>>;

/// The `access_token` string field at the top level of `body`, or `None`
/// when the body is not valid JSON or has no such string field.
pub uninterp spec fn access_token_field_of(body: Seq<char>) -> Option<Seq<char>>;

/// The `expires_in` unsigned-integer field at the top level of `body`, or
/// `None` when the body is not valid JSON or has no such field.
pub uninterp spec fn expires_in_field_of(body: Seq<char>) -> Option<u64>;

/// Relies on `serde_json::from_str` and `Value::get`/`as_str`: the
/// `challenge` string field of the body, a function of the text alone.
#[verifier::external_body]
pub(crate) fn extract_challenge(body: &str) -> (r: Option<String>)
    ensures
        r is Some <==> challenge_field_of(body@) is Some,
        r matches Some(c) ==> challenge_field_of(body@) == Some(c@),
{
    let v: serde_json::Value = match serde_json::from_str(body) {
        Ok(v) => v,
        Err(_) => return None,
    };
    v.get("challenge").and_then(|c| c.as_str()).map(|s| s.to_owned())
}

/// Relies on `serde_json::from_str` and `Value::get`/`as_str`: the
/// `subscription.type` string field of the body, a function of the text
/// alone.
#[verifier::external_body]
pub(crate) fn extract_subscription_type(body: &str) -> (r: Option<String>)
    ensures
        r is Some <==> subscription_type_of(body@) is Some,
        r matches Some(t) ==> subscription_type_of(body@) == Some(t@),
{
    let v: serde_json::Value = match serde_json::from_str(body) {
        Ok(v) => v,
        Err(_) => return None,
    };
    v.get("subscription").and_then(|s| s.get("type")).and_then(|t| t.as_str()).map(
        |s| s.to_owned(),
    )
}

/// Relies on `serde_json::from_str` and `Value::get`/`as_str`: the
/// `access_token` string field of the body, a function of the text alone.
#[verifier::external_body]
pub(crate) fn extract_access_token(body: &str) -> (r: Option<String>)
    ensures
        r is Some <==> access_token_field_of(body@) is Some,
        r matches Some(t) ==> access_token_field_of(body@) == Some(t@),
{
    let v: serde_json::Value = match serde_json::from_str(body) {
        Ok(v) => v,
        Err(_) => return None,
    };
    v.get("access_token").and_then(|t| t.as_str()).map(|s| s.to_owned())
}

/// Relies on `serde_json::from_str` and `Value::get`/`as_u64`: the
/// `expires_in` unsigned-integer field of the body, a function of the text
/// alone.
#[verifier::external_body]
pub(crate) fn extract_expires_in(body: &str) -> (r: Option<u64>)
    ensures
        r == expires_in_field_of(body@),
{
    let v: serde_json::Value = match serde_json::from_str(body) {
        Ok(v) => v,
        Err(_) => return None,
    };
    v.get("expires_in").and_then(|e| e.as_u64())
}

} // verus!

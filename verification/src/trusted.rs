//! The boundary to `serde_json` and `reqwest`.
//!
//! Everything in this module is believed, not proved: the declarations of the
//! outside types, the names given to what the outside functions return, and
//! the wrappers that make the calls. The rest of the crate is verified against
//! the contracts written here.
use crate::json::{Json, JsonView};
use vstd::prelude::*;

verus! {

/// `serde_json::Value`, nothing of which is visible to the proofs.
#[verifier::external_type_specification]
#[verifier::external_body]
pub struct ExValue(serde_json::Value);

/// `serde_json::Number`, nothing of which is visible to the proofs.
#[verifier::external_type_specification]
#[verifier::external_body]
pub struct ExNumber(serde_json::Number);

/// `serde_json::Error`, nothing of which is visible to the proofs.
#[verifier::external_type_specification]
#[verifier::external_body]
pub struct ExJsonError(serde_json::Error);

/// `reqwest::Client`, nothing of which is visible to the proofs.
#[verifier::external_type_specification]
#[verifier::external_body]
pub struct ExTransport(reqwest::Client);

/// `reqwest::Error`, nothing of which is visible to the proofs.
#[verifier::external_type_specification]
#[verifier::external_body]
pub struct ExTransportError(reqwest::Error);

/// `Clone::clone` of `serde_json::Number`: the copy is the same number.
pub assume_specification[ <serde_json::Number as Clone>::clone ](n: &serde_json::Number) -> (r:
    serde_json::Number)
    ensures
        r == *n,
;

/// The document that `serde_json::from_str` reads from a text, or `None` where
/// it rejects the text.
pub uninterp spec fn json_parse(text: Seq<char>) -> Option<JsonView>;

/// The document that a `serde_json::Value` holds.
pub uninterp spec fn value_json(value: serde_json::Value) -> JsonView;

/// The compact text that `serde_json` writes for a `serde_json::Value`.
pub uninterp spec fn value_text(value: serde_json::Value) -> Seq<char>;

/// The compact text that `serde_json` writes for a document.
pub uninterp spec fn json_text(json: JsonView) -> Seq<char>;

/// The number of seconds that a transport allows each request, from its
/// start to the end of the answer, where `ClientBuilder::timeout` set a whole
/// number of seconds when the transport was built.
pub uninterp spec fn transport_timeout(transport: reqwest::Client) -> u64;

/// What `reqwest::Error::is_timeout` answers for an error: whether a timeout
/// is among its causes.
pub uninterp spec fn error_timed_out(error: reqwest::Error) -> bool;

/// Calls `serde_json::from_str` at the type `serde_json::Value`. The contract
/// only ties the outcome to its name: a value is returned exactly where
/// `json_parse` has a document for the text, and the value holds that document.
#[verifier::external_body]
pub(crate) fn parse_value(text: &str) -> (r: Result<serde_json::Value, serde_json::Error>)
    ensures
        match r {
            Ok(value) => json_parse(text@) == Some(value_json(value)),
            Err(_) => json_parse(text@) is None,
        },
{
    serde_json::from_str::<serde_json::Value>(text)
}

/// Moves a `serde_json::Value` into a [`Json`], variant by variant. A number
/// becomes `Json::Int` where `serde_json::Number::as_i64` has a value for it,
/// and is kept as it is otherwise. The contract says that the result is the
/// document that the value holds.
#[verifier::external_body]
pub(crate) fn json_from_value(value: serde_json::Value) -> (json: Json)
    ensures
        json@ == value_json(value),
{
    match value {
        serde_json::Value::Null => Json::Null,
        serde_json::Value::Bool(b) => Json::Bool(b),
        serde_json::Value::Number(n) => match n.as_i64() {
            Some(i) => Json::Int(i),
            None => Json::Number(n),
        },
        serde_json::Value::String(s) => Json::String(s),
        serde_json::Value::Array(items) => Json::Array(
            items.into_iter().map(json_from_value).collect(),
        ),
        serde_json::Value::Object(members) => Json::Object(
            members.into_iter().map(|(k, v)| (k, json_from_value(v))).collect(),
        ),
    }
}

/// Builds the `serde_json::Value` for a [`Json`], variant by variant; the
/// members of an object are inserted into a `serde_json::Map` in their order.
/// The contract says that the value is written as `json_text` of the document.
#[verifier::external_body]
pub(crate) fn value_from_json(json: &Json) -> (value: serde_json::Value)
    ensures
        value_text(value) == json_text(json@),
{
    match json {
        Json::Null => serde_json::Value::Null,
        Json::Bool(b) => serde_json::Value::Bool(*b),
        Json::Int(i) => serde_json::Value::Number(serde_json::Number::from(*i)),
        Json::Number(n) => serde_json::Value::Number(n.clone()),
        Json::String(s) => serde_json::Value::String(s.clone()),
        Json::Array(items) => serde_json::Value::Array(
            items.iter().map(value_from_json).collect(),
        ),
        Json::Object(members) => serde_json::Value::Object(
            members.iter().map(|(k, v)| (k.clone(), value_from_json(v))).collect(),
        ),
    }
}

/// Calls `to_string` of `serde_json::Value`, which writes the compact text of
/// the value.
#[verifier::external_body]
pub(crate) fn render_value(value: &serde_json::Value) -> (text: String)
    ensures
        text@ == value_text(*value),
{
    value.to_string()
}

/// Calls `reqwest::Client::builder`, sets the timeout of every request to the
/// given number of seconds with `ClientBuilder::timeout`, and calls
/// `ClientBuilder::build`. Whether the transport can be built depends on the
/// machine, so nothing is stated of that. The contract says that a transport
/// that was built allows each request the seconds that were given: `timeout`
/// stores them in the configuration, and `build` carries them into the client.
#[verifier::external_body]
pub(crate) fn build_transport(timeout_seconds: u64) -> (r: Result<
    reqwest::Client,
    reqwest::Error,
>)
    ensures
        r matches Ok(transport) ==> transport_timeout(transport) == timeout_seconds,
{
    reqwest::Client::builder().timeout(std::time::Duration::from_secs(timeout_seconds)).build()
}

/// Calls `Clone::clone` of `reqwest::Client`, which hands out another handle
/// to the same client, with its pool of connections and its configuration.
/// The contract says that the handle allows each request the same time.
#[verifier::external_body]
pub(crate) fn share_transport(transport: &reqwest::Client) -> (shared: reqwest::Client)
    ensures
        transport_timeout(shared) == transport_timeout(*transport),
{
    transport.clone()
}

/// Calls `reqwest::Error::is_timeout`, which looks for a timeout among the
/// causes of the error and reads nothing else. The contract only ties the
/// answer to its name.
#[verifier::external_body]
pub(crate) fn timed_out(error: &reqwest::Error) -> (r: bool)
    ensures
        r == error_timed_out(*error),
{
    error.is_timeout()
}

} // verus!

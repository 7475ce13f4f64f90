//! Handling the endpoint's answer.
//!
//! The body that comes back is parsed as generic JSON and re-serialized; a
//! body that is not valid JSON becomes a parse-error message, and a failed
//! transport becomes a transport-error message. Parsing and serialization
//! are serde_json's; which result each input gets is decided and proved
//! here.

use vstd::prelude::*;

verus! {

#[verifier::external_type_specification]
#[verifier::external_body]
pub struct ExValue(serde_json::Value);

/// Whether serde_json accepts `s` as a JSON document.
pub uninterp spec fn json_parse_ok(s: Seq<char>) -> bool;

/// The compact re-serialization of the JSON document `s` holds; meaningful
/// only where `json_parse_ok(s)`.
pub uninterp spec fn json_canon(s: Seq<char>) -> Seq<char>;

/// The message of the parse error that `s` provokes; meaningful only where
/// `!json_parse_ok(s)`.
pub uninterp spec fn json_parse_err_msg(s: Seq<char>) -> Seq<char>;

/// The text a parsed JSON value serializes back to.
pub uninterp spec fn json_text(v: serde_json::Value) -> Seq<char>;

/// Relies on serde_json::from_str::<Value>: it accepts exactly the valid
/// JSON documents, deterministically; on acceptance the value it returns
/// re-serializes to the canonical text of `s`, and on refusal its error
/// message is a function of `s` alone.
#[verifier::external_body]
fn parse_json(s: &str) -> (r: Result<serde_json::Value, String>)
    ensures
        r is Ok <==> json_parse_ok(s@),
        r is Ok ==> json_text(r->Ok_0) == json_canon(s@),
        r is Err ==> r->Err_0@ == json_parse_err_msg(s@),
{
    match serde_json::from_str::<serde_json::Value>(s) {
        Ok(v) => Ok(v),
        Err(e) => Err(format!("{}", e)),
    }
}

/// Relies on serde_json's `Display for Value` (via `to_string`): the compact
/// serialization, a function of the value alone.
#[verifier::external_body]
fn json_value_to_string(v: &serde_json::Value) -> (r: String)
    ensures
        r@ == json_text(*v),
{
    v.to_string()
}

/// What the command returns once a response body is in hand: the re-serialized
/// JSON if the body parses, and otherwise a parse-error message carrying
/// serde_json's own diagnosis.
pub fn handle_response_body(body: &str) -> (r: Result<String, String>)
    ensures
        r is Ok <==> json_parse_ok(body@),
        json_parse_ok(body@) ==> r->Ok_0@ == json_canon(body@),
        !json_parse_ok(body@) ==> r->Err_0@ == "Parse JSON error: "@ + json_parse_err_msg(body@),
{
    match parse_json(body) {
        Ok(v) => Ok(json_value_to_string(&v)),
        Err(msg) => {
            let mut out = String::from_str("Parse JSON error: ");
            out.append(msg.as_str());
            Err(out)
        },
    }
}

/// The error the command returns when the transport itself fails, wrapping
/// the transport's own description of the failure.
pub fn transport_error_message(detail: &str) -> (r: String)
    ensures
        r@ == "Request error: "@ + detail@,
{
    let mut out = String::from_str("Request error: ");
    out.append(detail);
    out
}

} // verus!

//! Building the outbound chat-completion request.
//!
//! The request is fully determined by the API key and the prompt: a fixed
//! endpoint, a bearer-token header, and a JSON body of a fixed shape whose
//! sole message content is the escaped prompt.

use vstd::prelude::*;
use crate::escape::{escape_json_string, spec_escape_string};

verus! {

/// The endpoint every request is sent to.
pub open spec fn spec_endpoint_url() -> Seq<char> {
    "https://free.v36.cm/v1/chat/completions"@
}

/// The error returned when the API key variable is not set.
pub open spec fn spec_missing_credential_message() -> Seq<char> {
    "❌ 找不到環境變數 V36_API_KEY"@
}

/// The JSON body for a prompt: one user message whose content is the
/// escaped prompt, under the fixed model name.
pub open spec fn spec_request_body(prompt: Seq<char>) -> Seq<char> {
    "{\"model\":\"gpt-4o-mini\",\"messages\":[{\"role\":\"user\",\"content\":\""@
        + spec_escape_string(prompt) + "\"}]}"@
}

/// The `Authorization` header value for an API key.
pub open spec fn spec_bearer_header(key: Seq<char>) -> Seq<char> {
    "Bearer "@ + key
}

/// Everything the transport needs to send one chat-completion call:
/// where to send it, how to authenticate, and what to say.
#[derive(Debug)]
pub struct ChatRequest {
    pub url: String,
    pub auth_header: String,
    pub body: String,
}

impl ChatRequest {
    /// The request that the key and the prompt determine.
    pub open spec fn is_for(self, key: Seq<char>, prompt: Seq<char>) -> bool {
        &&& self.url@ == spec_endpoint_url()
        &&& self.auth_header@ == spec_bearer_header(key)
        &&& self.body@ == spec_request_body(prompt)
    }
}

/// The body carries the prompt faithfully, for any prompt — quotes,
/// backslashes, control and non-ASCII characters included: two prompts that
/// give the same request body are the same prompt, since unescaping the
/// embedded content recovers exactly the prompt that was escaped.
pub proof fn lemma_body_determines_prompt(first: Seq<char>, second: Seq<char>)
    requires
        spec_request_body(first) == spec_request_body(second),
    ensures
        first == second,
{
    let pre = "{\"model\":\"gpt-4o-mini\",\"messages\":[{\"role\":\"user\",\"content\":\""@;
    let suf = "\"}]}"@;
    let ea = spec_escape_string(first);
    let eb = spec_escape_string(second);
    assert((pre + ea + suf).len() == (pre + eb + suf).len());
    assert(ea.len() == eb.len());
    assert(ea =~= (pre + ea + suf).subrange(pre.len() as int, (pre.len() + ea.len()) as int));
    assert(eb =~= (pre + eb + suf).subrange(pre.len() as int, (pre.len() + eb.len()) as int));
    assert(ea == eb);
    crate::escape::lemma_escape_round_trip(first);
    crate::escape::lemma_escape_round_trip(second);
    assert(Some(first) == Some(second));
}

/// The error returned when the API key variable is not set.
pub fn missing_credential_message() -> (r: String)
    ensures
        r@ == spec_missing_credential_message(),
{
    String::from_str("❌ 找不到環境變數 V36_API_KEY")
}

/// The JSON body for a prompt.
pub fn build_request_body(prompt: &str) -> (r: String)
    ensures
        r@ == spec_request_body(prompt@),
{
    let mut body = String::from_str(
        "{\"model\":\"gpt-4o-mini\",\"messages\":[{\"role\":\"user\",\"content\":\"",
    );
    let escaped = escape_json_string(prompt);
    body.append(escaped.as_str());
    body.append("\"}]}");
    body
}

/// The `Authorization` header value for an API key.
pub fn bearer_header(api_key: &str) -> (r: String)
    ensures
        r@ == spec_bearer_header(api_key@),
{
    let mut header = String::from_str("Bearer ");
    header.append(api_key);
    header
}

/// The first decision of the command: with no API key the call fails at
/// once with the missing-credential error, whatever the prompt; with a key
/// it yields the one request that key and prompt determine.
pub fn prepare_chat_call(api_key: Option<String>, prompt: &str) -> (r: Result<ChatRequest, String>)
    ensures
        r is Ok <==> api_key is Some,
        api_key is Some ==> r->Ok_0.is_for(api_key->0@, prompt@),
        api_key is None ==> r->Err_0@ == spec_missing_credential_message(),
{
    match api_key {
        None => Err(missing_credential_message()),
        Some(key) => Ok(
            ChatRequest {
                url: crate::endpoint_url(),
                auth_header: bearer_header(key.as_str()),
                body: build_request_body(prompt),
            },
        ),
    }
}

} // verus!

//! Backend logic for a single chat-completion command: it turns a user
//! prompt and an API key into one HTTP request description, and turns the
//! endpoint's answer into the string result handed back to the caller.
//!
//! Everything that computes lives here and is verified; reading the
//! environment and sending the request over the network stay outside.

use vstd::prelude::*;

pub mod escape;
pub mod request;
pub mod response;

verus! {

/// The fixed chat-completion endpoint the request is sent to.
pub fn endpoint_url() -> (r: String)
    ensures
        r@ == crate::request::spec_endpoint_url(),
{
    String::from_str("https://free.v36.cm/v1/chat/completions")
}

} // verus!

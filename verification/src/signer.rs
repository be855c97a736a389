//! The signed-request builder: binds everything that does not change across a
//! retry (account identity, target URL, payload) and leaves the nonce as the
//! one late-bound parameter, because the nonce differs on every attempt even
//! when the logical request is identical. The cryptographic envelope itself
//! is a collaborator's concern; the builder fixes exactly what is signed.

use vstd::prelude::*;

verus! {

use vstd::string::StringExecFns;

/// The body to be signed. An absent payload (POST-as-GET fetches) is distinct
/// from the explicit empty JSON object (challenge acceptance); the protocol
/// uses both and they must never be conflated.
#[derive(Debug)]
pub enum Payload {
    Empty,
    Json(String),
}

/// The payload as it enters the signing envelope: nothing, or its text.
pub open spec fn payload_view(p: Payload) -> Option<Seq<char>> {
    match p {
        Payload::Empty => None,
        Payload::Json(s) => Some(s@),
    }
}

impl Clone for Payload {
    fn clone(&self) -> (r: Self)
        ensures
            payload_view(r) == payload_view(*self),
    {
        match self {
            Payload::Empty => Payload::Empty,
            Payload::Json(s) => Payload::Json(s.clone()),
        }
    }
}

impl Payload {
    /// The explicit empty JSON object, as posted to accept a challenge.
    pub fn empty_object() -> (r: Payload)
        ensures
            payload_view(r) == Some("{}"@),
    {
        Payload::Json(String::from_str("{}"))
    }
}

/// Everything one signed request is built from: the account's server-assigned
/// identity URL (the "kid"), the target URL, the payload, and the single-use
/// nonce bound last.
#[derive(Debug)]
pub struct SignedRequestInput {
    pub account_url: String,
    pub url: String,
    pub payload: Payload,
    pub nonce: String,
}

/// A per-request signer with the nonce still open: account identity, target
/// URL and payload are fixed once, then each attempt binds its own nonce.
pub struct RequestBuilder {
    pub account_url: String,
    pub url: String,
    pub payload: Payload,
}

impl RequestBuilder {
    /// Fixes the parts of a signed request that are identical across retries.
    pub fn new(account_url: String, url: String, payload: Payload) -> (r: RequestBuilder)
        ensures
            r.account_url == account_url,
            r.url == url,
            r.payload == payload,
    {
        RequestBuilder { account_url, url, payload }
    }

    /// Binds the one late parameter: the nonce of this attempt. The result
    /// carries exactly the bound fields and the given nonce.
    pub fn bind(&self, nonce: &str) -> (r: SignedRequestInput)
        ensures
            r.account_url@ == self.account_url@,
            r.url@ == self.url@,
            payload_view(r.payload) == payload_view(self.payload),
            r.nonce@ == nonce@,
    {
        SignedRequestInput {
            account_url: self.account_url.clone(),
            url: self.url.clone(),
            payload: self.payload.clone(),
            nonce: nonce.to_owned(),
        }
    }
}

} // verus!

//! The JSON bodies the orchestrator frames itself: the new-order payload
//! built from the configured domains, and the finalize payload wrapping an
//! encoded certificate signing request. Domains are validated rather than
//! escaped: a name holding a quote, a backslash or a control character is no
//! domain and is rejected as a configuration error.

use vstd::prelude::*;

verus! {

use vstd::string::{StrSliceExecFns, StringExecFns};

use crate::encode::{b64_encode, b64_url_of};
use crate::errors::IssuanceError;

/// A character that may stand unescaped inside a JSON string literal and a
/// domain name: not a quote, not a backslash, not a control character.
pub open spec fn char_clean(c: char) -> bool {
    c != '"' && c != '\\' && c as u32 >= 32
}

/// A domain whose characters all stand unescaped in the payload.
pub open spec fn domain_clean(s: Seq<char>) -> bool {
    forall|i: int| 0 <= i < s.len() ==> char_clean(s[i])
}

/// One identifier object of the new-order payload.
pub open spec fn identifier_json(d: Seq<char>) -> Seq<char> {
    "{\"type\":\"dns\",\"value\":\""@ + d + "\"}"@
}

/// The comma-joined identifier objects of the first `n` domains.
pub open spec fn identifiers_json(ds: Seq<Seq<char>>, n: int) -> Seq<char>
    decreases n,
{
    if n <= 0 {
        Seq::empty()
    } else if n == 1 {
        identifier_json(ds[0])
    } else {
        identifiers_json(ds, n - 1) + ","@ + identifier_json(ds[n - 1])
    }
}

/// The whole new-order payload for a list of domains.
pub open spec fn new_order_json(ds: Seq<Seq<char>>) -> Seq<char> {
    "{\"identifiers\":["@ + identifiers_json(ds, ds.len() as int) + "]}"@
}

/// Whether a string holds only clean characters, decided by scanning it.
fn scan_clean(s: &str) -> (r: bool)
    ensures
        r == domain_clean(s@),
{
    let len = s.unicode_len();
    let mut i: usize = 0;
    while i < len
        invariant
            i <= len,
            len == s@.len(),
            forall|j: int| 0 <= j < i ==> char_clean(s@[j]),
        decreases len - i,
    {
        let c = s.get_char(i);
        if c == '"' || c == '\\' || (c as u32) < 32 {
            return false;
        }
        i += 1;
    }
    true
}

/// Builds the new-order payload from the configured domains: exactly the
/// identifier list of the given names, in their order. Succeeds if and only
/// if every domain is clean; otherwise the first unclean domain is returned
/// in the error.
pub fn new_order_payload(domains: &Vec<String>) -> (r: Result<String, IssuanceError>)
    ensures
        r is Ok <==> (forall|i: int| 0 <= i < domains@.len() ==> domain_clean(
            domains.deep_view()[i],
        )),
        r matches Ok(p) ==> p@ == new_order_json(domains.deep_view()),
        r matches Err(e) ==> (e matches IssuanceError::InvalidDomain { domain } && exists|k: int|
            0 <= k < domains@.len() && domain@ == domains.deep_view()[k] && !domain_clean(
                domain@,
            ) && (forall|j: int| 0 <= j < k ==> domain_clean(domains.deep_view()[j]))),
    {
    let ghost ds: Seq<Seq<char>> = domains.deep_view();
    let mut body = String::from_str("{\"identifiers\":[");
    let mut i: usize = 0;
    while i < domains.len()
        invariant
            i <= domains@.len(),
            ds == domains.deep_view(),
            body@ == "{\"identifiers\":["@ + identifiers_json(ds, i as int),
            forall|j: int| 0 <= j < i ==> domain_clean(ds[j]),
        decreases domains@.len() - i,
    {
        let d = &domains[i];
        if !scan_clean(d.as_str()) {
            proof {
                assert(ds[i as int] == domains@[i as int].deep_view());
                assert(ds[i as int] == d@);
            }
            return Err(IssuanceError::InvalidDomain { domain: d.clone() });
        }
        if i > 0 {
            body.append(",");
        }
        body.append("{\"type\":\"dns\",\"value\":\"");
        body.append(d.as_str());
        body.append("\"}");
        proof {
            assert(ds[i as int] == d@);
            assert(body@ == "{\"identifiers\":["@ + identifiers_json(ds, i + 1));
        }
        i += 1;
    }
    body.append("]}");
    proof {
        assert(body@ == new_order_json(ds));
    }
    Ok(body)
}

/// The finalize payload: the encoded certificate signing request wrapped in
/// its JSON envelope.
pub open spec fn csr_payload_spec(der: Seq<u8>) -> Seq<char> {
    "{\"csr\":\""@ + b64_url_of(der) + "\"}"@
}

/// Wraps a DER-encoded certificate signing request into the finalize
/// payload. The length bound is the encoder's own machine limit.
pub fn csr_payload(der: &Vec<u8>) -> (r: String)
    requires
        der@.len() <= usize::MAX / 4 * 3,
    ensures
        r@ == csr_payload_spec(der@),
{
    let mut body = String::from_str("{\"csr\":\"");
    let encoded = b64_encode(der.as_slice());
    body.append(encoded.as_str());
    body.append("\"}");
    body
}

} // verus!

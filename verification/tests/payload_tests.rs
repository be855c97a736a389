use acme_proto::encode::b64_encode;
use acme_proto::errors::IssuanceError;
use acme_proto::payload::{csr_payload, new_order_payload};
use acme_proto::signer::{Payload, RequestBuilder};

#[test]
fn new_order_payload_frames_the_domains() {
    let domains = vec!["example.org".to_string(), "www.example.org".to_string()];
    let body = new_order_payload(&domains).unwrap();
    let expected = "{\"identifiers\":[{\"type\":\"dns\",\"value\":\"example.org\"},{\"type\":\"dns\",\"value\":\"www.example.org\"}]}";
    assert_eq!(body, expected);
}

#[test]
fn new_order_payload_of_one_domain() {
    let domains = vec!["a.test".to_string()];
    let body = new_order_payload(&domains).unwrap();
    assert_eq!(body, "{\"identifiers\":[{\"type\":\"dns\",\"value\":\"a.test\"}]}");
}

#[test]
fn new_order_payload_of_no_domain_is_empty_list() {
    let domains: Vec<String> = vec![];
    let body = new_order_payload(&domains).unwrap();
    assert_eq!(body, "{\"identifiers\":[]}");
}

#[test]
fn new_order_payload_rejects_a_quoted_domain() {
    let domains = vec!["ok.test".to_string(), "bad\"name".to_string()];
    match new_order_payload(&domains) {
        Err(IssuanceError::InvalidDomain { domain }) => assert_eq!(domain, "bad\"name"),
        other => panic!("expected an invalid-domain error, got {other:?}"),
    }
}

#[test]
fn b64_encoding_is_url_safe_and_unpadded() {
    assert_eq!(b64_encode(b""), "");
    assert_eq!(b64_encode(b"hello"), "aGVsbG8");
    // 0xfb 0xff exercises the two URL-safe alphabet characters.
    assert_eq!(b64_encode(&[0xfb, 0xff]), "-_8");
}

#[test]
fn csr_payload_wraps_the_encoded_request() {
    let der = b"hello".to_vec();
    assert_eq!(csr_payload(&der), "{\"csr\":\"aGVsbG8\"}");
}

#[test]
fn builder_binds_everything_but_the_nonce() {
    let builder = RequestBuilder::new(
        "https://acme/acct/1".to_string(),
        "https://acme/order/1".to_string(),
        Payload::Json("{}".to_string()),
    );
    let first = builder.bind("nonce-a");
    let second = builder.bind("nonce-b");
    assert_eq!(first.account_url, "https://acme/acct/1");
    assert_eq!(first.url, "https://acme/order/1");
    assert_eq!(first.nonce, "nonce-a");
    assert_eq!(second.nonce, "nonce-b");
    assert!(matches!(first.payload, Payload::Json(ref s) if s == "{}"));
}

#[test]
fn empty_payload_differs_from_empty_object() {
    // POST-as-GET uses no payload; challenge acceptance posts the literal
    // empty object. The two must never be conflated.
    let empty = Payload::Empty;
    let object = Payload::empty_object();
    assert!(matches!(empty, Payload::Empty));
    assert!(matches!(object, Payload::Json(ref s) if s == "{}"));
}

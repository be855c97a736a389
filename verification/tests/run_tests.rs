use acme_proto::challenge::{Challenge, ChallengeData, OfferedChallenge};
use acme_proto::errors::IssuanceError;
use acme_proto::orchestrator::{Action, Authorization, Directory, Event, Order, RunConfig};
use acme_proto::signer::Payload;
use acme_proto::status::{AuthorizationStatus, OrderStatus};
use acme_proto::transcript::{TranscriptOutcome, TranscriptRun, run_transcript};

fn config() -> RunConfig {
    RunConfig {
        server_url: "https://acme.test/dir".to_string(),
        domains: vec!["example.org".to_string()],
        challenge: Challenge::Http01,
        max_poll_attempts: 3,
    }
}

fn directory_event() -> Event {
    Event::DirectoryFetched {
        directory: Directory {
            new_nonce: "https://acme.test/new-nonce".to_string(),
            new_order: "https://acme.test/new-order".to_string(),
        },
    }
}

fn order(status: OrderStatus, authorizations: Vec<&str>, certificate: Option<&str>) -> Order {
    Order {
        status,
        authorizations: authorizations.into_iter().map(|s| s.to_string()).collect(),
        finalize: "https://acme.test/finalize/1".to_string(),
        certificate: certificate.map(|s| s.to_string()),
    }
}

fn http01_auth(domain: &str, status: AuthorizationStatus) -> Authorization {
    Authorization {
        identifier: domain.to_string(),
        status,
        challenges: vec![OfferedChallenge::Http01(ChallengeData {
            token: "tok-1".to_string(),
            url: "https://acme.test/chall/1".to_string(),
        })],
    }
}

fn sent(run: &TranscriptRun) -> Vec<&str> {
    run.sent_nonces.iter().map(|s| s.as_str()).collect()
}

fn request_urls(run: &TranscriptRun) -> Vec<&str> {
    run.actions
        .iter()
        .filter_map(|a| match a {
            Action::Send { request } => Some(request.url.as_str()),
            _ => None,
        })
        .collect()
}

fn hook_count(run: &TranscriptRun) -> usize {
    run.actions
        .iter()
        .filter(|a| matches!(a, Action::CompleteChallenge { .. }))
        .count()
}

#[test]
fn scenario_full_issuance_succeeds() {
    let events = vec![
        directory_event(),
        Event::NonceFresh { nonce: "n1".to_string() },
        Event::AccountResolved {
            account_url: "https://acme.test/acct/1".to_string(),
            nonce: "n2".to_string(),
        },
        Event::OrderCreated {
            order: order(OrderStatus::Pending, vec!["https://acme.test/authz/1"], None),
            order_url: "https://acme.test/order/1".to_string(),
            nonce: "n3".to_string(),
        },
        Event::AuthorizationFetched {
            auth: http01_auth("example.org", AuthorizationStatus::Pending),
            nonce: "n4".to_string(),
        },
        Event::HookCompleted,
        Event::ChallengeAccepted { nonce: "n5".to_string() },
        // Authorization polling: valid on the second fetch.
        Event::AuthorizationFetched {
            auth: http01_auth("example.org", AuthorizationStatus::Pending),
            nonce: "n6".to_string(),
        },
        Event::AuthorizationFetched {
            auth: http01_auth("example.org", AuthorizationStatus::Valid),
            nonce: "n7".to_string(),
        },
        Event::OrderFetched {
            order: order(OrderStatus::Ready, vec!["https://acme.test/authz/1"], None),
            nonce: "n8".to_string(),
        },
        Event::CsrReady { der: b"hello".to_vec() },
        // Response to the finalize request itself.
        Event::OrderFetched {
            order: order(OrderStatus::Processing, vec!["https://acme.test/authz/1"], None),
            nonce: "n9".to_string(),
        },
        Event::OrderFetched {
            order: order(
                OrderStatus::Valid,
                vec!["https://acme.test/authz/1"],
                Some("https://acme.test/cert/1"),
            ),
            nonce: "n10".to_string(),
        },
        Event::CertificateFetched {
            certificate: "-----BEGIN CERTIFICATE-----".to_string(),
            nonce: "n11".to_string(),
        },
        Event::Persisted,
    ];
    let run = run_transcript(config(), events);
    assert!(matches!(run.outcome, TranscriptOutcome::Completed));

    // The stored bytes are exactly the downloaded bytes.
    match run.actions.last().unwrap() {
        Action::PersistCertificate { certificate } => {
            assert_eq!(certificate, "-----BEGIN CERTIFICATE-----")
        },
        other => panic!("expected the persist action last, got {other:?}"),
    }

    // Request n+1 carries the nonce of response n, each consumed once.
    assert_eq!(
        sent(&run),
        vec!["n1", "n2", "n3", "n4", "n5", "n6", "n7", "n8", "n9", "n10"]
    );

    // The signed requests hit the expected endpoints, in protocol order.
    assert_eq!(
        request_urls(&run),
        vec![
            "https://acme.test/new-order",
            "https://acme.test/authz/1",
            "https://acme.test/chall/1",
            "https://acme.test/authz/1",
            "https://acme.test/authz/1",
            "https://acme.test/order/1",
            "https://acme.test/finalize/1",
            "https://acme.test/order/1",
            "https://acme.test/cert/1",
        ]
    );

    // The challenge hook ran exactly once, with the mechanism's file name.
    assert_eq!(hook_count(&run), 1);
    let hook = run
        .actions
        .iter()
        .find(|a| matches!(a, Action::CompleteChallenge { .. }))
        .unwrap();
    match hook {
        Action::CompleteChallenge { file_name, token, domain } => {
            assert_eq!(file_name, "tok-1");
            assert_eq!(token, "tok-1");
            assert_eq!(domain, "example.org");
        },
        _ => unreachable!(),
    }

    // The challenge acceptance posted the explicit empty object.
    let ack = run
        .actions
        .iter()
        .find_map(|a| match a {
            Action::Send { request } if request.url == "https://acme.test/chall/1" => Some(request),
            _ => None,
        })
        .unwrap();
    assert!(matches!(ack.payload, Payload::Json(ref s) if s == "{}"));
}

#[test]
fn scenario_invalid_authorization_aborts_immediately() {
    let events = vec![
        directory_event(),
        Event::NonceFresh { nonce: "n1".to_string() },
        Event::AccountResolved {
            account_url: "https://acme.test/acct/1".to_string(),
            nonce: "n2".to_string(),
        },
        Event::OrderCreated {
            order: order(OrderStatus::Pending, vec!["https://acme.test/authz/1"], None),
            order_url: "https://acme.test/order/1".to_string(),
            nonce: "n3".to_string(),
        },
        Event::AuthorizationFetched {
            auth: http01_auth("example.org", AuthorizationStatus::Invalid),
            nonce: "n4".to_string(),
        },
    ];
    let run = run_transcript(config(), events);
    match &run.outcome {
        TranscriptOutcome::Failed(IssuanceError::AuthorizationNotViable { domain, status }) => {
            assert_eq!(domain, "example.org");
            assert_eq!(*status, AuthorizationStatus::Invalid);
        },
        other => panic!("expected the authorization-not-viable error, got {other:?}"),
    }
    // No challenge hook was invoked and no finalize was attempted.
    assert_eq!(hook_count(&run), 0);
    assert!(!request_urls(&run).contains(&"https://acme.test/finalize/1"));
}

#[test]
fn scenario_missing_certificate_url_aborts() {
    let events = vec![
        directory_event(),
        Event::NonceFresh { nonce: "n1".to_string() },
        Event::AccountResolved {
            account_url: "https://acme.test/acct/1".to_string(),
            nonce: "n2".to_string(),
        },
        Event::OrderCreated {
            order: order(OrderStatus::Pending, vec!["https://acme.test/authz/1"], None),
            order_url: "https://acme.test/order/1".to_string(),
            nonce: "n3".to_string(),
        },
        Event::AuthorizationFetched {
            auth: http01_auth("example.org", AuthorizationStatus::Valid),
            nonce: "n4".to_string(),
        },
        Event::OrderFetched {
            order: order(OrderStatus::Ready, vec!["https://acme.test/authz/1"], None),
            nonce: "n5".to_string(),
        },
        Event::CsrReady { der: b"hello".to_vec() },
        Event::OrderFetched {
            order: order(OrderStatus::Processing, vec!["https://acme.test/authz/1"], None),
            nonce: "n6".to_string(),
        },
        // Valid, but no certificate URL.
        Event::OrderFetched {
            order: order(OrderStatus::Valid, vec!["https://acme.test/authz/1"], None),
            nonce: "n7".to_string(),
        },
    ];
    let run = run_transcript(config(), events);
    assert!(matches!(
        run.outcome,
        TranscriptOutcome::Failed(IssuanceError::MissingCertificateUrl)
    ));
    // Storage was never invoked.
    assert!(!run.actions.iter().any(|a| matches!(a, Action::PersistCertificate { .. })));
}

#[test]
fn scenario_already_valid_authorization_is_skipped() {
    let events = vec![
        directory_event(),
        Event::NonceFresh { nonce: "n1".to_string() },
        Event::AccountResolved {
            account_url: "https://acme.test/acct/1".to_string(),
            nonce: "n2".to_string(),
        },
        Event::OrderCreated {
            order: order(
                OrderStatus::Pending,
                vec!["https://acme.test/authz/1", "https://acme.test/authz/2"],
                None,
            ),
            order_url: "https://acme.test/order/1".to_string(),
            nonce: "n3".to_string(),
        },
        // The first authorization already reports valid: no hook for it, the
        // run proceeds directly to the second.
        Event::AuthorizationFetched {
            auth: http01_auth("one.example.org", AuthorizationStatus::Valid),
            nonce: "n4".to_string(),
        },
        Event::AuthorizationFetched {
            auth: http01_auth("two.example.org", AuthorizationStatus::Pending),
            nonce: "n5".to_string(),
        },
    ];
    let run = run_transcript(config(), events);
    assert!(matches!(run.outcome, TranscriptOutcome::Exhausted));
    assert_eq!(
        request_urls(&run),
        vec![
            "https://acme.test/new-order",
            "https://acme.test/authz/1",
            "https://acme.test/authz/2",
        ]
    );
    // The only hook belongs to the second authorization.
    assert_eq!(hook_count(&run), 1);
    match run.actions.last().unwrap() {
        Action::CompleteChallenge { domain, .. } => assert_eq!(domain, "two.example.org"),
        other => panic!("expected a challenge hook last, got {other:?}"),
    }
}

#[test]
fn order_without_authorizations_polls_at_once() {
    let events = vec![
        directory_event(),
        Event::NonceFresh { nonce: "n1".to_string() },
        Event::AccountResolved {
            account_url: "https://acme.test/acct/1".to_string(),
            nonce: "n2".to_string(),
        },
        Event::OrderCreated {
            order: order(OrderStatus::Pending, vec![], None),
            order_url: "https://acme.test/order/1".to_string(),
            nonce: "n3".to_string(),
        },
    ];
    let run = run_transcript(config(), events);
    assert!(matches!(run.outcome, TranscriptOutcome::Exhausted));
    // With nothing to authorize, the order is polled for ready right away.
    assert_eq!(
        request_urls(&run),
        vec!["https://acme.test/new-order", "https://acme.test/order/1"]
    );
}

#[test]
fn every_matching_challenge_is_completed() {
    let auth = Authorization {
        identifier: "example.org".to_string(),
        status: AuthorizationStatus::Pending,
        challenges: vec![
            OfferedChallenge::Dns01(ChallengeData {
                token: "tok-d".to_string(),
                url: "https://acme.test/chall/d".to_string(),
            }),
            OfferedChallenge::Http01(ChallengeData {
                token: "tok-1".to_string(),
                url: "https://acme.test/chall/1".to_string(),
            }),
            OfferedChallenge::Http01(ChallengeData {
                token: "tok-2".to_string(),
                url: "https://acme.test/chall/2".to_string(),
            }),
        ],
    };
    let events = vec![
        directory_event(),
        Event::NonceFresh { nonce: "n1".to_string() },
        Event::AccountResolved {
            account_url: "https://acme.test/acct/1".to_string(),
            nonce: "n2".to_string(),
        },
        Event::OrderCreated {
            order: order(OrderStatus::Pending, vec!["https://acme.test/authz/1"], None),
            order_url: "https://acme.test/order/1".to_string(),
            nonce: "n3".to_string(),
        },
        Event::AuthorizationFetched { auth, nonce: "n4".to_string() },
        Event::HookCompleted,
        Event::ChallengeAccepted { nonce: "n5".to_string() },
        Event::HookCompleted,
        Event::ChallengeAccepted { nonce: "n6".to_string() },
    ];
    let run = run_transcript(config(), events);
    assert!(matches!(run.outcome, TranscriptOutcome::Exhausted));
    // Both offered challenges of the configured kind are completed, in
    // order; the unmatched kind is not.
    assert_eq!(hook_count(&run), 2);
    assert_eq!(
        request_urls(&run),
        vec![
            "https://acme.test/new-order",
            "https://acme.test/authz/1",
            "https://acme.test/chall/1",
            "https://acme.test/chall/2",
            "https://acme.test/authz/1",
        ]
    );
}

#[test]
fn polling_failure_is_distinct_from_timeout() {
    // The authorization turns invalid while being polled: PollFailed.
    let events = vec![
        directory_event(),
        Event::NonceFresh { nonce: "n1".to_string() },
        Event::AccountResolved {
            account_url: "https://acme.test/acct/1".to_string(),
            nonce: "n2".to_string(),
        },
        Event::OrderCreated {
            order: order(OrderStatus::Pending, vec!["https://acme.test/authz/1"], None),
            order_url: "https://acme.test/order/1".to_string(),
            nonce: "n3".to_string(),
        },
        Event::AuthorizationFetched {
            auth: http01_auth("example.org", AuthorizationStatus::Pending),
            nonce: "n4".to_string(),
        },
        Event::HookCompleted,
        Event::ChallengeAccepted { nonce: "n5".to_string() },
        Event::AuthorizationFetched {
            auth: http01_auth("example.org", AuthorizationStatus::Invalid),
            nonce: "n6".to_string(),
        },
    ];
    let run = run_transcript(config(), events);
    assert!(matches!(run.outcome, TranscriptOutcome::Failed(IssuanceError::PollFailed)));
}

#[test]
fn polling_times_out_at_the_configured_bound() {
    let mut events = vec![
        directory_event(),
        Event::NonceFresh { nonce: "n1".to_string() },
        Event::AccountResolved {
            account_url: "https://acme.test/acct/1".to_string(),
            nonce: "n2".to_string(),
        },
        Event::OrderCreated {
            order: order(OrderStatus::Pending, vec!["https://acme.test/authz/1"], None),
            order_url: "https://acme.test/order/1".to_string(),
            nonce: "n3".to_string(),
        },
        Event::AuthorizationFetched {
            auth: http01_auth("example.org", AuthorizationStatus::Pending),
            nonce: "n4".to_string(),
        },
        Event::HookCompleted,
        Event::ChallengeAccepted { nonce: "n5".to_string() },
    ];
    // max_poll_attempts is 3: the third pending fetch is the last.
    for i in 0..3 {
        events.push(Event::AuthorizationFetched {
            auth: http01_auth("example.org", AuthorizationStatus::Pending),
            nonce: format!("p{i}"),
        });
    }
    let run = run_transcript(config(), events);
    assert!(matches!(run.outcome, TranscriptOutcome::Failed(IssuanceError::PollTimeout)));
    // Exactly three polling fetches of the authorization went out after the
    // acceptance, and the third response's nonce was never consumed.
    assert_eq!(sent(&run), vec!["n1", "n2", "n3", "n4", "n5", "p0", "p1"]);
}

#[test]
fn no_matching_challenge_fails_fast() {
    let auth = Authorization {
        identifier: "example.org".to_string(),
        status: AuthorizationStatus::Pending,
        challenges: vec![OfferedChallenge::Dns01(ChallengeData {
            token: "tok-1".to_string(),
            url: "https://acme.test/chall/1".to_string(),
        })],
    };
    let events = vec![
        directory_event(),
        Event::NonceFresh { nonce: "n1".to_string() },
        Event::AccountResolved {
            account_url: "https://acme.test/acct/1".to_string(),
            nonce: "n2".to_string(),
        },
        Event::OrderCreated {
            order: order(OrderStatus::Pending, vec!["https://acme.test/authz/1"], None),
            order_url: "https://acme.test/order/1".to_string(),
            nonce: "n3".to_string(),
        },
        Event::AuthorizationFetched { auth, nonce: "n4".to_string() },
    ];
    let run = run_transcript(config(), events);
    match &run.outcome {
        TranscriptOutcome::Failed(IssuanceError::NoMatchingChallenge { domain }) => {
            assert_eq!(domain, "example.org")
        },
        other => panic!("expected the no-matching-challenge error, got {other:?}"),
    }
    assert_eq!(hook_count(&run), 0);
}

#[test]
fn collaborator_failure_aborts_the_run() {
    let events = vec![
        directory_event(),
        Event::CollaboratorFailed { detail: "connection reset".to_string() },
    ];
    let run = run_transcript(config(), events);
    match &run.outcome {
        TranscriptOutcome::Failed(IssuanceError::Collaborator { detail }) => {
            assert_eq!(detail, "connection reset")
        },
        other => panic!("expected the collaborator error, got {other:?}"),
    }
}

#[test]
fn unexpected_event_is_refused() {
    let events = vec![Event::Persisted];
    let run = run_transcript(config(), events);
    assert!(matches!(run.outcome, TranscriptOutcome::Failed(IssuanceError::UnexpectedEvent)));
}

#[test]
fn invalid_domain_fails_at_order_creation() {
    let cfg = RunConfig {
        server_url: "https://acme.test/dir".to_string(),
        domains: vec!["bad\"name".to_string()],
        challenge: Challenge::Http01,
        max_poll_attempts: 3,
    };
    let events = vec![
        directory_event(),
        Event::NonceFresh { nonce: "n1".to_string() },
        Event::AccountResolved {
            account_url: "https://acme.test/acct/1".to_string(),
            nonce: "n2".to_string(),
        },
    ];
    let run = run_transcript(cfg, events);
    match &run.outcome {
        TranscriptOutcome::Failed(IssuanceError::InvalidDomain { domain }) => {
            assert_eq!(domain, "bad\"name")
        },
        other => panic!("expected the invalid-domain error, got {other:?}"),
    }
}

//! Drives the issuance state machine through its phases on plain observed
//! values: resuming, authorizing, finalizing, and certificate retrieval.

use localcert::error::{LocalcertError, MissingFeature, StateViolation};
use localcert::states::{
    AuthorizePollOutcome, AuthorizeProgress, AuthorizeStart, CertificateStep, OrderedState,
    ProvisionChecked, RegisteredState, ResumeOrderState,
};
use localcert::status::{
    find_dns01_challenge, AccountInfo, AuthorizationInfo, AuthorizationStatus, ChallengeInfo,
    ChallengeStatus, OrderStatus,
};
use localcert::wire::provision::ProvisionResult;
use localcert::ConfigBuilder;

fn account() -> AccountInfo {
    AccountInfo {
        url: "https://ca.example/acct/1".to_string(),
        public_key_jwk: "{\"kty\":\"EC\"}".to_string(),
    }
}

fn registered() -> RegisteredState {
    ConfigBuilder::new().build_with_account(account()).unwrap()
}

fn ordered() -> OrderedState {
    registered().with_order("https://ca.example/order/1".to_string())
}

fn dns01(url: &str, status: ChallengeStatus) -> ChallengeInfo {
    ChallengeInfo {
        challenge_type: "dns-01".to_string(),
        url: url.to_string(),
        status,
    }
}

fn http01(url: &str) -> ChallengeInfo {
    ChallengeInfo {
        challenge_type: "http-01".to_string(),
        url: url.to_string(),
        status: ChallengeStatus::Pending,
    }
}

fn pending_authorization(challenges: Vec<ChallengeInfo>) -> AuthorizationInfo {
    AuthorizationInfo {
        url: "https://ca.example/authz/1".to_string(),
        status: AuthorizationStatus::Pending,
        challenges,
    }
}

#[test]
fn builder_defaults_and_overrides() {
    let st = registered();
    assert_eq!(st.client.base_url, "https://localcert.dev/");
    assert_eq!(st.acme_polling_interval_ms, localcert::DEFAULT_ACME_POLLING_INTERVAL_MS);
    assert_eq!(st.account().url, "https://ca.example/acct/1");

    let mut b = ConfigBuilder::new();
    b.localcert_server_url("https://other.example/base".to_string());
    b.acme_polling_interval(250);
    let st2 = b.build_with_account(account()).unwrap();
    assert_eq!(st2.client.base_url, "https://other.example/base/");
    assert_eq!(st2.acme_polling_interval_ms, 250);
}

#[test]
fn builder_rejects_bad_base() {
    let mut b = ConfigBuilder::new();
    b.localcert_server_url("no scheme at all".to_string());
    assert!(matches!(
        b.build_with_account(account()),
        Err(LocalcertError::InvalidBaseUrl(_))
    ));
}

#[test]
fn with_order_keeps_order_url() {
    let o = ordered();
    assert_eq!(o.order_url(), "https://ca.example/order/1");
}

#[test]
fn resume_order_classifies_all_known_statuses() {
    let url = "https://ca.example/order/1".to_string();
    assert!(matches!(
        registered().resume_order(url.clone(), OrderStatus::Pending).unwrap(),
        ResumeOrderState::Ordered(_)
    ));
    assert!(matches!(
        registered().resume_order(url.clone(), OrderStatus::Ready).unwrap(),
        ResumeOrderState::Authorized(_)
    ));
    assert!(matches!(
        registered().resume_order(url.clone(), OrderStatus::Processing).unwrap(),
        ResumeOrderState::Finalized(_)
    ));
    assert!(matches!(
        registered().resume_order(url.clone(), OrderStatus::Valid).unwrap(),
        ResumeOrderState::Finalized(_)
    ));
}

#[test]
fn resume_order_reports_unknown_statuses() {
    let url = "https://ca.example/order/1".to_string();
    match registered().resume_order(url.clone(), OrderStatus::Invalid) {
        Err(LocalcertError::StateError(StateViolation::UnexpectedOrderStatus(s))) => {
            assert!(matches!(s, OrderStatus::Invalid));
        }
        _ => panic!("expected a state error carrying the status"),
    }
    assert!(matches!(
        registered().resume_order(url, OrderStatus::Other),
        Err(LocalcertError::StateError(StateViolation::UnexpectedOrderStatus(
            OrderStatus::Other
        )))
    ));
}

#[test]
fn find_dns01_takes_first_match() {
    let cs = vec![
        http01("https://ca.example/chal/h"),
        dns01("https://ca.example/chal/d1", ChallengeStatus::Pending),
        dns01("https://ca.example/chal/d2", ChallengeStatus::Pending),
    ];
    assert_eq!(find_dns01_challenge(&cs), Some(1));
    let none = vec![http01("https://ca.example/chal/h")];
    assert_eq!(find_dns01_challenge(&none), None);
    assert_eq!(find_dns01_challenge(&Vec::new()), None);
}

#[test]
fn authorize_skips_order_already_past_pending() {
    match ordered().authorize(OrderStatus::Ready) {
        AuthorizeStart::Authorized(_) => {}
        _ => panic!("expected the flow to complete at once"),
    }
}

#[test]
fn missing_dns01_is_a_missing_feature() {
    let start = ordered().authorize(OrderStatus::Pending);
    let needed = match start {
        AuthorizeStart::NeedsAuthorization(n) => n,
        _ => panic!("expected the authorization to be fetched"),
    };
    let auth = pending_authorization(vec![http01("https://ca.example/chal/h")]);
    assert!(matches!(
        needed.on_authorization(auth),
        Err(LocalcertError::AcmeFeatureMissing(MissingFeature::Dns01Challenge))
    ));
}

#[test]
fn unknown_authorization_status_is_reported() {
    let start = ordered().authorize(OrderStatus::Pending);
    let needed = match start {
        AuthorizeStart::NeedsAuthorization(n) => n,
        _ => panic!("expected the authorization to be fetched"),
    };
    let mut auth = pending_authorization(Vec::new());
    auth.status = AuthorizationStatus::Invalid;
    assert!(matches!(
        needed.on_authorization(auth),
        Err(LocalcertError::StateError(StateViolation::UnexpectedAuthorizationStatus(
            AuthorizationStatus::Invalid
        )))
    ));
}

#[test]
fn mismatched_provisioned_challenge_is_rejected() {
    let start = ordered().authorize(OrderStatus::Pending);
    let needed = match start {
        AuthorizeStart::NeedsAuthorization(n) => n,
        _ => panic!("expected the authorization to be fetched"),
    };
    let auth = pending_authorization(vec![dns01(
        "https://ca.example/chal/d1",
        ChallengeStatus::Pending,
    )]);
    let provision = match needed.on_authorization(auth).unwrap() {
        AuthorizeProgress::Provision(p) => p,
        _ => panic!("expected a provisioning step"),
    };
    assert_eq!(provision.authorization_url(), "https://ca.example/authz/1");
    let result = ProvisionResult {
        authorization_url: "https://ca.example/authz/1".to_string(),
        provisioned_challenge_url: "https://ca.example/chal/other".to_string(),
    };
    match provision.on_provision(result) {
        Err(LocalcertError::StateError(StateViolation::ProvisionedChallengeMismatch {
            expected,
            provisioned,
        })) => {
            assert_eq!(expected, "https://ca.example/chal/d1");
            assert_eq!(provisioned, "https://ca.example/chal/other");
        }
        _ => panic!("expected the mismatch to abort the flow"),
    }
}

/// Drives one full authorization round over an authorization the authority
/// already reports valid, counting provisioning steps.
fn authorize_round_already_valid(provision_calls: &mut u32) {
    let start = ordered().authorize(OrderStatus::Pending);
    let needed = match start {
        AuthorizeStart::NeedsAuthorization(n) => n,
        _ => panic!("expected the authorization to be fetched"),
    };
    let auth = AuthorizationInfo {
        url: "https://ca.example/authz/1".to_string(),
        status: AuthorizationStatus::Valid,
        challenges: vec![dns01("https://ca.example/chal/d1", ChallengeStatus::Valid)],
    };
    let poll = match needed.on_authorization(auth).unwrap() {
        AuthorizeProgress::Poll(p) => p,
        AuthorizeProgress::Provision(_) => {
            *provision_calls += 1;
            panic!("a valid authorization must not be provisioned again");
        }
    };
    match poll.on_status(OrderStatus::Ready) {
        AuthorizePollOutcome::Authorized(_) => {}
        _ => panic!("expected the flow to complete"),
    }
}

#[test]
fn authorize_is_idempotent_on_valid_authorization() {
    let mut provision_calls: u32 = 0;
    authorize_round_already_valid(&mut provision_calls);
    authorize_round_already_valid(&mut provision_calls);
    assert_eq!(provision_calls, 0);
}

#[test]
fn finalize_with_generated_key_requires_ready() {
    for status in [
        OrderStatus::Pending,
        OrderStatus::Processing,
        OrderStatus::Valid,
        OrderStatus::Invalid,
        OrderStatus::Other,
    ] {
        let authorized = match registered()
            .resume_order("https://ca.example/order/1".to_string(), OrderStatus::Ready)
            .unwrap()
        {
            ResumeOrderState::Authorized(a) => a,
            _ => panic!("expected an authorized phase"),
        };
        match authorized.finalize_with_generated_key(status) {
            Err(LocalcertError::StateError(StateViolation::UnexpectedOrderStatus(s))) => {
                assert_eq!(format!("{:?}", s), format!("{:?}", status));
            }
            _ => panic!("expected an unexpected-status error"),
        }
    }
}

#[test]
fn finalize_with_generated_key_succeeds_on_ready() {
    let authorized = match registered()
        .resume_order("https://ca.example/order/1".to_string(), OrderStatus::Ready)
        .unwrap()
    {
        ResumeOrderState::Authorized(a) => a,
        _ => panic!("expected an authorized phase"),
    };
    let finalized = authorized.finalize_with_generated_key(OrderStatus::Ready).unwrap();
    assert_eq!(finalized.order_url(), "https://ca.example/order/1");
}

#[test]
fn finalize_with_csr_requires_ready() {
    let authorized = match registered()
        .resume_order("https://ca.example/order/1".to_string(), OrderStatus::Ready)
        .unwrap()
    {
        ResumeOrderState::Authorized(a) => a,
        _ => panic!("expected an authorized phase"),
    };
    match authorized.finalize_with_csr(OrderStatus::Processing, vec![0x30, 0x82]) {
        Err(LocalcertError::StateError(StateViolation::UnexpectedOrderStatus(s))) => {
            assert!(matches!(s, OrderStatus::Processing));
        }
        _ => panic!("expected an unexpected-status error"),
    }
}

#[test]
fn certificate_retrieval_follows_order_status() {
    let finalized = match registered()
        .resume_order("https://ca.example/order/1".to_string(), OrderStatus::Valid)
        .unwrap()
    {
        ResumeOrderState::Finalized(f) => f,
        _ => panic!("expected a finalized phase"),
    };
    assert!(matches!(
        finalized.get_certificate(OrderStatus::Processing),
        CertificateStep::Recheck
    ));
    assert!(matches!(finalized.get_certificate(OrderStatus::Valid), CertificateStep::Fetch));
    match finalized.get_certificate(OrderStatus::Invalid) {
        CertificateStep::Failed(LocalcertError::StateError(
            StateViolation::UnexpectedOrderStatus(s),
        )) => assert!(matches!(s, OrderStatus::Invalid)),
        _ => panic!("expected the retrieval to fail with the status"),
    }
}

#[test]
fn pending_order_authorizes_once_and_finalizes() {
    // The order reports pending twice and then ready while the flow polls;
    // exactly one DNS record is provisioned along the way.
    let mut provision_calls: u32 = 0;

    let start = ordered().authorize(OrderStatus::Pending);
    let needed = match start {
        AuthorizeStart::NeedsAuthorization(n) => n,
        _ => panic!("expected the authorization to be fetched"),
    };
    let auth = pending_authorization(vec![dns01(
        "https://ca.example/chal/d1",
        ChallengeStatus::Pending,
    )]);
    let provision = match needed.on_authorization(auth).unwrap() {
        AuthorizeProgress::Provision(p) => p,
        _ => panic!("expected a provisioning step"),
    };
    provision_calls += 1;
    let result = ProvisionResult {
        authorization_url: "https://ca.example/authz/1".to_string(),
        provisioned_challenge_url: "https://ca.example/chal/d1".to_string(),
    };
    let respond = match provision.on_provision(result).unwrap() {
        ProvisionChecked::Respond(r) => r,
        _ => panic!("expected the pending challenge to be responded to"),
    };
    assert_eq!(respond.challenge_url(), "https://ca.example/chal/d1");
    let mut poll = respond.responded();

    let mut observed = [OrderStatus::Pending, OrderStatus::Pending, OrderStatus::Ready]
        .into_iter();
    let authorized = loop {
        match poll.on_status(observed.next().unwrap()) {
            AuthorizePollOutcome::Wait(p) => poll = p,
            AuthorizePollOutcome::Authorized(a) => break a,
        }
    };
    assert_eq!(provision_calls, 1);

    let csr = vec![0x30, 0x82, 0x01, 0x0a];
    let (submitted, finalized) = authorized
        .finalize_with_csr(OrderStatus::Ready, csr.clone())
        .unwrap();
    assert_eq!(submitted, csr);
    assert_eq!(finalized.order_url(), "https://ca.example/order/1");
}

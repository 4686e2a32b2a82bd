use auth_irma::attributes::AttributeMapping;
use auth_irma::bridge::{
    auth_redirect, client_url, decorated_continue, finish, read_session, read_state,
    redirect_target, session_complete, start_authentication, start_ib, start_oob, write_state,
    ContinuationState, Error, Flow,
};
use auth_irma::codec::SegmentError;
use auth_irma::config::{Config, KeyConfig, RawConfig};
use auth_irma::idauth::AuthRequest;
use auth_irma::irma::{
    AttributeResult, IrmaRequest, IrmaSession, IrmaserverConfig, ProofStatus, RawIrmaResult,
    SessionStatus,
};
use auth_irma::jwe::KeyFamily;
use auth_irma::validator::{validate, FailureReason, Outcome};
use josekit::jwk::alg::ec::{EcCurve, EcKeyPair};
use josekit::jwk::KeyPair;
use josekit::jwt;

struct Bridge {
    config: Config,
    signing_public: String,
    encryption_private: String,
}

fn mapping() -> AttributeMapping {
    let mut m = AttributeMapping::new();
    m.insert("email".to_string(), vec!["pbdf.pbdf.email.email".to_string()]);
    m
}

fn bridge() -> Bridge {
    let signing = EcKeyPair::generate(EcCurve::P256).unwrap();
    let encryption = EcKeyPair::generate(EcCurve::P256).unwrap();
    let raw = RawConfig {
        server_url: "https://bridge.example".to_string(),
        internal_url: "http://bridge.internal".to_string(),
        sentry_dsn: None,
        ui_irma_url: "https://ui.example/irma".to_string(),
        attributes: mapping(),
        irma_server: IrmaserverConfig {
            url: "https://irma.example".to_string(),
            auth_token: Some("opaque".to_string()),
        },
        encryption_pubkey: KeyConfig {
            family: KeyFamily::Ec,
            key: String::from_utf8(encryption.to_pem_public_key()).unwrap(),
        },
        signing_privkey: KeyConfig {
            family: KeyFamily::Ec,
            key: String::from_utf8(signing.to_pem_private_key()).unwrap(),
        },
    };
    Bridge {
        config: Config::try_from(raw).unwrap(),
        signing_public: String::from_utf8(signing.to_pem_public_key()).unwrap(),
        encryption_private: String::from_utf8(encryption.to_pem_private_key()).unwrap(),
    }
}

fn request(attr_url: Option<&str>) -> AuthRequest {
    AuthRequest {
        attributes: vec!["email".to_string()],
        continuation: "https://app.example/done".to_string(),
        attr_url: attr_url.map(|u| u.to_string()),
    }
}

fn session() -> IrmaSession {
    IrmaSession {
        qr: "{\"u\":\"https://irma.example/irma/session/abc\",\"irmaqr\":\"disclosing\"}".to_string(),
        token: "tok123".to_string(),
    }
}

fn raw(status: SessionStatus, id: &str) -> RawIrmaResult {
    RawIrmaResult {
        status,
        proof_status: ProofStatus::Valid,
        disclosed: vec![vec![AttributeResult { id: id.to_string(), rawvalue: "a@b.com".to_string() }]],
    }
}

fn open(bridge: &Bridge, sealed: &str) -> josekit::jwt::JwtPayload {
    let decrypter = josekit::jwe::ECDH_ES.decrypter_from_pem(&bridge.encryption_private).unwrap();
    let (outer, _) = jwt::decode_with_decrypter(sealed, &decrypter).unwrap();
    let inner = outer.claim("njwt").unwrap().as_str().unwrap().to_string();
    let verifier = josekit::jws::ES256.verifier_from_pem(&bridge.signing_public).unwrap();
    jwt::decode_with_verifier(&inner, &verifier).unwrap().0
}

const QR_SEGMENT: &str =
    "eyJ1IjoiaHR0cHM6Ly9pcm1hLmV4YW1wbGUvaXJtYS9zZXNzaW9uL2FiYyIsImlybWFxciI6ImRpc2Nsb3NpbmcifQ==";

#[test]
fn configuration_says_what_it_was_given() {
    let b = bridge();
    assert_eq!(b.config.server_url(), "https://bridge.example");
    assert_eq!(b.config.internal_url(), "http://bridge.internal");
    assert_eq!(b.config.ui_irma_url(), "https://ui.example/irma");
    assert_eq!(b.config.sentry_dsn(), None);
    assert_eq!(b.config.irma_server().session_url(), "https://irma.example/session");
    assert_eq!(b.config.irma_server().auth_token().map(|t| t.as_str()), Some("opaque"));
    assert!(b.config.attributes().get("email").is_some());
    assert!(b.config.map_attributes(&["email".to_string()]).is_ok());
    assert!(matches!(
        b.config.map_attributes(&["bsn".to_string()]),
        Err(auth_irma::config::Error::UnknownAttribute(name)) if name == "bsn"
    ));
}

#[test]
fn configuration_with_a_bad_key_is_refused() {
    let good = EcKeyPair::generate(EcCurve::P256).unwrap();
    let raw = RawConfig {
        server_url: "s".to_string(),
        internal_url: "i".to_string(),
        sentry_dsn: Some("dsn".to_string()),
        ui_irma_url: "u".to_string(),
        attributes: mapping(),
        irma_server: IrmaserverConfig { url: "x".to_string(), auth_token: None },
        encryption_pubkey: KeyConfig {
            family: KeyFamily::Ec,
            key: String::from_utf8(good.to_pem_public_key()).unwrap(),
        },
        signing_privkey: KeyConfig { family: KeyFamily::Rsa, key: "no key".to_string() },
    };
    assert!(matches!(Config::try_from(raw), Err(auth_irma::config::Error::Jwt(_))));
}

#[test]
fn in_band_plan() {
    let b = bridge();
    let plan = start_authentication(&b.config, &request(None)).unwrap();
    let expected =
        "https://bridge.example/decorated_continue/WyJlbWFpbCJd/aHR0cHM6Ly9hcHAuZXhhbXBsZS9kb25l";
    match &plan.flow {
        Flow::InBand { continuation_url } => assert_eq!(continuation_url, expected),
        other => panic!("unexpected flow: {:?}", other),
    }
    let IrmaRequest::Disclosure(d) = &plan.request;
    assert_eq!(d.return_url.as_deref(), Some(expected));
    assert!(d.augment_return);
    assert_eq!(d.disclose.len(), 1);
    assert_eq!(d.disclose[0].len(), 1);
    assert_eq!(d.disclose[0][0].len(), 1);
    assert_eq!(d.disclose[0][0][0].id(), "pbdf.pbdf.email.email");

    let response = client_url(&b.config, &request(None), &plan.flow, &session());
    let target = format!("{}?token=tok123", expected);
    assert_eq!(
        response.client_url,
        format!(
            "https://bridge.example/auth/{}/{}",
            QR_SEGMENT,
            auth_irma::codec::encode_text(&target)
        )
    );
    let (continuation, qr) =
        read_session(QR_SEGMENT, &auth_irma::codec::encode_text(&target)).unwrap();
    assert_eq!(continuation, target);
    assert_eq!(qr, session().qr);
}

#[test]
fn out_of_band_plan() {
    let b = bridge();
    let req = request(Some("https://caller.example/attrs"));
    let plan = start_authentication(&b.config, &req).unwrap();
    match &plan.flow {
        Flow::OutOfBand { callback_url } => assert_eq!(
            callback_url,
            "http://bridge.internal/session_complete/WyJlbWFpbCJd/aHR0cHM6Ly9jYWxsZXIuZXhhbXBsZS9hdHRycw=="
        ),
        other => panic!("unexpected flow: {:?}", other),
    }
    let IrmaRequest::Disclosure(d) = &plan.request;
    assert_eq!(d.return_url.as_deref(), Some("https://app.example/done"));
    assert!(!d.augment_return);
    assert_eq!(d.disclose[0][0][0].id(), "pbdf.pbdf.email.email");

    let response = client_url(&b.config, &req, &plan.flow, &session());
    assert_eq!(
        response.client_url,
        format!("https://bridge.example/auth/{}/aHR0cHM6Ly9hcHAuZXhhbXBsZS9kb25l", QR_SEGMENT)
    );
}

#[test]
fn plans_fail_for_an_unknown_attribute() {
    let b = bridge();
    let mut req = request(None);
    req.attributes.push("bsn".to_string());
    assert!(matches!(
        start_ib(&b.config, &req),
        Err(Error::Config(auth_irma::config::Error::UnknownAttribute(name))) if name == "bsn"
    ));
    assert!(matches!(
        start_oob(&b.config, &req, "https://caller.example/attrs"),
        Err(Error::Config(auth_irma::config::Error::UnknownAttribute(name))) if name == "bsn"
    ));
}

#[test]
fn returning_request_is_read_from_its_path() {
    let state = read_state("WyJlbWFpbCJd", "aHR0cHM6Ly9hcHAuZXhhbXBsZS9kb25l").unwrap();
    assert_eq!(state.url, "https://app.example/done");
    assert_eq!(state.attributes, vec!["email".to_string()]);
}

#[test]
fn unreadable_path_is_an_error_and_the_url_is_read_first() {
    assert!(matches!(
        read_state("WyJlbWFpbCJd", "***"),
        Err(Error::Segment(SegmentError::Decode(_)))
    ));
    assert!(matches!(read_state("WyJlbWFpbCJd", "_w=="), Err(Error::Segment(SegmentError::Utf(_)))));
    assert!(matches!(
        read_state("eyJhIjoxfQ==", "aHR0cHM6Ly9hcHAuZXhhbXBsZS9kb25l"),
        Err(Error::Segment(SegmentError::Json(_)))
    ));
    assert!(matches!(read_state("eyJhIjoxfQ==", "_w=="), Err(Error::Segment(SegmentError::Utf(_)))));
    assert!(matches!(read_session("_w==", "***"), Err(Error::Segment(SegmentError::Decode(_)))));
    assert!(matches!(
        read_session("_w==", "aHR0cHM6Ly9hcHAuZXhhbXBsZS9kb25l"),
        Err(Error::Segment(SegmentError::Utf(_)))
    ));
}

#[test]
fn redirect_adds_the_result_as_a_query_parameter() {
    assert_eq!(redirect_target("https://app.example/done", "abc"), "https://app.example/done?result=abc");
    assert_eq!(
        redirect_target("https://app.example/done?x=1", "abc"),
        "https://app.example/done?x=1&result=abc"
    );
}

#[test]
fn session_page_redirect() {
    let b = bridge();
    assert_eq!(auth_redirect(&b.config, "a.b.c"), "https://ui.example/irma?a.b.c");
}

#[test]
fn validate_classifies_each_status() {
    let attrs = vec!["email".to_string()];
    let id = "pbdf.pbdf.email.email";
    let cases = vec![
        (SessionStatus::Cancelled, FailureReason::Cancelled),
        (SessionStatus::Timeout, FailureReason::TimedOut),
        (SessionStatus::Initialized, FailureReason::Incomplete),
        (SessionStatus::Connected, FailureReason::Incomplete),
    ];
    for (status, reason) in cases {
        let outcome = validate(&mapping(), &attrs, raw(status, id)).unwrap();
        assert!(matches!(outcome, Outcome::Failed(r) if r == reason));
    }
    let mut invalid = raw(SessionStatus::Done, id);
    invalid.proof_status = ProofStatus::Expired;
    assert!(matches!(
        validate(&mapping(), &attrs, invalid).unwrap(),
        Outcome::Failed(FailureReason::InvalidProof)
    ));
    let mut cancelled = raw(SessionStatus::Cancelled, id);
    cancelled.proof_status = ProofStatus::Invalid;
    cancelled.disclosed = vec![];
    assert!(matches!(
        validate(&mapping(), &attrs, cancelled).unwrap(),
        Outcome::Failed(FailureReason::Cancelled)
    ));
}

#[test]
fn validate_checks_a_finished_session() {
    let attrs = vec!["email".to_string()];
    match validate(&mapping(), &attrs, raw(SessionStatus::Done, "pbdf.pbdf.email.email")).unwrap() {
        Outcome::Success(values) => {
            assert_eq!(values.len(), 1);
            assert_eq!(values.get("email").map(|v| v.as_str()), Some("a@b.com"));
        },
        other => panic!("unexpected outcome: {:?}", other),
    }
    assert!(matches!(
        validate(&mapping(), &attrs, raw(SessionStatus::Done, "pbdf.pbdf.email.domain")).unwrap(),
        Outcome::Failed(FailureReason::InvalidResponse)
    ));
    let mut none = raw(SessionStatus::Done, "pbdf.pbdf.email.email");
    none.disclosed = vec![];
    assert!(matches!(
        validate(&mapping(), &attrs, none).unwrap(),
        Outcome::Failed(FailureReason::ResponseMismatch)
    ));
    assert!(matches!(
        validate(&mapping(), &["bsn".to_string()], raw(SessionStatus::Done, "x")),
        Err(auth_irma::config::Error::UnknownAttribute(name)) if name == "bsn"
    ));
    assert!(matches!(
        validate(&mapping(), &["bsn".to_string()], raw(SessionStatus::Cancelled, "x")).unwrap(),
        Outcome::Failed(FailureReason::Cancelled)
    ));
}

#[test]
fn disclosed_email_ends_in_a_sealed_success_on_the_continuation() {
    let b = bridge();
    let req = request(None);
    let plan = start_authentication(&b.config, &req).unwrap();
    let Flow::InBand { continuation_url } = &plan.flow else { panic!("in-band flow expected") };
    let path: Vec<&str> = continuation_url.rsplitn(3, '/').collect();
    let state = read_state(path[1], path[0]).unwrap();
    assert_eq!(state.url, req.continuation);
    assert_eq!(state.attributes, req.attributes);

    let sealed =
        finish(&b.config, &state.attributes, raw(SessionStatus::Done, "pbdf.pbdf.email.email")).unwrap();
    let target = redirect_target(&state.url, &sealed);
    assert_eq!(target, format!("https://app.example/done?result={}", sealed));

    let payload = open(&b, &sealed);
    assert_eq!(payload.claim("status").unwrap().as_str(), Some("success"));
    let attributes = payload.claim("attributes").unwrap().as_object().unwrap();
    assert_eq!(attributes.len(), 1);
    assert_eq!(attributes.get("email").unwrap().as_str(), Some("a@b.com"));
}

#[test]
fn cancelled_session_ends_in_a_sealed_failure() {
    let b = bridge();
    let sealed = finish(
        &b.config,
        &["email".to_string()],
        RawIrmaResult {
            status: SessionStatus::Cancelled,
            proof_status: ProofStatus::Invalid,
            disclosed: vec![],
        },
    )
    .unwrap();
    let payload = open(&b, &sealed);
    assert_eq!(payload.claim("status").unwrap().as_str(), Some("failed"));
    assert_eq!(payload.claim("reason").unwrap().as_str(), Some("cancelled"));
    assert!(payload.claim("attributes").is_none());
}

#[test]
fn unknown_attribute_at_the_end_is_an_error_and_nothing_is_sealed() {
    let b = bridge();
    let r = finish(&b.config, &["bsn".to_string()], raw(SessionStatus::Done, "x"));
    assert!(matches!(
        r,
        Err(Error::Config(auth_irma::config::Error::UnknownAttribute(name))) if name == "bsn"
    ));
}

#[test]
fn in_band_return_redirects_to_the_continuation_with_the_result() {
    let b = bridge();
    let state = ContinuationState {
        url: "https://app.example/done?lang=nl".to_string(),
        attributes: vec!["email".to_string()],
    };
    let target =
        decorated_continue(&b.config, &state, raw(SessionStatus::Done, "pbdf.pbdf.email.email")).unwrap();
    let sealed = target.strip_prefix("https://app.example/done?lang=nl&result=").unwrap();
    let payload = open(&b, sealed);
    assert_eq!(payload.claim("status").unwrap().as_str(), Some("success"));
    assert_eq!(
        payload.claim("attributes").unwrap().as_object().unwrap().get("email").unwrap().as_str(),
        Some("a@b.com")
    );
}

#[test]
fn out_of_band_return_is_delivered_to_the_named_url() {
    let b = bridge();
    let state = ContinuationState {
        url: "https://caller.example/attrs".to_string(),
        attributes: vec!["email".to_string()],
    };
    let delivery =
        session_complete(&b.config, &state, raw(SessionStatus::Timeout, "pbdf.pbdf.email.email")).unwrap();
    assert_eq!(delivery.url, "https://caller.example/attrs");
    let payload = open(&b, &delivery.body);
    assert_eq!(payload.claim("status").unwrap().as_str(), Some("failed"));
    assert_eq!(payload.claim("reason").unwrap().as_str(), Some("timed_out"));

    let unknown = ContinuationState { url: "u".to_string(), attributes: vec!["bsn".to_string()] };
    assert!(matches!(
        session_complete(&b.config, &unknown, raw(SessionStatus::Done, "x")),
        Err(Error::Config(auth_irma::config::Error::UnknownAttribute(_)))
    ));
    assert!(matches!(
        decorated_continue(&b.config, &unknown, raw(SessionStatus::Done, "x")),
        Err(Error::Config(auth_irma::config::Error::UnknownAttribute(_)))
    ));
}

#[test]
fn written_state_reads_back() {
    let cases = vec![
        (vec![], ""),
        (vec!["email".to_string()], "https://app.example/done"),
        (
            vec!["a/b".to_string(), "c?d=e&f".to_string(), "\"q\"".to_string()],
            "https://app.example/done?x=1&y=%2F#frag caf\u{e9}",
        ),
    ];
    for (attributes, url) in cases {
        let (names_part, url_part) = write_state(&attributes, url).unwrap();
        for part in [&names_part, &url_part] {
            assert!(part.chars().all(|c| c.is_ascii_alphanumeric() || c == '-' || c == '_' || c == '='));
        }
        let state = read_state(&names_part, &url_part).unwrap();
        assert_eq!(state.url, url);
        assert_eq!(state.attributes, attributes);
    }
    let (names_part, url_part) =
        write_state(&["email".to_string()], "https://app.example/done").unwrap();
    assert_eq!(names_part, "WyJlbWFpbCJd");
    assert_eq!(url_part, "aHR0cHM6Ly9hcHAuZXhhbXBsZS9kb25l");
}

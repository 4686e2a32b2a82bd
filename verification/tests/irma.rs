use auth_irma::irma::{
    AttributeResult, Error, IrmaResult, IrmaServer, IrmaserverConfig, ProofStatus, RawIrmaResult,
    SessionStatus,
};

fn raw(status: SessionStatus, proof_status: ProofStatus) -> RawIrmaResult {
    RawIrmaResult {
        status,
        proof_status,
        disclosed: vec![vec![AttributeResult {
            id: "pbdf.pbdf.email.email".to_string(),
            rawvalue: "a@b.com".to_string(),
        }]],
    }
}

fn proofs() -> Vec<ProofStatus> {
    vec![
        ProofStatus::Valid,
        ProofStatus::Invalid,
        ProofStatus::InvalidTimestamp,
        ProofStatus::UnmatchedRequest,
        ProofStatus::MissingAttributes,
        ProofStatus::Expired,
    ]
}

#[test]
fn done_and_valid_is_accepted_with_its_groups() {
    let result = IrmaResult::try_from(raw(SessionStatus::Done, ProofStatus::Valid)).unwrap();
    assert_eq!(result.disclosed.len(), 1);
    assert_eq!(result.disclosed[0].len(), 1);
    assert_eq!(result.disclosed[0][0].id, "pbdf.pbdf.email.email");
    assert_eq!(result.disclosed[0][0].rawvalue, "a@b.com");
}

#[test]
fn cancelled_whatever_the_proof() {
    for proof in proofs() {
        let r = IrmaResult::try_from(raw(SessionStatus::Cancelled, proof));
        assert_eq!(r.unwrap_err(), Error::Cancelled());
    }
}

#[test]
fn timeout_whatever_the_proof() {
    for proof in proofs() {
        let r = IrmaResult::try_from(raw(SessionStatus::Timeout, proof));
        assert_eq!(r.unwrap_err(), Error::Timeout());
    }
}

#[test]
fn done_with_another_proof_status_is_invalid() {
    for proof in proofs() {
        if proof != ProofStatus::Valid {
            let r = IrmaResult::try_from(raw(SessionStatus::Done, proof));
            assert_eq!(r.unwrap_err(), Error::Invalid());
        }
    }
}

#[test]
fn unfinished_sessions_are_incomplete() {
    for proof in proofs() {
        let r = IrmaResult::try_from(raw(SessionStatus::Initialized, proof));
        assert_eq!(r.unwrap_err(), Error::Incomplete());
        let r = IrmaResult::try_from(raw(SessionStatus::Connected, proof));
        assert_eq!(r.unwrap_err(), Error::Incomplete());
    }
}

#[test]
fn session_error_messages() {
    assert_eq!(Error::Incomplete().message(), "Incomplete session");
    assert_eq!(Error::Cancelled().message(), "Cancelled session");
    assert_eq!(Error::Timeout().message(), "Session timed out");
    assert_eq!(Error::Invalid().message(), "Invalid proof");
}

#[test]
fn server_without_token() {
    let server = IrmaServer::new("https://irma.example");
    assert!(server.auth_token().is_none());
    assert_eq!(server.session_url(), "https://irma.example/session");
    assert_eq!(server.result_url("tok123"), "https://irma.example/session/tok123/result");
}

#[test]
fn server_with_token() {
    let server = IrmaServer::new_with_auth("https://irma.example", "opaque");
    assert_eq!(server.auth_token().map(|t| t.as_str()), Some("opaque"));
    assert_eq!(server.session_url(), "https://irma.example/session");
}

#[test]
fn server_from_its_configuration() {
    let with = IrmaServer::from(IrmaserverConfig {
        url: "https://irma.example".to_string(),
        auth_token: Some("opaque".to_string()),
    });
    assert_eq!(with.auth_token().map(|t| t.as_str()), Some("opaque"));
    assert_eq!(with.result_url("t"), "https://irma.example/session/t/result");
    let without =
        IrmaServer::from(IrmaserverConfig { url: "https://irma.example".to_string(), auth_token: None });
    assert!(without.auth_token().is_none());
}

#[test]
fn session_status_names() {
    let all = vec![
        (SessionStatus::Initialized, "INITIALIZED"),
        (SessionStatus::Connected, "CONNECTED"),
        (SessionStatus::Cancelled, "CANCELLED"),
        (SessionStatus::Done, "DONE"),
        (SessionStatus::Timeout, "TIMEOUT"),
    ];
    for (status, name) in all {
        assert_eq!(status.name(), name);
        assert_eq!(SessionStatus::from_name(name), Some(status));
    }
    assert_eq!(SessionStatus::from_name("done"), None);
    assert_eq!(SessionStatus::from_name("Done"), None);
    assert_eq!(SessionStatus::from_name(""), None);
    assert_eq!(SessionStatus::from_name("DONE "), None);
}

#[test]
fn auth_status_names_on_the_wire() {
    assert_eq!(auth_irma::idauth::AuthStatus::Succes().name(), "succes");
    assert_eq!(auth_irma::idauth::AuthStatus::Failed().name(), "failed");
}

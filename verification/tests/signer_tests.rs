use a2::client::{AuthMode, Client, ExchangeEvent};
use a2::endpoint::Endpoint;
use a2::error::Error;
use a2::identity::CertificateIdentity;
use a2::options::NotificationOptions;
use a2::payload::{Aps, NotificationPayload};
use a2::signer::{Signer, MAX_TOKEN_AGE_SECS};

fn test_pkcs8() -> Vec<u8> {
    let rng = ring::rand::SystemRandom::new();
    let doc = ring::signature::EcdsaKeyPair::generate_pkcs8(
        &ring::signature::ECDSA_P256_SHA256_FIXED_SIGNING,
        &rng,
    )
    .unwrap();
    doc.as_ref().to_vec()
}

fn test_signer() -> Signer {
    Signer::new("KEYID12345".to_owned(), "TEAMID1234".to_owned(), &test_pkcs8()).unwrap()
}

#[test]
fn fresh_tokens_are_byte_identical() {
    let mut signer = test_signer();
    let first = signer.get_token_at(1000).unwrap();
    let again = signer.get_token_at(1000 + MAX_TOKEN_AGE_SECS - 1).unwrap();
    assert_eq!(first.value, again.value);
    assert_eq!(first.issued_at, again.issued_at);
    assert_eq!(first.issued_at, 1000);
}

#[test]
fn stale_token_is_renewed_with_later_issuance() {
    let mut signer = test_signer();
    let first = signer.get_token_at(1000).unwrap();
    let renewed = signer.get_token_at(1000 + MAX_TOKEN_AGE_SECS).unwrap();
    assert!(renewed.issued_at > first.issued_at);
    assert_eq!(renewed.issued_at, 1000 + MAX_TOKEN_AGE_SECS);
    assert_ne!(renewed.value, first.value);
}

#[test]
fn one_distinct_token_per_renewal_window() {
    let mut signer = test_signer();
    let _ = signer.get_token_at(1000).unwrap();
    let boundary = signer.get_token_at(1000 + MAX_TOKEN_AGE_SECS).unwrap();
    let mut values = Vec::new();
    for offset in 0..10 {
        let tok = signer
            .get_token_at(1000 + MAX_TOKEN_AGE_SECS + offset)
            .unwrap();
        values.push(tok.value);
    }
    for value in &values {
        assert_eq!(value, &boundary.value);
    }
}

#[test]
fn token_has_compact_three_part_form() {
    let mut signer = test_signer();
    let tok = signer.get_token_at(1234).unwrap();
    let parts: Vec<&str> = tok.value.split('.').collect();
    assert_eq!(parts.len(), 3);
    let header = "{\"alg\":\"ES256\",\"kid\":\"KEYID12345\"}";
    let claims = "{\"iss\":\"TEAMID1234\",\"iat\":1234}";
    assert_eq!(
        parts[0],
        a2::b64::b64url_encode(&header.as_bytes().to_vec())
    );
    assert_eq!(
        parts[1],
        a2::b64::b64url_encode(&claims.as_bytes().to_vec())
    );
    assert!(!parts[2].is_empty());
}

#[test]
fn wall_clock_token_reuses_cache() {
    let mut signer = test_signer();
    let first = signer.get_token().unwrap();
    let again = signer.get_token().unwrap();
    assert_eq!(first.value, again.value);
}

#[test]
fn bad_key_is_rejected_without_panic() {
    let bogus = vec![0u8; 64];
    match Signer::new("k".to_owned(), "t".to_owned(), &bogus) {
        Err(Error::UnexpectedKey) => {}
        other => panic!("expected an unexpected-key error, got {:?}", other.is_ok()),
    }
}

#[test]
fn timeout_event_concludes_as_request_timeout() {
    let signer = test_signer();
    let client = Client::token(signer, Endpoint::Sandbox, 1);
    match client.conclude(ExchangeEvent::TimedOut) {
        Err(Error::RequestTimeout(secs)) => assert_eq!(secs, 1),
        other => panic!("expected a timeout error, got {:?}", other),
    }
    match client.conclude(ExchangeEvent::ConnectionFailed) {
        Err(Error::ConnectionError) => {}
        other => panic!("expected a connection error, got {:?}", other),
    }
}

#[test]
fn token_client_attaches_bearer_and_certificate_client_does_not() {
    let signer = test_signer();
    let mut client = Client::token(signer, Endpoint::Production, 5);
    let mut aps = Aps::new();
    aps.alert = Some("hi".to_owned());
    let payload = NotificationPayload {
        device_token: "d".to_owned(),
        aps,
        custom: Vec::new(),
        options: NotificationOptions::default(),
    };
    let req = client.prepare(&payload).unwrap();
    let auth = req
        .headers
        .iter()
        .find(|(k, _)| k.as_str() == "authorization")
        .map(|(_, v)| v.clone())
        .unwrap();
    assert!(auth.starts_with("Bearer "));
    // An identical prepare reuses the cached token: same header value.
    let req2 = client.prepare(&payload).unwrap();
    let auth2 = req2
        .headers
        .iter()
        .find(|(k, _)| k.as_str() == "authorization")
        .map(|(_, v)| v.clone())
        .unwrap();
    assert_eq!(auth, auth2);
}

fn test_pkcs12(password: &str) -> Vec<u8> {
    let group =
        openssl::ec::EcGroup::from_curve_name(openssl::nid::Nid::X9_62_PRIME256V1).unwrap();
    let ec_key = openssl::ec::EcKey::generate(&group).unwrap();
    let pkey = openssl::pkey::PKey::from_ec_key(ec_key).unwrap();
    let mut name = openssl::x509::X509NameBuilder::new().unwrap();
    name.append_entry_by_text("CN", "test").unwrap();
    let name = name.build();
    let mut builder = openssl::x509::X509Builder::new().unwrap();
    builder.set_version(2).unwrap();
    builder.set_subject_name(&name).unwrap();
    builder.set_issuer_name(&name).unwrap();
    builder.set_pubkey(&pkey).unwrap();
    let not_before = openssl::asn1::Asn1Time::days_from_now(0).unwrap();
    let not_after = openssl::asn1::Asn1Time::days_from_now(1).unwrap();
    builder.set_not_before(&not_before).unwrap();
    builder.set_not_after(&not_after).unwrap();
    builder
        .sign(&pkey, openssl::hash::MessageDigest::sha256())
        .unwrap();
    let cert = builder.build();
    let mut p12 = openssl::pkcs12::Pkcs12::builder();
    p12.name("test");
    p12.pkey(&pkey);
    p12.cert(&cert);
    let p12 = p12.build2(password).unwrap();
    p12.to_der().unwrap()
}

#[test]
fn wrong_password_yields_invalid_certificate() {
    let der = test_pkcs12("correct horse");
    match CertificateIdentity::from_pkcs12(&der, "battery staple") {
        Err(Error::InvalidCertificate) => {}
        Err(other) => panic!("expected invalid certificate, got {:?}", other),
        Ok(_) => panic!("a wrong password must not parse"),
    }
}

#[test]
fn right_password_parses_certificate_identity() {
    let der = test_pkcs12("hunter2");
    let identity = CertificateIdentity::from_pkcs12(&der, "hunter2").unwrap();
    assert!(!identity.cert_der.is_empty());
    assert!(!identity.key_der.is_empty());
    let client = Client::certificate(identity, Endpoint::Sandbox, 30);
    assert!(matches!(client.auth, AuthMode::Certificate(_)));
}

#[test]
fn nul_password_yields_invalid_certificate() {
    let der = test_pkcs12("fine password");
    match CertificateIdentity::from_pkcs12(&der, "fine\u{0}password") {
        Err(Error::InvalidCertificate) => {}
        other => panic!("expected invalid certificate, got {:?}", other.is_err()),
    }
}

#[test]
fn garbage_container_yields_invalid_certificate() {
    let garbage = vec![7u8; 32];
    match CertificateIdentity::from_pkcs12(&garbage, "pw") {
        Err(Error::InvalidCertificate) => {}
        other => panic!("expected invalid certificate, got {:?}", other.is_err()),
    }
}

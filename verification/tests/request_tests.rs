use a2::endpoint::{Endpoint, GATEWAY_PORT};
use a2::error::{Error, ErrorReason, Rejection};
use a2::options::{NotificationOptions, Priority, PushType};
use a2::payload::{Aps, CustomValue, NotificationPayload};
use a2::request::build;
use a2::response::{classify, interpret, Outcome};

fn plain_payload(device_token: &str, alert: &str, options: NotificationOptions) -> NotificationPayload {
    let mut aps = Aps::new();
    aps.alert = Some(alert.to_owned());
    NotificationPayload {
        device_token: device_token.to_owned(),
        aps,
        custom: Vec::new(),
        options,
    }
}

fn header<'a>(req: &'a a2::request::WireRequest, name: &str) -> Option<&'a str> {
    req.headers
        .iter()
        .find(|(k, _)| k.as_str() == name)
        .map(|(_, v)| v.as_str())
}

#[test]
fn end_to_end_wire_request_sandbox() {
    let token = "0123456789abcdef0123456789abcdef0123456789abcdef0123456789abcdef";
    let mut aps = Aps::new();
    aps.alert = Some("hi".to_owned());
    aps.sound = Some("default".to_owned());
    aps.badge = Some(1);
    let payload = NotificationPayload {
        device_token: token.to_owned(),
        aps,
        custom: Vec::new(),
        options: NotificationOptions {
            apns_topic: Some("com.example.app".to_owned()),
            ..Default::default()
        },
    };
    let req = build(&payload, None).unwrap();
    assert_eq!(req.path, format!("/3/device/{}", token));
    assert_eq!(header(&req, "apns-topic"), Some("com.example.app"));
    assert_eq!(
        req.body,
        r#"{"aps":{"alert":"hi","sound":"default","badge":1}}"#
    );
    assert_eq!(Endpoint::Sandbox.host(), "api.sandbox.push.apple.com");
    assert_eq!(Endpoint::Production.host(), "api.push.apple.com");
    assert_eq!(GATEWAY_PORT, 443);
}

#[test]
fn builder_is_deterministic() {
    let options = NotificationOptions {
        apns_topic: Some("com.example.app".to_owned()),
        apns_id: Some("42eaf0a9-1c1a-4bc4-a1a2-3bbd6ceac3c6".to_owned()),
        apns_expiration: Some(1700000000),
        apns_priority: Priority::Throttled,
        apns_collapse_id: Some("group-1".to_owned()),
        apns_push_type: PushType::Alert,
    };
    let payload = plain_payload("abc123", "hello", options);
    let bearer = "token-value".to_owned();
    let a = build(&payload, Some(&bearer)).unwrap();
    let b = build(&payload, Some(&bearer)).unwrap();
    assert_eq!(a.path, b.path);
    assert_eq!(a.headers, b.headers);
    assert_eq!(a.body, b.body);
}

#[test]
fn header_presence_follows_options() {
    let payload = plain_payload("abc", "hello", NotificationOptions::default());
    let req = build(&payload, None).unwrap();
    assert_eq!(header(&req, "apns-push-type"), Some("alert"));
    assert_eq!(header(&req, "apns-id"), None);
    assert_eq!(header(&req, "apns-expiration"), None);
    assert_eq!(header(&req, "apns-priority"), None);
    assert_eq!(header(&req, "apns-topic"), None);
    assert_eq!(header(&req, "apns-collapse-id"), None);
    assert_eq!(header(&req, "authorization"), None);

    let options = NotificationOptions {
        apns_topic: Some("t".to_owned()),
        apns_id: Some("id-1".to_owned()),
        apns_expiration: Some(12345),
        apns_priority: Priority::Throttled,
        apns_collapse_id: Some("c".to_owned()),
        apns_push_type: PushType::Background,
    };
    let payload = plain_payload("abc", "hello", options);
    let bearer = "tok".to_owned();
    let req = build(&payload, Some(&bearer)).unwrap();
    assert_eq!(header(&req, "apns-push-type"), Some("background"));
    assert_eq!(header(&req, "apns-id"), Some("id-1"));
    assert_eq!(header(&req, "apns-expiration"), Some("12345"));
    assert_eq!(header(&req, "apns-priority"), Some("5"));
    assert_eq!(header(&req, "apns-topic"), Some("t"));
    assert_eq!(header(&req, "apns-collapse-id"), Some("c"));
    assert_eq!(header(&req, "authorization"), Some("Bearer tok"));
}

#[test]
fn topicless_background_push_is_invalid() {
    let options = NotificationOptions {
        apns_push_type: PushType::Background,
        ..Default::default()
    };
    let payload = plain_payload("abc", "hello", options);
    match build(&payload, None) {
        Err(Error::InvalidOptions(m)) => {
            assert_eq!(m, "topic is required for this push type");
        }
        other => panic!("expected invalid options, got {:?}", other),
    }
    let options = NotificationOptions {
        apns_push_type: PushType::Voip,
        ..Default::default()
    };
    let payload = plain_payload("abc", "hello", options);
    assert!(matches!(build(&payload, None), Err(Error::InvalidOptions(_))));
}

#[test]
fn body_escapes_json_strings() {
    let mut aps = Aps::new();
    aps.alert = Some("say \"hi\"\\\n\tdone\u{1}".to_owned());
    let payload = NotificationPayload {
        device_token: "d".to_owned(),
        aps,
        custom: Vec::new(),
        options: NotificationOptions::default(),
    };
    let req = build(&payload, None).unwrap();
    assert_eq!(
        req.body,
        "{\"aps\":{\"alert\":\"say \\\"hi\\\"\\\\\\n\\tdone\\u0001\"}}"
    );
}

#[test]
fn body_carries_custom_fields_and_flags() {
    let mut aps = Aps::new();
    aps.alert = Some("hi".to_owned());
    aps.content_available = true;
    aps.mutable_content = true;
    aps.category = Some("cat".to_owned());
    aps.thread_id = Some("th".to_owned());
    let payload = NotificationPayload {
        device_token: "d".to_owned(),
        aps,
        custom: vec![
            ("count".to_owned(), CustomValue::Number(7)),
            ("label".to_owned(), CustomValue::Text("x".to_owned())),
            ("flag".to_owned(), CustomValue::Flag(true)),
        ],
        options: NotificationOptions::default(),
    };
    let req = build(&payload, None).unwrap();
    let expected = "{\"aps\":{\"alert\":\"hi\",\"content-available\":1,\"mutable-content\":1,\"category\":\"cat\",\"thread-id\":\"th\"},\"count\":7,\"label\":\"x\",\"flag\":true}";
    assert_eq!(req.body, expected);
}

#[test]
fn success_response_carries_id() {
    let id = "abc-123".to_owned();
    let outcome = interpret(200, Some(&id), None);
    assert_eq!(
        outcome,
        Outcome::Success {
            apns_id: Some("abc-123".to_owned())
        }
    );
}

#[test]
fn unregistered_rejection_parses() {
    let body = br#"{"reason":"Unregistered","timestamp":1700000000000}"#.to_vec();
    let outcome = interpret(410, None, Some(&body));
    assert_eq!(
        outcome,
        Outcome::Rejection(Rejection {
            reason: ErrorReason::Unregistered,
            timestamp: Some(1700000000000),
        })
    );
}

#[test]
fn unparseable_body_degrades_to_unknown() {
    let body = b"this is not json".to_vec();
    let outcome = interpret(400, None, Some(&body));
    assert_eq!(
        outcome,
        Outcome::Rejection(Rejection {
            reason: ErrorReason::Unknown,
            timestamp: None,
        })
    );
}

#[test]
fn classify_handles_absent_body() {
    let outcome = classify(500, None, None);
    assert_eq!(
        outcome,
        Outcome::Rejection(Rejection {
            reason: ErrorReason::Unknown,
            timestamp: None,
        })
    );
    let outcome = classify(403, None, Some(("ExpiredProviderToken".to_owned(), None)));
    assert_eq!(
        outcome,
        Outcome::Rejection(Rejection {
            reason: ErrorReason::ExpiredProviderToken,
            timestamp: None,
        })
    );
}

#[test]
fn rejection_folds_into_response_error() {
    let rejection = Rejection {
        reason: ErrorReason::BadDeviceToken,
        timestamp: None,
    };
    let outcome = Outcome::Rejection(rejection.clone());
    assert_eq!(outcome.into_result(), Err(Error::ResponseError(rejection)));
    let ok = Outcome::Success {
        apns_id: Some("x".to_owned()),
    };
    assert_eq!(ok.into_result(), Ok(Some("x".to_owned())));
}

#[test]
fn reason_tokens_round_trip() {
    let reasons = vec![
        ErrorReason::BadCollapseId,
        ErrorReason::BadDeviceToken,
        ErrorReason::BadExpirationDate,
        ErrorReason::BadMessageId,
        ErrorReason::BadPriority,
        ErrorReason::BadTopic,
        ErrorReason::DeviceTokenNotForTopic,
        ErrorReason::DuplicateHeaders,
        ErrorReason::IdleTimeout,
        ErrorReason::MissingDeviceToken,
        ErrorReason::MissingTopic,
        ErrorReason::PayloadEmpty,
        ErrorReason::TopicDisallowed,
        ErrorReason::BadCertificate,
        ErrorReason::BadCertificateEnvironment,
        ErrorReason::ExpiredProviderToken,
        ErrorReason::Forbidden,
        ErrorReason::InvalidProviderToken,
        ErrorReason::MissingProviderToken,
        ErrorReason::BadPath,
        ErrorReason::MethodNotAllowed,
        ErrorReason::Unregistered,
        ErrorReason::PayloadTooLarge,
        ErrorReason::TooManyProviderTokenUpdates,
        ErrorReason::TooManyRequests,
        ErrorReason::InternalServerError,
        ErrorReason::ServiceUnavailable,
        ErrorReason::Shutdown,
        ErrorReason::Unknown,
    ];
    for reason in reasons {
        assert_eq!(ErrorReason::from_reason_str(reason.as_str()), reason);
    }
    assert_eq!(
        ErrorReason::from_reason_str("SomethingNew"),
        ErrorReason::Unknown
    );
}

#[test]
fn text_helpers_format_exactly() {
    assert_eq!(a2::text::u64_to_string(0), "0");
    assert_eq!(a2::text::u64_to_string(1234567890), "1234567890");
    assert_eq!(a2::text::u64_to_string(u64::MAX), "18446744073709551615");
    assert_eq!(a2::b64::b64url_encode(&vec![77, 97, 110]), "TWFu");
    assert_eq!(a2::b64::b64url_encode(&vec![77, 97]), "TWE");
    assert_eq!(a2::b64::b64url_encode(&vec![77]), "TQ");
    assert_eq!(a2::b64::b64url_encode(&vec![0xfb, 0xff]), "-_8");
    assert_eq!(a2::b64::b64url_encode(&Vec::new()), "");
    assert!(a2::text::str_eq("same", "same"));
    assert!(!a2::text::str_eq("same", "sane"));
    assert_eq!(
        Error::RequestTimeout(3).message(),
        "the request timed out"
    );
}

use hmac::{Hmac, Mac};
use sha2::Sha256;
use stripe::error::WebhookError;
use stripe::verify_signature;

fn sign(secret: &str, msg: &str) -> String {
    let mut mac = Hmac::<Sha256>::new_from_slice(secret.as_bytes())
        .unwrap_or_else(|_| panic!("any key length is accepted"));
    mac.update(msg.as_bytes());
    let tag = mac.finalize().into_bytes();
    let mut out = String::new();
    for b in tag {
        out.push_str(&format!("{:02x}", b));
    }
    out
}

#[test]
fn valid_signature_within_tolerance_verifies() {
    let payload = r#"{"id": "evt_1", "object": "event"}"#;
    let t: i64 = 1600000000;
    let sig = sign("test_signing_secret", &format!("{}.{}", t, payload));
    let header = format!("t={},v1={}", t, sig);
    assert!(verify_signature(payload, &header, "test_signing_secret", t + 100, 300).is_ok());
}

#[test]
fn extra_schemes_and_stale_signatures_are_tolerated() {
    let payload = "p";
    let t: i64 = 1600000000;
    let good = sign("s", &format!("{}.{}", t, payload));
    let header = format!("t={},v0=junk,v1=deadbeef,v1={}", t, good);
    assert!(verify_signature(payload, &header, "s", t, 300).is_ok());
}

#[test]
fn altered_payload_fails_verification() {
    let payload = r#"{"id": "evt_1"}"#;
    let t: i64 = 1600000000;
    let sig = sign("test_signing_secret", &format!("{}.{}", t, payload));
    let header = format!("t={},v1={}", t, sig);
    let altered = r#"{"id": "evt_2"}"#;
    assert!(matches!(
        verify_signature(altered, &header, "test_signing_secret", t, 300),
        Err(WebhookError::BadSignature)
    ));
}

#[test]
fn wrong_secret_fails_verification() {
    let payload = "p";
    let t: i64 = 1600000000;
    let sig = sign("one_secret", &format!("{}.{}", t, payload));
    let header = format!("t={},v1={}", t, sig);
    assert!(matches!(
        verify_signature(payload, &header, "another_secret", t, 300),
        Err(WebhookError::BadSignature)
    ));
}

#[test]
fn timestamp_outside_tolerance_fails_verification() {
    let payload = "p";
    let t: i64 = 1600000000;
    let sig = sign("s", &format!("{}.{}", t, payload));
    let header = format!("t={},v1={}", t, sig);
    assert!(matches!(
        verify_signature(payload, &header, "s", t + 301, 300),
        Err(WebhookError::BadTimestamp)
    ));
    assert!(verify_signature(payload, &header, "s", t + 300, 300).is_ok());
}

#[test]
fn unreadable_headers_fail_closed() {
    assert!(matches!(
        verify_signature("p", "garbage", "s", 0, 300),
        Err(WebhookError::BadHeader)
    ));
    assert!(matches!(
        verify_signature("p", "", "s", 0, 300),
        Err(WebhookError::BadHeader)
    ));
    assert!(matches!(
        verify_signature("p", "v1=abc", "s", 0, 300),
        Err(WebhookError::BadHeader)
    ));
    assert!(matches!(
        verify_signature("p", "t=notanumber,v1=abc", "s", 0, 300),
        Err(WebhookError::BadHeader)
    ));
}

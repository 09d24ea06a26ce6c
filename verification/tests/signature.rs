use eventsub::signature::{signature_for, verify};

const SECRET: &str = "secret123";
const MSG_ID: &str = "msg-1";
const TIMESTAMP: &str = "2024-01-01T00:00:00Z";
const BODY: &str = "{\"subscription\":{\"type\":\"stream.online\"}}";

// Computed independently: HMAC-SHA256 of msg_id ++ timestamp ++ body under
// the secret, hex-encoded and prefixed.
const KNOWN_SIGNATURE: &str = "sha256=efaf5071663c91d03f40e71557efcf560d7a9084328e9ddc1904cac647dc4be7";

#[test]
fn signature_for_matches_known_vector() {
    assert_eq!(signature_for(SECRET, MSG_ID, TIMESTAMP, BODY), KNOWN_SIGNATURE);
}

#[test]
fn second_known_vector() {
    assert_eq!(
        signature_for("key", "id", "ts", "{}"),
        "sha256=451aa98a7781dd9f53e831e239f366f708b38ac286777d6ebcbc0fbf7cce004c"
    );
}

#[test]
fn correct_signature_verifies() {
    let sig = signature_for(SECRET, MSG_ID, TIMESTAMP, BODY);
    assert!(verify(Some(&sig), Some(MSG_ID), Some(TIMESTAMP), BODY, SECRET));
}

#[test]
fn flipped_signature_byte_fails() {
    let sig = signature_for(SECRET, MSG_ID, TIMESTAMP, BODY);
    let mut bytes = sig.into_bytes();
    for i in 0..bytes.len() {
        bytes[i] ^= 1;
        let altered = String::from_utf8(bytes.clone()).unwrap();
        assert!(!verify(Some(&altered), Some(MSG_ID), Some(TIMESTAMP), BODY, SECRET));
        bytes[i] ^= 1;
    }
}

#[test]
fn flipped_message_id_byte_fails() {
    let sig = signature_for(SECRET, MSG_ID, TIMESTAMP, BODY);
    assert!(!verify(Some(&sig), Some("msg-2"), Some(TIMESTAMP), BODY, SECRET));
}

#[test]
fn flipped_timestamp_byte_fails() {
    let sig = signature_for(SECRET, MSG_ID, TIMESTAMP, BODY);
    assert!(!verify(Some(&sig), Some(MSG_ID), Some("2024-01-01T00:00:01Z"), BODY, SECRET));
}

#[test]
fn flipped_body_byte_fails() {
    let sig = signature_for(SECRET, MSG_ID, TIMESTAMP, BODY);
    let altered = "{\"subscription\":{\"type\":\"stream.onlinf\"}}";
    assert!(!verify(Some(&sig), Some(MSG_ID), Some(TIMESTAMP), altered, SECRET));
}

#[test]
fn wrong_secret_fails() {
    let sig = signature_for(SECRET, MSG_ID, TIMESTAMP, BODY);
    assert!(!verify(Some(&sig), Some(MSG_ID), Some(TIMESTAMP), BODY, "secret124"));
}

#[test]
fn missing_signature_header_fails_closed() {
    assert!(!verify(None, Some(MSG_ID), Some(TIMESTAMP), BODY, SECRET));
}

#[test]
fn missing_message_id_header_fails_closed() {
    let sig = signature_for(SECRET, MSG_ID, TIMESTAMP, BODY);
    assert!(!verify(Some(&sig), None, Some(TIMESTAMP), BODY, SECRET));
}

#[test]
fn missing_timestamp_header_fails_closed() {
    let sig = signature_for(SECRET, MSG_ID, TIMESTAMP, BODY);
    assert!(!verify(Some(&sig), Some(MSG_ID), None, BODY, SECRET));
}

#[test]
fn empty_header_values_fail_closed() {
    let sig = signature_for(SECRET, MSG_ID, TIMESTAMP, BODY);
    assert!(!verify(Some(""), Some(MSG_ID), Some(TIMESTAMP), BODY, SECRET));
    assert!(!verify(Some(&sig), Some(""), Some(TIMESTAMP), BODY, SECRET));
    assert!(!verify(Some(&sig), Some(MSG_ID), Some(""), BODY, SECRET));
}

#[test]
fn signature_lengths_differ_fails() {
    let sig = signature_for(SECRET, MSG_ID, TIMESTAMP, BODY);
    let truncated = &sig[..sig.len() - 1];
    assert!(!verify(Some(truncated), Some(MSG_ID), Some(TIMESTAMP), BODY, SECRET));
}

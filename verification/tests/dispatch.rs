use eventsub::dispatch::{dispatch, handle_online_event, DispatchOutcome, InboundHeaders,
    OnlineEvent, WebhookResponse};
use eventsub::signature::signature_for;
use eventsub::stream::Stream;

const SECRET: &str = "s3cr3t";
const MSG_ID: &str = "e76c6bd4-55c9-4987-8304-da1588d8988b";
const TIMESTAMP: &str = "2024-03-16T10:11:12.123Z";

fn signed_headers(message_type: &str, body: &str) -> InboundHeaders {
    InboundHeaders {
        signature: Some(signature_for(SECRET, MSG_ID, TIMESTAMP, body)),
        message_id: Some(MSG_ID.to_string()),
        timestamp: Some(TIMESTAMP.to_string()),
        message_type: Some(message_type.to_string()),
    }
}

fn sample_stream() -> Stream {
    Stream {
        id: "40952121085".to_string(),
        user_id: "101051819".to_string(),
        user_login: "streamer".to_string(),
        user_name: "Streamer".to_string(),
        game_id: "494131".to_string(),
        game_name: "Little Nightmares".to_string(),
        stream_type: "live".to_string(),
        title: "Spooky game time".to_string(),
        viewer_count: 78365,
        started_at: "2024-03-16T10:00:00Z".to_string(),
        language: "fr".to_string(),
        thumbnail_url: "https://example.invalid/thumb.jpg".to_string(),
    }
}

#[test]
fn bad_signature_is_forbidden() {
    let body = "{\"challenge\":\"abc123\"}";
    let mut headers = signed_headers("webhook_callback_verification", body);
    headers.signature = Some("sha256=0000".to_string());
    match dispatch(&headers, body, SECRET) {
        DispatchOutcome::Reply(r) => {
            assert!(matches!(r, WebhookResponse::Forbidden));
            assert_eq!(r.status_code(), 403);
        }
        _ => panic!("expected a reply"),
    }
}

#[test]
fn challenge_is_echoed_verbatim() {
    let body = "{\"challenge\":\"abc123\"}";
    let headers = signed_headers("webhook_callback_verification", body);
    match dispatch(&headers, body, SECRET) {
        DispatchOutcome::Reply(r) => {
            assert_eq!(r.status_code(), 200);
            assert_eq!(r.body_text(), "abc123");
        }
        _ => panic!("expected a reply"),
    }
}

#[test]
fn challenge_without_field_is_a_payload_error() {
    let body = "{\"not_challenge\":true}";
    let headers = signed_headers("webhook_callback_verification", body);
    match dispatch(&headers, body, SECRET) {
        DispatchOutcome::Reply(r) => {
            assert!(matches!(r, WebhookResponse::BadPayload));
            assert_eq!(r.status_code(), 400);
        }
        _ => panic!("expected a reply"),
    }
}

#[test]
fn stream_online_is_handed_on() {
    let body = "{\"subscription\":{\"type\":\"stream.online\"}}";
    let headers = signed_headers("notification", body);
    assert!(matches!(dispatch(&headers, body, SECRET), DispatchOutcome::HandleOnline));
}

#[test]
fn stream_offline_is_acknowledged() {
    let body = "{\"subscription\":{\"type\":\"stream.offline\"}}";
    let headers = signed_headers("notification", body);
    match dispatch(&headers, body, SECRET) {
        DispatchOutcome::Reply(r) => {
            assert!(matches!(r, WebhookResponse::NoContent));
            assert_eq!(r.status_code(), 204);
            assert_eq!(r.body_text(), "");
        }
        _ => panic!("expected a reply"),
    }
}

#[test]
fn unrecognized_type_is_reported_with_the_type() {
    let body = "{\"subscription\":{\"type\":\"some.other.event\"}}";
    let headers = signed_headers("notification", body);
    match dispatch(&headers, body, SECRET) {
        DispatchOutcome::Reply(r) => {
            assert_eq!(r.status_code(), 400);
            assert!(r.body_text().contains("some.other.event"));
        }
        _ => panic!("expected a reply"),
    }
}

#[test]
fn malformed_json_is_a_payload_error() {
    let body = "{not json";
    let headers = signed_headers("notification", body);
    match dispatch(&headers, body, SECRET) {
        DispatchOutcome::Reply(r) => {
            assert!(matches!(r, WebhookResponse::BadPayload));
            assert_eq!(r.status_code(), 400);
        }
        _ => panic!("expected a reply: malformed JSON makes no downstream call"),
    }
}

#[test]
fn missing_subscription_type_is_a_payload_error() {
    let body = "{\"subscription\":{}}";
    let headers = signed_headers("notification", body);
    match dispatch(&headers, body, SECRET) {
        DispatchOutcome::Reply(r) => assert!(matches!(r, WebhookResponse::BadPayload)),
        _ => panic!("expected a reply"),
    }
}

#[test]
fn missing_message_type_header_goes_to_classification() {
    let body = "{\"subscription\":{\"type\":\"stream.offline\"}}";
    let mut headers = signed_headers("notification", body);
    headers.message_type = None;
    match dispatch(&headers, body, SECRET) {
        DispatchOutcome::Reply(r) => assert!(matches!(r, WebhookResponse::NoContent)),
        _ => panic!("expected a reply"),
    }
}

#[test]
fn live_snapshot_produces_notification_and_no_content() {
    let outcome = handle_online_event(OnlineEvent::Live(sample_stream()));
    let message = outcome.notification.expect("a live snapshot is announced");
    assert!(message.contains("Streamer"));
    assert!(message.contains("Spooky game time"));
    assert!(message.contains("Little Nightmares"));
    assert!(message.contains("78365"));
    assert!(matches!(outcome.response, WebhookResponse::NoContent));
    assert_eq!(outcome.response.status_code(), 204);
}

#[test]
fn credential_failure_is_a_server_error() {
    let outcome = handle_online_event(OnlineEvent::CredentialFailed);
    assert!(outcome.notification.is_none());
    assert_eq!(outcome.response.status_code(), 500);
}

#[test]
fn query_failure_is_a_server_error() {
    let outcome = handle_online_event(OnlineEvent::QueryFailed);
    assert!(outcome.notification.is_none());
    assert_eq!(outcome.response.status_code(), 500);
}

#[test]
fn not_live_still_acknowledges() {
    let outcome = handle_online_event(OnlineEvent::NotLive);
    assert!(outcome.notification.is_none());
    assert_eq!(outcome.response.status_code(), 204);
}

//! The authenticated entry point for one inbound webhook.
//!
//! One pass per request: the signature is checked first and a failure is
//! terminal; a verification-challenge message echoes its challenge string
//! back; any other message is classified by its `subscription.type` — a
//! "went live" event is handed on for online handling, a "went offline"
//! event and an unrecognized type are answered directly; a body that cannot
//! be read is terminal at every stage. Online handling performs at most one
//! credential fetch and one stream query; a failure of either is caught here
//! and answered as a server error, while a failed notification never fails
//! the acknowledgment.

use crate::payload::{challenge_field_of, extract_challenge, extract_subscription_type,
    subscription_type_of};
use crate::signature::{verify, verify_ok, view_opt_str};
use crate::stream::{live_message, live_message_of, occurs_in, Stream};
use crate::text::view_opt_string;
use vstd::prelude::*;
use vstd::string::StringExecFns;

verus! {

/// The header values one inbound webhook arrives with; a header that the
/// request lacks is `None`.
pub struct InboundHeaders {
    pub signature: Option<String>,
    pub message_id: Option<String>,
    pub timestamp: Option<String>,
    pub message_type: Option<String>,
}

/// The mathematical content of the headers.
pub struct HeadersModel {
    pub signature: Option<Seq<char>>,
    pub message_id: Option<Seq<char>>,
    pub timestamp: Option<Seq<char>>,
    pub message_type: Option<Seq<char>>,
}

impl View for InboundHeaders {
    type V = HeadersModel;

    open spec fn view(&self) -> HeadersModel {
        HeadersModel {
            signature: view_opt_string(self.signature),
            message_id: view_opt_string(self.message_id),
            timestamp: view_opt_string(self.timestamp),
            message_type: view_opt_string(self.message_type),
        }
    }
}

/// What the receiver answers to one webhook.
pub enum WebhookResponse {
    /// The signature did not verify; the request is rejected unread.
    Forbidden,
    /// A verification challenge, echoed back verbatim with success.
    ChallengeOk(String),
    /// A handled event; nothing to say beyond the acknowledgment.
    NoContent,
    /// A subscription type this receiver does not handle, kept for
    /// diagnostics.
    UnhandledEvent(String),
    /// A body that could not be read as the expected JSON shape.
    BadPayload,
    /// A downstream credential or query failure while handling a "went
    /// live" event.
    ServerError,
}

/// The mathematical content of a response.
pub enum ResponseModel {
    Forbidden,
    ChallengeOk(Seq<char>),
    NoContent,
    UnhandledEvent(Seq<char>),
    BadPayload,
    ServerError,
}

impl View for WebhookResponse {
    type V = ResponseModel;

    open spec fn view(&self) -> ResponseModel {
        match self {
            WebhookResponse::Forbidden => ResponseModel::Forbidden,
            WebhookResponse::ChallengeOk(c) => ResponseModel::ChallengeOk(c@),
            WebhookResponse::NoContent => ResponseModel::NoContent,
            WebhookResponse::UnhandledEvent(t) => ResponseModel::UnhandledEvent(t@),
            WebhookResponse::BadPayload => ResponseModel::BadPayload,
            WebhookResponse::ServerError => ResponseModel::ServerError,
        }
    }
}

/// The HTTP status a response is sent with.
pub open spec fn status_of(m: ResponseModel) -> u16 {
    match m {
        ResponseModel::Forbidden => 403,
        ResponseModel::ChallengeOk(_) => 200,
        ResponseModel::NoContent => 204,
        ResponseModel::UnhandledEvent(_) => 400,
        ResponseModel::BadPayload => 400,
        ResponseModel::ServerError => 500,
    }
}

/// The body a response is sent with: the challenge verbatim on the
/// handshake, the unrecognized type for diagnostics, nothing otherwise.
pub open spec fn body_text_of(m: ResponseModel) -> Seq<char> {
    match m {
        ResponseModel::ChallengeOk(c) => c,
        ResponseModel::UnhandledEvent(t) => "unhandled event type: "@ + t,
        _ => Seq::empty(),
    }
}

impl WebhookResponse {
    /// The HTTP status this response is sent with.
    pub fn status_code(&self) -> (r: u16)
        ensures
            r == status_of(self@),
    {
        match self {
            WebhookResponse::Forbidden => 403,
            WebhookResponse::ChallengeOk(_) => 200,
            WebhookResponse::NoContent => 204,
            WebhookResponse::UnhandledEvent(_) => 400,
            WebhookResponse::BadPayload => 400,
            WebhookResponse::ServerError => 500,
        }
    }

    /// The body this response is sent with.
    pub fn body_text(&self) -> (r: String)
        ensures
            r@ == body_text_of(self@),
    {
        match self {
            WebhookResponse::ChallengeOk(c) => c.clone(),
            WebhookResponse::UnhandledEvent(t) => {
                let mut out = "unhandled event type: ".to_owned();
                out.append(t.as_str());
                out
            },
            _ => String::new(),
        }
    }
}

/// Where one request stands after authentication and classification.
pub enum DispatchOutcome {
    /// The request is answered directly; nothing downstream is called.
    Reply(WebhookResponse),
    /// A "went live" event: the caller fetches a credential, queries the
    /// broadcaster's snapshot and hands the result to `handle_online_event`.
    HandleOnline,
}

/// The mathematical content of an outcome.
pub enum OutcomeModel {
    Reply(ResponseModel),
    HandleOnline,
}

impl View for DispatchOutcome {
    type V = OutcomeModel;

    open spec fn view(&self) -> OutcomeModel {
        match self {
            DispatchOutcome::Reply(r) => OutcomeModel::Reply(r@),
            DispatchOutcome::HandleOnline => OutcomeModel::HandleOnline,
        }
    }
}

/// The outcome of one request as a function of its headers, body and the
/// shared secret: rejected unread when the signature fails; the challenge
/// echoed on the verification handshake; a "went live" event handed on; a
/// "went offline" event acknowledged; an unrecognized type or an unreadable
/// body answered with a client error.
pub open spec fn dispatch_model(h: HeadersModel, body: Seq<char>, secret: Seq<char>) -> OutcomeModel {
    if !verify_ok(h.signature, h.message_id, h.timestamp, body, secret) {
        OutcomeModel::Reply(ResponseModel::Forbidden)
    } else if h.message_type == Some("webhook_callback_verification"@) {
        match challenge_field_of(body) {
            Some(c) => OutcomeModel::Reply(ResponseModel::ChallengeOk(c)),
            None => OutcomeModel::Reply(ResponseModel::BadPayload),
        }
    } else {
        match subscription_type_of(body) {
            Some(t) => if t == "stream.online"@ {
                OutcomeModel::HandleOnline
            } else if t == "stream.offline"@ {
                OutcomeModel::Reply(ResponseModel::NoContent)
            } else {
                OutcomeModel::Reply(ResponseModel::UnhandledEvent(t))
            },
            None => OutcomeModel::Reply(ResponseModel::BadPayload),
        }
    }
}

/// Authenticates and classifies one inbound webhook. Pure besides the
/// computation itself: the caller performs whatever the outcome asks.
pub fn dispatch(headers: &InboundHeaders, body: &str, secret: &str) -> (r: DispatchOutcome)
    ensures
        r@ == dispatch_model(headers@, body@, secret@),
{
    let sig: Option<&str> = match &headers.signature {
        Some(s) => Some(s.as_str()),
        None => None,
    };
    let id: Option<&str> = match &headers.message_id {
        Some(s) => Some(s.as_str()),
        None => None,
    };
    let ts: Option<&str> = match &headers.timestamp {
        Some(s) => Some(s.as_str()),
        None => None,
    };
    if !verify(sig, id, ts, body, secret) {
        return DispatchOutcome::Reply(WebhookResponse::Forbidden);
    }
    let is_challenge = match &headers.message_type {
        Some(mt) => {
            let want = "webhook_callback_verification".to_owned();
            *mt == want
        },
        None => false,
    };
    if is_challenge {
        match extract_challenge(body) {
            Some(c) => DispatchOutcome::Reply(WebhookResponse::ChallengeOk(c)),
            None => DispatchOutcome::Reply(WebhookResponse::BadPayload),
        }
    } else {
        match extract_subscription_type(body) {
            Some(t) => {
                let online = "stream.online".to_owned();
                let offline = "stream.offline".to_owned();
                if t == online {
                    DispatchOutcome::HandleOnline
                } else if t == offline {
                    DispatchOutcome::Reply(WebhookResponse::NoContent)
                } else {
                    DispatchOutcome::Reply(WebhookResponse::UnhandledEvent(t))
                }
            },
            None => DispatchOutcome::Reply(WebhookResponse::BadPayload),
        }
    }
}

/// What online handling ran into after the event was classified: the
/// credential fetch failed, the snapshot query failed, the broadcaster was
/// not live, or a snapshot of the live broadcast arrived.
pub enum OnlineEvent {
    CredentialFailed,
    QueryFailed,
    NotLive,
    Live(Stream),
}

/// The message to hand to the notification sink, if any, and the response
/// the webhook is answered with.
pub struct OnlineOutcome {
    pub notification: Option<String>,
    pub response: WebhookResponse,
}

/// The response owed for each way online handling can end: a failed
/// credential fetch and a failed snapshot query are server errors, caught at
/// this boundary rather than crashing the process; a broadcaster not live is
/// a successful query and, like a live snapshot, acknowledges the webhook
/// with no content — as does any failure to deliver the notification.
pub open spec fn online_response_model(event: OnlineEvent) -> ResponseModel {
    match event {
        OnlineEvent::CredentialFailed => ResponseModel::ServerError,
        OnlineEvent::QueryFailed => ResponseModel::ServerError,
        OnlineEvent::NotLive => ResponseModel::NoContent,
        OnlineEvent::Live(_) => ResponseModel::NoContent,
    }
}

/// The status line announced for the event, when one is owed: only a live
/// snapshot produces one.
pub open spec fn online_notification_model(event: OnlineEvent) -> Option<Seq<char>> {
    match event {
        OnlineEvent::Live(s) => Some(live_message_of(s@)),
        _ => None,
    }
}

/// Turns what online handling ran into, into the notification to send and
/// the response to answer with. The response never depends on whether the
/// notification can be delivered: delivery failure is logged by the caller
/// and swallowed.
pub fn handle_online_event(event: OnlineEvent) -> (r: OnlineOutcome)
    ensures
        view_opt_string(r.notification) == online_notification_model(event),
        r.response@ == online_response_model(event),
{
    match event {
        OnlineEvent::CredentialFailed => OnlineOutcome {
            notification: None,
            response: WebhookResponse::ServerError,
        },
        OnlineEvent::QueryFailed => OnlineOutcome {
            notification: None,
            response: WebhookResponse::ServerError,
        },
        OnlineEvent::NotLive => OnlineOutcome {
            notification: None,
            response: WebhookResponse::NoContent,
        },
        OnlineEvent::Live(s) => OnlineOutcome {
            notification: Some(live_message(&s)),
            response: WebhookResponse::NoContent,
        },
    }
}

/// The verification handshake echoes the challenge verbatim: on a verified
/// challenge message whose body carries a challenge string, the reply's body
/// is exactly that string, with the success status.
pub proof fn lemma_challenge_is_echoed(h: HeadersModel, body: Seq<char>, secret: Seq<char>)
    requires
        verify_ok(h.signature, h.message_id, h.timestamp, body, secret),
        h.message_type == Some("webhook_callback_verification"@),
        challenge_field_of(body) is Some,
    ensures
        dispatch_model(h, body, secret) matches OutcomeModel::Reply(r) && body_text_of(r)
            == challenge_field_of(body)->0 && status_of(r) == 200,
{
}

/// An unrecognized subscription type is answered with a client error whose
/// body carries the type verbatim for diagnostics.
pub proof fn lemma_unrecognized_type_is_reported(h: HeadersModel, body: Seq<char>, secret: Seq<char>)
    requires
        verify_ok(h.signature, h.message_id, h.timestamp, body, secret),
        h.message_type != Some("webhook_callback_verification"@),
        subscription_type_of(body) matches Some(t) && t != "stream.online"@ && t
            != "stream.offline"@,
    ensures
        dispatch_model(h, body, secret) matches OutcomeModel::Reply(r) && status_of(r) == 400
            && occurs_in(body_text_of(r), subscription_type_of(body)->0),
{
    let t = subscription_type_of(body)->0;
    let r = ResponseModel::UnhandledEvent(t);
    let prefix = "unhandled event type: "@;
    assert(body_text_of(r).subrange(prefix.len() as int, prefix.len() as int + t.len()) =~= t);
}

/// A body that can be read neither as a challenge handshake nor as an event
/// envelope is terminal: the request is answered with a client error (or was
/// already rejected on its signature) and nothing downstream is called.
pub proof fn lemma_malformed_body_is_terminal(h: HeadersModel, body: Seq<char>, secret: Seq<char>)
    requires
        challenge_field_of(body) is None,
        subscription_type_of(body) is None,
    ensures
        dispatch_model(h, body, secret) == OutcomeModel::Reply(ResponseModel::BadPayload)
            || dispatch_model(h, body, secret) == OutcomeModel::Reply(ResponseModel::Forbidden),
{
}

/// Only a "went live" event under a verified signature reaches downstream:
/// every outbound call is gated on authentication and on the exact
/// subscription type.
pub proof fn lemma_downstream_needs_authentic_online_event(
    h: HeadersModel,
    body: Seq<char>,
    secret: Seq<char>,
)
    requires
        dispatch_model(h, body, secret) is HandleOnline,
    ensures
        verify_ok(h.signature, h.message_id, h.timestamp, body, secret),
        subscription_type_of(body) == Some("stream.online"@),
{
}

} // verus!

//! Verified core of a streaming-platform webhook receiver.
//!
//! Inbound webhooks are authenticated by an HMAC-SHA256 signature, classified
//! by their subscription type, and routed to a response; outbound calls made
//! while handling a "went live" event are backed by a cached bearer credential.
//! The modules hold the logic and its contracts; network transport stays with
//! the embedding application.

pub mod dispatch;
pub mod payload;
pub mod signature;
pub mod stream;
pub mod text;
pub mod token;

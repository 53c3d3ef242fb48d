//! An event bus: typed events, a dispatch table keyed by event type, a JSON
//! envelope codec, and the decision logic of a broker-backed consumer with a
//! retry / dead-letter escalation protocol.
pub mod channel;
pub mod consumer;
pub mod dispatch;
pub mod envelope;
pub mod error;
pub mod event;
pub mod json;
pub mod publisher;
pub mod retry;
pub mod router;
pub mod subscriber;

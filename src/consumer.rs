//! The decisions of the broker consumer: how a delivery's payload is decoded,
//! and what happens to the delivery after its handler ran.
use vstd::prelude::*;

use serde_json::Value;

use crate::envelope::{
    decode_error, decode_value, decoded_name, is_decoded_attributes, EventDeserializable,
    EventDeserializer,
};
use crate::error::DeserializeError;
use crate::json::{parse_json, parsed_json};
use crate::retry::{next_count, target_exchange_of, Escalation, Escalator};
use crate::subscriber::SubscriberError;

verus! {

/// The text that bytes hold as UTF-8; `None` where they are not UTF-8.
pub uninterp spec fn utf8_text(b: Seq<u8>) -> Option<Seq<char>>;

/// Relies on std::str::from_utf8: the text of UTF-8 bytes.
#[verifier::external_body]
fn text_of(payload: &[u8]) -> (r: Option<String>)
    ensures
        r matches Some(s) ==> utf8_text(payload@) == Some(s@),
        r is None ==> utf8_text(payload@) is None,
{
    std::str::from_utf8(payload).ok().map(|s| s.to_string())
}

/// Decodes a delivery's payload into its envelope: UTF-8 text holding an
/// envelope value. Bytes that are not UTF-8 or not JSON are
/// `UnableToDeserializeEvent`.
pub fn decode_payload(payload: &[u8]) -> (r: Result<EventDeserializable<Value>, DeserializeError>)
    ensures
        utf8_text(payload@) is None ==> (r matches Err(e) && e
            == DeserializeError::UnableToDeserializeEvent),
        utf8_text(payload@) matches Some(t) ==> match parsed_json(t) {
            None => r matches Err(e) && e == DeserializeError::UnableToDeserializeEvent,
            Some(v) => match decode_error(v) {
                Some(e) => r matches Err(f) && f == e,
                None => r matches Ok(d) && d.data.event_name@ == decoded_name(v)
                    && is_decoded_attributes(v, d.data.attributes),
            },
        },
{
    let text = match text_of(payload) {
        Some(t) => t,
        None => {
            return Err(DeserializeError::UnableToDeserializeEvent);
        },
    };
    match parse_json(text.as_str()) {
        Some(v) => decode_value(v),
        None => Err(DeserializeError::UnableToDeserializeEvent),
    }
}

/// Decodes a delivery's payload with `deserializer`: bytes that are not UTF-8
/// are `UnableToDeserializeEvent`; their text goes to the deserializer as it
/// is.
pub fn decode_payload_with<D: EventDeserializer>(
    deserializer: &D,
    payload: &[u8],
) -> (r: Result<EventDeserializable<Value>, DeserializeError>)
    ensures
        utf8_text(payload@) is None ==> (r matches Err(e) && e
            == DeserializeError::UnableToDeserializeEvent),
{
    match text_of(payload) {
        Some(text) => deserializer.deserialize::<Value>(text),
        None => Err(DeserializeError::UnableToDeserializeEvent),
    }
}

/// What the consumer does with one delivery.
#[derive(Debug, PartialEq, Eq, Structural, Clone, Copy)]
pub enum DeliveryAction {
    /// The payload could not be decoded: it is logged and left unacknowledged.
    Skip,
    /// Handled, or failed for good: acknowledge it.
    Ack,
    /// Failed in a retryable way: escalate a copy, then acknowledge it.
    EscalateThenAck,
}

/// The action for a delivery whose handler reported `outcome`; `None` where
/// the payload could not be decoded.
pub fn delivery_action(outcome: Option<&Result<(), SubscriberError>>) -> (r: DeliveryAction)
    ensures
        outcome is None ==> r == DeliveryAction::Skip,
        outcome matches Some(o) ==> (o is Ok ==> r == DeliveryAction::Ack),
        outcome matches Some(o) ==> (o matches Err(SubscriberError::UnrecoverableError) ==> r
            == DeliveryAction::Ack),
        outcome matches Some(o) ==> (o matches Err(SubscriberError::Inner(_)) ==> r
            == DeliveryAction::EscalateThenAck),
{
    match outcome {
        None => DeliveryAction::Skip,
        Some(Ok(())) => DeliveryAction::Ack,
        Some(Err(SubscriberError::UnrecoverableError)) => DeliveryAction::Ack,
        Some(Err(SubscriberError::Inner(_))) => DeliveryAction::EscalateThenAck,
    }
}

/// The complete handling of one delivery: whether it is acknowledged, and
/// the escalation to republish first, if any.
pub struct DeliveryPlan {
    pub acknowledge: bool,
    pub republish: Option<Escalation>,
}

/// Plans the handling of a delivery that came from `exchange` through
/// `queue` with `redelivery_count` header `header`, after its handler
/// reported `outcome` (`None`: the payload could not be decoded).
pub fn plan_delivery(
    escalator: &Escalator,
    exchange: &str,
    queue: &str,
    header: Option<i64>,
    outcome: Option<&Result<(), SubscriberError>>,
) -> (r: DeliveryPlan)
    requires
        header matches Some(c) ==> c < i64::MAX,
    ensures
        r.acknowledge == (outcome is Some),
        r.republish is Some <==> (outcome matches Some(o) && o matches Err(
            SubscriberError::Inner(_),
        )),
        r.republish matches Some(e) ==> e.redelivery_count == next_count(header) && e.exchange@
            == target_exchange_of(exchange@, next_count(header), escalator.max_retries)
            && e.routing_key@ == queue@,
{
    match delivery_action(outcome) {
        DeliveryAction::Skip => DeliveryPlan { acknowledge: false, republish: None },
        DeliveryAction::Ack => DeliveryPlan { acknowledge: true, republish: None },
        DeliveryAction::EscalateThenAck => DeliveryPlan {
            acknowledge: true,
            republish: Some(escalator.escalate(exchange, queue, header)),
        },
    }
}

} // verus!

//! The decisions of publishing to the broker: what message an event becomes,
//! and which error a failed send or confirmation is.
use vstd::prelude::*;

use serde_json::Value;

use crate::envelope::{
    attribute_keys, encode, fields_of, has_wire_order, is_envelope, EventSerializer, ToAttributes,
};
use crate::error::{PublishError, SerializeError};
use crate::event::{Event, EventMetadata, EventWithMetadata};
use crate::json::json_text;

verus! {

/// A message ready for the broker: its payload, the exchange and the routing
/// key (the event's name).
pub struct OutgoingMessage {
    pub payload: String,
    pub routing_key: String,
    pub exchange: String,
}

/// The message for an event whose encoding came out as `serialized`: an
/// encoding failure is `CannotSerializeEvent`.
pub fn outgoing_from_serialized(
    serialized: Result<String, SerializeError>,
    event_name: &str,
    exchange: &str,
) -> (r: Result<OutgoingMessage, PublishError>)
    ensures
        serialized is Err ==> (r matches Err(e) && e == PublishError::CannotSerializeEvent),
        serialized matches Ok(p) ==> (r matches Ok(m) && m.payload == p && m.routing_key@
            == event_name@ && m.exchange@ == exchange@),
{
    match serialized {
        Ok(payload) => Ok(
            OutgoingMessage {
                payload,
                routing_key: event_name.to_owned(),
                exchange: exchange.to_owned(),
            },
        ),
        Err(_) => Err(PublishError::CannotSerializeEvent),
    }
}

/// The message for an event named `event_name` with the given attributes and
/// metadata: its envelope text, routed by its name to `exchange`.
pub fn outgoing_message(
    event_name: &str,
    attributes: Value,
    meta: &EventMetadata,
    exchange: &str,
) -> (r: Result<OutgoingMessage, PublishError>)
    ensures
        r matches Ok(m) && m.routing_key@ == event_name@ && m.exchange@ == exchange@
            && exists|v: Value|
            is_envelope(v, event_name@, fields_of(attributes).remove("metadata"@), meta@)
                && has_wire_order(v, attribute_keys(attributes)) && m.payload@ == json_text(v),
{
    let serialized = encode(event_name, attributes, meta);
    outgoing_from_serialized(serialized, event_name, exchange)
}

/// The message that publishing `event` through the broker bus sends.
pub fn prepare_publish<T: EventSerializer, E: Event + EventWithMetadata + ToAttributes>(
    serializer: &T,
    event: &E,
    exchange: &str,
) -> (r: Result<OutgoingMessage, PublishError>)
    ensures
        r matches Ok(m) ==> m.exchange@ == exchange@,
        r matches Err(e) ==> e == PublishError::CannotSerializeEvent,
{
    let serialized = serializer.serialize(event);
    outgoing_from_serialized(serialized, event.event_name(), exchange)
}

/// The result of one publication: a failed send is `CannotOpenChannel`, a
/// missing broker confirmation `CannotPublishEvent`.
pub fn publish_outcome(sent: bool, confirmed: bool) -> (r: Result<(), PublishError>)
    ensures
        !sent ==> r == Err::<(), PublishError>(PublishError::CannotOpenChannel),
        sent && !confirmed ==> r == Err::<(), PublishError>(PublishError::CannotPublishEvent),
        sent && confirmed ==> r is Ok,
{
    if !sent {
        Err(PublishError::CannotOpenChannel)
    } else if !confirmed {
        Err(PublishError::CannotPublishEvent)
    } else {
        Ok(())
    }
}

} // verus!

//! The errors of publishing, encoding, decoding and the broker channel.
use vstd::prelude::*;

verus! {

/// Why publishing an event failed. None of these is retried internally.
#[derive(Debug, PartialEq, Eq, Structural, Clone, Copy)]
pub enum PublishError {
    CannotSerializeEvent,
    CannotOpenChannel,
    CannotPublishEvent,
}

impl PublishError {
    pub fn message(&self) -> (r: String)
        ensures
            r@ == "Error publishing"@,
    {
        String::from_str("Error publishing")
    }
}

/// Why an event could not be encoded.
#[derive(Debug, PartialEq, Eq, Structural, Clone, Copy)]
pub enum SerializeError {
    UnableToSerializeEvent,
}

impl SerializeError {
    pub fn message(&self) -> (r: String)
        ensures
            r@ == "Unable to serialize event"@,
    {
        String::from_str("Unable to serialize event")
    }
}

/// Why a payload could not be decoded into an event.
#[derive(Debug, PartialEq, Eq, Structural, Clone, Copy)]
pub enum DeserializeError {
    /// The payload is not JSON, or lacks the envelope's `data` or
    /// `data.attributes`.
    UnableToDeserializeEvent,
    /// The envelope's `data.type` is absent or not a string.
    MissingEventName,
    /// The attributes do not fit the concrete event type.
    UnableToDowncastEvent,
}

impl DeserializeError {
    pub fn message(&self) -> (r: String)
        ensures
            self is UnableToDeserializeEvent ==> r@ == "Unable to deserialize event"@,
            self is MissingEventName ==> r@ == "Missing event name"@,
            self is UnableToDowncastEvent ==> r@ == "Unable to downcast event"@,
    {
        match self {
            DeserializeError::UnableToDeserializeEvent => String::from_str("Unable to deserialize event"),
            DeserializeError::MissingEventName => String::from_str("Missing event name"),
            DeserializeError::UnableToDowncastEvent => String::from_str("Unable to downcast event"),
        }
    }
}

/// Why the broker channel could not be used.
#[derive(Debug, PartialEq, Eq, Structural, Clone, Copy)]
pub enum RabbitError {
    CannotOpenChannel,
}

impl RabbitError {
    pub fn message(&self) -> (r: String)
        ensures
            r@ == "Cannot open channel"@,
    {
        String::from_str("Cannot open channel")
    }
}

/// A failure to obtain the managed channel surfaces to a publisher as
/// `CannotOpenChannel`.
pub fn publish_error_of(e: RabbitError) -> (r: PublishError)
    ensures
        r == PublishError::CannotOpenChannel,
{
    match e {
        RabbitError::CannotOpenChannel => PublishError::CannotOpenChannel,
    }
}

/// Why a pooled-worker bus could not be built.
#[derive(Debug, Clone)]
pub enum MultithreadingEventBusError {
    ThreadPoolError(String),
}

impl MultithreadingEventBusError {
    /// The error as text: `ThreadPoolError: ` followed by its description.
    pub fn message(&self) -> (r: String)
        ensures
            self matches MultithreadingEventBusError::ThreadPoolError(d) ==> r@ == "ThreadPoolError: "@ + d@,
    {
        match self {
            MultithreadingEventBusError::ThreadPoolError(d) => {
                let mut r = String::from_str("ThreadPoolError: ");
                r.append(d.as_str());
                r
            },
        }
    }
}

} // verus!

//! Handlers of events and the outcomes they report.
use vstd::prelude::*;

use crate::event::Event;

verus! {

/// What a handler reports when it could not process an event.
#[derive(Debug, Clone)]
pub enum SubscriberError {
    /// Terminal for this delivery: it is acknowledged and dropped.
    UnrecoverableError,
    /// Retryable: the delivery is escalated, with the cause's description.
    Inner(String),
}

impl SubscriberError {
    pub fn message(&self) -> (r: String)
        ensures
            self is UnrecoverableError ==> r@ == "Unrecoverable error"@,
            self matches SubscriberError::Inner(c) ==> r@ == "Inner error: "@ + c@,
    {
        match self {
            SubscriberError::UnrecoverableError => String::from_str("Unrecoverable error"),
            SubscriberError::Inner(c) => {
                let mut r = String::from_str("Inner error: ");
                r.append(c.as_str());
                r
            },
        }
    }
}

/// A handler bound to one event type.
pub trait Subscriber<T: Event> {
    fn handle_event(&self, event: &T) -> Result<(), SubscriberError>;
}

} // verus!

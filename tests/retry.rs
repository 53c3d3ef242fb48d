use hermes::channel::{next_generation, on_read, should_recreate, ReadDecision};
use hermes::error::{publish_error_of, MultithreadingEventBusError, PublishError, RabbitError};
use hermes::publisher::publish_outcome;
use hermes::retry::{
    dead_letter_exchange, dead_letter_queue, get_redelivery_count, get_target_exchange,
    retry_exchange, retry_queue, Escalator,
};

#[test]
fn first_escalation_goes_to_retry_with_count_one() {
    let e = Escalator::new(3).escalate("chat", "chat_queue", None);
    assert_eq!(e.exchange, "retry-chat");
    assert_eq!(e.redelivery_count, 1);
    assert_eq!(e.routing_key, "chat_queue");
}

#[test]
fn escalation_after_three_retries_goes_to_dead_letter_with_count_four() {
    let e = Escalator::new(3).escalate("chat", "chat_queue", Some(3));
    assert_eq!(e.exchange, "dead_letter-chat");
    assert_eq!(e.redelivery_count, 4);
}

#[test]
fn escalation_at_the_limit_still_retries() {
    let e = Escalator::new(3).escalate("chat", "q", Some(2));
    assert_eq!(e.exchange, "retry-chat");
    assert_eq!(e.redelivery_count, 3);
    assert_eq!(Escalator::new(0).escalate("x", "q", None).exchange, "dead_letter-x");
}

#[test]
fn redelivery_count_and_target() {
    assert_eq!(get_redelivery_count(None), 1);
    assert_eq!(get_redelivery_count(Some(5)), 6);
    assert_eq!(get_redelivery_count(Some(-1)), 0);
    assert_eq!(get_target_exchange("e", 4, 3), "dead_letter-e");
    assert_eq!(get_target_exchange("e", 3, 3), "retry-e");
}

#[test]
fn topology_names() {
    assert_eq!(retry_exchange("chat"), "retry-chat");
    assert_eq!(dead_letter_exchange("chat"), "dead_letter-chat");
    assert_eq!(retry_queue("orders"), "retry.orders");
    assert_eq!(dead_letter_queue("orders"), "dead_letter.orders");
}

#[test]
fn channel_reads_use_connected_channel() {
    assert_eq!(on_read(true), ReadDecision::UseCurrent);
    assert_eq!(on_read(false), ReadDecision::Replace);
}

#[test]
fn racing_readers_recreate_once() {
    let seen = 7u64;
    let mut current = 7u64;
    let mut recreated = 0;
    let statuses = [false, true, false];
    for connected in statuses {
        if should_recreate(seen, current, connected) {
            current = next_generation(current);
            recreated += 1;
        }
    }
    assert_eq!(recreated, 1);
    assert_eq!(current, 8);
    assert_eq!(next_generation(u64::MAX), 0);
}

#[test]
fn publish_outcomes() {
    assert_eq!(publish_outcome(false, false), Err(PublishError::CannotOpenChannel));
    assert_eq!(publish_outcome(true, false), Err(PublishError::CannotPublishEvent));
    assert_eq!(publish_outcome(true, true), Ok(()));
    assert_eq!(publish_error_of(RabbitError::CannotOpenChannel), PublishError::CannotOpenChannel);
}

#[test]
fn error_texts() {
    assert_eq!(PublishError::CannotPublishEvent.message(), "Error publishing");
    assert_eq!(RabbitError::CannotOpenChannel.message(), "Cannot open channel");
    assert_eq!(
        MultithreadingEventBusError::ThreadPoolError("bad".to_string()).message(),
        "ThreadPoolError: bad"
    );
}

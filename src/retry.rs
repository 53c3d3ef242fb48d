//! The retry / dead-letter escalation of failed deliveries, and the topology
//! names that it routes to.
use vstd::prelude::*;

verus! {

/// The exchange that holds deliveries waiting for a retry.
pub fn retry_exchange(exchange: &str) -> (r: String)
    ensures
        r@ == "retry-"@ + exchange@,
{
    let mut r = String::from_str("retry-");
    r.append(exchange);
    r
}

/// The exchange that collects deliveries which ran out of retries.
pub fn dead_letter_exchange(exchange: &str) -> (r: String)
    ensures
        r@ == "dead_letter-"@ + exchange@,
{
    let mut r = String::from_str("dead_letter-");
    r.append(exchange);
    r
}

/// The queue where deliveries of `queue` wait for a retry.
pub fn retry_queue(queue: &str) -> (r: String)
    ensures
        r@ == "retry."@ + queue@,
{
    let mut r = String::from_str("retry.");
    r.append(queue);
    r
}

/// The queue where dead deliveries of `queue` stay for inspection.
pub fn dead_letter_queue(queue: &str) -> (r: String)
    ensures
        r@ == "dead_letter."@ + queue@,
{
    let mut r = String::from_str("dead_letter.");
    r.append(queue);
    r
}

/// The redelivery count after one more escalation: the header's count (none
/// counts as zero) plus one.
pub open spec fn next_count(header: Option<i64>) -> int {
    match header {
        Some(c) => c + 1,
        None => 1,
    }
}

/// Where an escalation with the new count `count` goes.
pub open spec fn target_exchange_of(exchange: Seq<char>, count: int, max_retries: u32) -> Seq<char> {
    if count > max_retries {
        "dead_letter-"@ + exchange
    } else {
        "retry-"@ + exchange
    }
}

/// The redelivery count to record on the next escalation of a delivery whose
/// `redelivery_count` header is `header`.
pub fn get_redelivery_count(header: Option<i64>) -> (r: i64)
    requires
        header matches Some(c) ==> c < i64::MAX,
    ensures
        r == next_count(header),
{
    match header {
        Some(c) => c + 1,
        None => 1,
    }
}

/// The exchange that an escalation with count `redelivery_count` goes to:
/// the dead-letter exchange once the count exceeds `max_retries`, the retry
/// exchange before.
pub fn get_target_exchange(exchange: &str, redelivery_count: i64, max_retries: u32) -> (r: String)
    ensures
        r@ == target_exchange_of(exchange@, redelivery_count as int, max_retries),
{
    if redelivery_count > max_retries as i64 {
        dead_letter_exchange(exchange)
    } else {
        retry_exchange(exchange)
    }
}

/// A republication of a failed delivery's payload.
pub struct Escalation {
    /// The retry or dead-letter exchange.
    pub exchange: String,
    /// The original queue's name.
    pub routing_key: String,
    /// The value of the `redelivery_count` header to send.
    pub redelivery_count: i64,
}

/// Decides where failed deliveries go: back through the retry exchange until
/// `max_retries` retries were made, then to the dead-letter exchange.
pub struct Escalator {
    pub max_retries: u32,
}

impl Escalator {
    pub fn new(max_retries: u32) -> (r: Escalator)
        ensures
            r.max_retries == max_retries,
    {
        Escalator { max_retries }
    }

    /// The escalation of a delivery that came from `exchange` through
    /// `queue` with `redelivery_count` header `header`.
    pub fn escalate(&self, exchange: &str, queue: &str, header: Option<i64>) -> (r: Escalation)
        requires
            header matches Some(c) ==> c < i64::MAX,
        ensures
            r.redelivery_count == next_count(header),
            r.exchange@ == target_exchange_of(exchange@, next_count(header), self.max_retries),
            r.routing_key@ == queue@,
    {
        let redelivery_count = get_redelivery_count(header);
        let target = get_target_exchange(exchange, redelivery_count, self.max_retries);
        Escalation { exchange: target, routing_key: queue.to_owned(), redelivery_count }
    }
}

/// Escalations of one delivery count up by one each time, go to the retry
/// exchange while the count stays within `max_retries` and to the dead-letter
/// exchange after.
pub proof fn lemma_escalation_ladder(exchange: Seq<char>, prior: int, max_retries: u32)
    requires
        0 <= prior < i64::MAX,
    ensures
        next_count(Some(prior as i64)) == prior + 1,
        prior < max_retries ==> target_exchange_of(exchange, prior + 1, max_retries) == "retry-"@
            + exchange,
        prior >= max_retries ==> target_exchange_of(exchange, prior + 1, max_retries)
            == "dead_letter-"@ + exchange,
        next_count(None) == 1,
{
}

} // verus!

//! The decisions of the broker channel manager: a shared channel that readers
//! use while it is connected, and that exactly one writer replaces after a
//! disconnect.
use vstd::prelude::*;

verus! {

/// What a reader does with the channel it sees.
#[derive(Debug, PartialEq, Eq, Structural, Clone, Copy)]
pub enum ReadDecision {
    /// The channel is connected: use it directly.
    UseCurrent,
    /// The channel is disconnected: take exclusive access and re-check.
    Replace,
}

/// The fast path: a connected channel is used as it is.
pub fn on_read(connected: bool) -> (r: ReadDecision)
    ensures
        r == (if connected { ReadDecision::UseCurrent } else { ReadDecision::Replace }),
{
    if connected {
        ReadDecision::UseCurrent
    } else {
        ReadDecision::Replace
    }
}

/// Under exclusive access, whether to create a replacement: only when the
/// channel is still the one the caller saw disconnected (same generation) and
/// it is still disconnected. A racing caller may have replaced it already.
pub open spec fn recreate_spec(seen: u64, current: u64, connected: bool) -> bool {
    seen == current && !connected
}

pub fn should_recreate(seen: u64, current: u64, connected: bool) -> (r: bool)
    ensures
        r == recreate_spec(seen, current, connected),
{
    seen == current && !connected
}

/// The generation of a channel installed in place of generation `g`.
pub open spec fn next_generation_spec(g: u64) -> u64 {
    if g == u64::MAX {
        0
    } else {
        (g + 1) as u64
    }
}

pub fn next_generation(g: u64) -> (r: u64)
    ensures
        r == next_generation_spec(g),
        r != g,
{
    if g == u64::MAX {
        0
    } else {
        g + 1
    }
}

/// How many replacements the callers waiting for exclusive access make, one
/// after the other, when each saw generation `seen` disconnected; `current`
/// is the generation installed now and `connected[i]` what the i-th caller
/// finds when it re-checks.
pub open spec fn recreations(seen: u64, current: u64, connected: Seq<bool>) -> nat
    decreases connected.len(),
{
    if connected.len() == 0 {
        0
    } else if recreate_spec(seen, current, connected[0]) {
        1 + recreations(seen, next_generation_spec(current), connected.drop_first())
    } else {
        recreations(seen, current, connected.drop_first())
    }
}

proof fn lemma_no_recreation_after_replacement(seen: u64, current: u64, connected: Seq<bool>)
    requires
        current != seen,
    ensures
        recreations(seen, current, connected) == 0,
    decreases connected.len(),
{
    if connected.len() > 0 {
        lemma_no_recreation_after_replacement(seen, current, connected.drop_first());
    }
}

/// Callers racing on one disconnect make exactly one replacement: the first
/// to get exclusive access replaces the channel, and every later one sees a
/// new generation and uses the replacement.
pub proof fn lemma_single_recreation(seen: u64, connected: Seq<bool>)
    requires
        connected.len() > 0,
        !connected[0],
    ensures
        recreations(seen, seen, connected) == 1,
{
    lemma_no_recreation_after_replacement(seen, next_generation_spec(seen), connected.drop_first());
}

} // verus!

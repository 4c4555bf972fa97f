//! The observation protocol.
//!
//! A consumer decides whether anything happened by comparing the version it
//! saw last against the channel's packed word: a different version is a
//! change (and is remembered at once), an equal version with the closed flag
//! set means the producer is gone and nothing is left to consume, and an
//! equal version on an open channel means the consumer must wait.

use vstd::prelude::*;
use crate::word;

verus! {

/// What a single look at the channel's state tells a consumer.
#[derive(Clone, Copy, Debug, PartialEq, Eq)]
pub enum Observation {
    /// A version newer than the last one seen; the update is consumed.
    Changed,
    /// The producer is gone and the latest update was already consumed.
    ClosedNoUpdate,
    /// Nothing new and the producer is still there: the caller must wait.
    NoUpdateYet,
}

/// What observing a channel at version `version`, with closed flag `closed`,
/// reports to a consumer whose last seen version is `last_seen`.
pub open spec fn spec_observe(version: int, closed: bool, last_seen: int) -> Observation {
    if version != last_seen {
        Observation::Changed
    } else if closed {
        Observation::ClosedNoUpdate
    } else {
        Observation::NoUpdateYet
    }
}

/// The consumer's last seen version after one observation: the current
/// version if it reported a change, otherwise unchanged.
pub open spec fn spec_next_seen(version: int, last_seen: int) -> int {
    if version != last_seen {
        version
    } else {
        last_seen
    }
}

/// One observation of a packed word, as a consumer performs it: reports what
/// it saw and returns the consumer's updated last seen version.
pub fn observe(packed: u64, last_seen: u64) -> (r: (Observation, u64))
    ensures
        r.0 == spec_observe(
            word::spec_version(packed) as int,
            word::spec_closed(packed),
            last_seen as int,
        ),
        r.1 == spec_next_seen(word::spec_version(packed) as int, last_seen as int),
{
    let current = word::mask_version(packed);
    if current != last_seen {
        (Observation::Changed, current)
    } else if word::is_closed(packed) {
        (Observation::ClosedNoUpdate, last_seen)
    } else {
        (Observation::NoUpdateYet, last_seen)
    }
}

/// A consumer's last seen version never goes backwards, and never runs
/// ahead of the channel: as long as the channel's version is at least the
/// last seen one, one observation moves the last seen version only towards
/// the current one.
pub proof fn lemma_last_seen_monotone(version: int, last_seen: int)
    requires
        last_seen <= version,
    ensures
        last_seen <= spec_next_seen(version, last_seen) <= version,
{
}

/// An observation consumes the update it reports: observing the same state
/// again never reports a change twice, so any number of publishes between
/// two looks collapse into a single reported change.
pub proof fn lemma_change_consumed(version: int, closed: bool, last_seen: int)
    ensures
        spec_observe(version, closed, spec_next_seen(version, last_seen)) != Observation::Changed,
        spec_observe(version, closed, spec_next_seen(version, last_seen)) == (if closed {
            Observation::ClosedNoUpdate
        } else {
            Observation::NoUpdateYet
        }),
{
}

/// Once the channel is closed and the latest update was consumed, every
/// observation reports `ClosedNoUpdate` and leaves the consumer's last seen
/// version alone, so all later observations of the same state repeat it:
/// the state is terminal.
pub proof fn lemma_closed_terminal(version: int, closed: bool, last_seen: int)
    requires
        closed,
        last_seen == version,
    ensures
        spec_observe(version, closed, last_seen) == Observation::ClosedNoUpdate,
        spec_next_seen(version, last_seen) == last_seen,
{
}

/// If the channel closed while an update was still unconsumed, observation
/// reports the change exactly once more, and after that the terminal
/// `ClosedNoUpdate` forever: the word no longer moves once the producer is
/// gone.
pub proof fn lemma_closed_pending_update(version: int, closed: bool, last_seen: int)
    requires
        closed,
        last_seen != version,
    ensures
        spec_observe(version, closed, last_seen) == Observation::Changed,
        spec_observe(version, closed, spec_next_seen(version, last_seen))
            == Observation::ClosedNoUpdate,
{
}

} // verus!

//! Laws that connect the transition model with the observation protocol.

use vstd::prelude::*;

use crate::observe::Observation;
use crate::observe::spec_next_seen;
use crate::observe::spec_observe;
use crate::state::Op;
use crate::state::SharedView;
use crate::state::run;

verus! {

/// A sequence of publishes advances the version by one step each and
/// touches neither the closed flag nor the consumer count.
pub proof fn lemma_publishes_advance_version<T>(s: SharedView<T>, ops: Seq<Op<T>>)
    requires
        forall|i: int| 0 <= i < ops.len() ==> (#[trigger] ops[i]) matches Op::Publish(_),
    ensures
        run(s, ops).version == s.version + 2 * ops.len(),
        run(s, ops).closed == s.closed,
        run(s, ops).receivers == s.receivers,
    decreases ops.len(),
{
    if ops.len() > 0 {
        assert(forall|i: int|
            0 <= i < ops.drop_first().len() ==> (#[trigger] ops.drop_first()[i]) == ops[i + 1]);
        lemma_publishes_advance_version(crate::state::step(s, ops[0]), ops.drop_first());
    }
}

/// Any number of publishes between two checks collapse into a single
/// reported change: after a nonempty run of publishes, a consumer whose
/// last seen version did not outrun the channel observes `Changed` exactly
/// once, and nothing further until the state moves again.
pub proof fn lemma_publishes_collapse<T>(s: SharedView<T>, ops: Seq<Op<T>>, last_seen: int)
    requires
        ops.len() > 0,
        forall|i: int| 0 <= i < ops.len() ==> (#[trigger] ops[i]) matches Op::Publish(_),
        last_seen <= s.version,
    ensures
        spec_observe(run(s, ops).version, run(s, ops).closed, last_seen) == Observation::Changed,
        spec_observe(
            run(s, ops).version,
            run(s, ops).closed,
            spec_next_seen(run(s, ops).version, last_seen),
        ) != Observation::Changed,
{
    lemma_publishes_advance_version(s, ops);
    crate::observe::lemma_change_consumed(run(s, ops).version, run(s, ops).closed, last_seen);
}

/// Once the channel is closed and the latest update consumed, the error is
/// for good: whatever happens to the shared state afterwards — and once the
/// producer is gone nothing can publish any more — every later observation
/// by that consumer still reports the terminal `ClosedNoUpdate`.
pub proof fn lemma_closed_consumed_terminal<T>(s: SharedView<T>, ops: Seq<Op<T>>, last_seen: int)
    requires
        s.closed,
        last_seen == s.version,
        forall|i: int| 0 <= i < ops.len() ==> !((#[trigger] ops[i]) matches Op::Publish(_)),
    ensures
        spec_observe(run(s, ops).version, run(s, ops).closed, last_seen)
            == Observation::ClosedNoUpdate,
        spec_next_seen(run(s, ops).version, last_seen) == last_seen,
{
    crate::state::lemma_version_stable(s, ops);
    crate::state::lemma_closed_permanent_run(s, ops);
}

/// If the channel closed while an update was still unconsumed, the wait for
/// a change succeeds exactly once more — consuming that update — and from
/// then on, whatever happens to the shared state (nothing can publish once
/// the producer is gone), every observation reports the terminal error.
pub proof fn lemma_closed_pending_terminal<T>(s: SharedView<T>, ops: Seq<Op<T>>, last_seen: int)
    requires
        s.closed,
        last_seen != s.version,
        forall|i: int| 0 <= i < ops.len() ==> !((#[trigger] ops[i]) matches Op::Publish(_)),
    ensures
        spec_observe(s.version, s.closed, last_seen) == Observation::Changed,
        spec_observe(
            run(s, ops).version,
            run(s, ops).closed,
            spec_next_seen(s.version, last_seen),
        ) == Observation::ClosedNoUpdate,
{
    lemma_closed_consumed_terminal(s, ops, spec_next_seen(s.version, last_seen));
}

} // verus!

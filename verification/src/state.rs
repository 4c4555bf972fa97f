//! The mathematical state of the shared channel and its transitions.
//!
//! Every operation of the channel changes the shared state by exactly one
//! [`Op`] step; the executable operations promise this in their contracts,
//! and the lemmas here state once and for all what any sequence of steps
//! preserves: the value only moves on a publish, the version never goes
//! backwards, the closed flag is permanent, and the consumer count is a
//! plain sum of creations and destructions, in any order.

use vstd::prelude::*;

verus! {

/// The shared state of a channel, as the contracts see it: the current
/// value, the version counter, the closed flag, and the number of live
/// consumer handles.
pub struct SharedView<T> {
    /// The most recently published value.
    pub value: T,
    /// The version counter (even: it moves in steps of 2, clear of the
    /// closed bit it is packed with).
    pub version: int,
    /// Whether the producer has been destroyed.  Never cleared once set.
    pub closed: bool,
    /// The exact number of live consumer handles.
    pub receivers: int,
}

/// One transition of the shared state.
pub enum Op<T> {
    /// A value is published: the value is replaced and the version advances.
    Publish(T),
    /// A consumer handle comes into being (a subscription or a duplicate).
    NewReceiver,
    /// A consumer handle is destroyed.
    DropReceiver,
    /// The producer is destroyed: the closed flag is set, permanently.
    Close,
}

/// How one transition changes the shared state.
pub open spec fn step<T>(s: SharedView<T>, op: Op<T>) -> SharedView<T> {
    match op {
        Op::Publish(v) => SharedView { value: v, version: s.version + 2, ..s },
        Op::NewReceiver => SharedView { receivers: s.receivers + 1, ..s },
        Op::DropReceiver => SharedView { receivers: s.receivers - 1, ..s },
        Op::Close => SharedView { closed: true, ..s },
    }
}

/// The state after a whole sequence of transitions.
pub open spec fn run<T>(s: SharedView<T>, ops: Seq<Op<T>>) -> SharedView<T>
    decreases ops.len(),
{
    if ops.len() == 0 {
        s
    } else {
        run(step(s, ops[0]), ops.drop_first())
    }
}

/// How many transitions of a sequence create a consumer handle.
pub open spec fn created<T>(ops: Seq<Op<T>>) -> int
    decreases ops.len(),
{
    if ops.len() == 0 {
        0
    } else {
        (if ops[0] is NewReceiver {
            1int
        } else {
            0int
        }) + created(ops.drop_first())
    }
}

/// How many transitions of a sequence destroy a consumer handle.
pub open spec fn destroyed<T>(ops: Seq<Op<T>>) -> int
    decreases ops.len(),
{
    if ops.len() == 0 {
        0
    } else {
        (if ops[0] is DropReceiver {
            1int
        } else {
            0int
        }) + destroyed(ops.drop_first())
    }
}

/// A published value stays the current value until the next publish: no
/// other transition touches it.
pub proof fn lemma_value_moves_only_on_publish<T>(s: SharedView<T>, op: Op<T>)
    requires
        !(op matches Op::Publish(_)),
    ensures
        step(s, op).value == s.value,
{
}

/// A whole sequence without a publish leaves the value alone.
pub proof fn lemma_value_stable<T>(s: SharedView<T>, ops: Seq<Op<T>>)
    requires
        forall|i: int| 0 <= i < ops.len() ==> !((#[trigger] ops[i]) matches Op::Publish(_)),
    ensures
        run(s, ops).value == s.value,
    decreases ops.len(),
{
    if ops.len() > 0 {
        lemma_value_moves_only_on_publish(s, ops[0]);
        assert(forall|i: int|
            0 <= i < ops.drop_first().len() ==> (#[trigger] ops.drop_first()[i]) == ops[i + 1]);
        lemma_value_stable(step(s, ops[0]), ops.drop_first());
    }
}

/// A whole sequence without a publish leaves the version alone as well.
pub proof fn lemma_version_stable<T>(s: SharedView<T>, ops: Seq<Op<T>>)
    requires
        forall|i: int| 0 <= i < ops.len() ==> !((#[trigger] ops[i]) matches Op::Publish(_)),
    ensures
        run(s, ops).version == s.version,
    decreases ops.len(),
{
    if ops.len() > 0 {
        assert(forall|i: int|
            0 <= i < ops.drop_first().len() ==> (#[trigger] ops.drop_first()[i]) == ops[i + 1]);
        lemma_version_stable(step(s, ops[0]), ops.drop_first());
    }
}

/// The version counter never goes backwards, under any transition.
pub proof fn lemma_version_monotone<T>(s: SharedView<T>, op: Op<T>)
    ensures
        step(s, op).version >= s.version,
{
}

/// The closed flag, once set, survives every transition.
pub proof fn lemma_closed_permanent<T>(s: SharedView<T>, op: Op<T>)
    requires
        s.closed,
    ensures
        step(s, op).closed,
{
}

/// The version counter never goes backwards over any whole sequence of
/// transitions either.
pub proof fn lemma_version_monotone_run<T>(s: SharedView<T>, ops: Seq<Op<T>>)
    ensures
        run(s, ops).version >= s.version,
    decreases ops.len(),
{
    if ops.len() > 0 {
        lemma_version_monotone(s, ops[0]);
        lemma_version_monotone_run(step(s, ops[0]), ops.drop_first());
    }
}

/// The closed flag survives any whole sequence of transitions: once the
/// producer is gone, every later state is closed too.
pub proof fn lemma_closed_permanent_run<T>(s: SharedView<T>, ops: Seq<Op<T>>)
    requires
        s.closed,
    ensures
        run(s, ops).closed,
    decreases ops.len(),
{
    if ops.len() > 0 {
        lemma_closed_permanent(s, ops[0]);
        lemma_closed_permanent_run(step(s, ops[0]), ops.drop_first());
    }
}

/// The consumer count after any sequence of transitions is the starting
/// count plus the handles created minus the handles destroyed.  The order
/// of the transitions plays no part: destruction in any order reaches zero
/// exactly when every handle is gone.
pub proof fn lemma_receiver_count<T>(s: SharedView<T>, ops: Seq<Op<T>>)
    ensures
        run(s, ops).receivers == s.receivers + created(ops) - destroyed(ops),
    decreases ops.len(),
{
    if ops.len() > 0 {
        lemma_receiver_count(step(s, ops[0]), ops.drop_first());
    }
}

} // verus!

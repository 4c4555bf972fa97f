//! The channel's error values.

use vstd::prelude::*;

verus! {

/// Returned by a send when no live consumer is left.  Carries the rejected
/// value back to the caller, so nothing is lost.
#[derive(Debug, PartialEq, Eq)]
pub struct SendError<T> {
    /// The value the channel refused.
    pub inner: T,
}

/// Returned by a wait for a change once the channel is permanently closed
/// and no unseen update remains.
#[derive(Clone, Copy, Debug, PartialEq, Eq)]
pub struct RecvError;

} // verus!

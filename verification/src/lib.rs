//! A single-producer, multi-consumer channel that retains only the *last*
//! sent value.
//!
//! The channel packs a version counter and a "closed" flag into one word, so
//! that "new data available" and "producer gone" are a single observable
//! fact.  Every publish advances the version; consumers each remember the
//! last version they observed and compare it against the channel's word.
//!
//! The shared state is modelled here as an explicit [`Shared`] value that
//! every operation takes as an argument; the asynchronous shell that wraps
//! it in shared ownership and waits on wakeup events lives outside the
//! verified library and drives these functions.

pub mod channel;
pub mod errors;
pub mod laws;
pub mod observe;
pub mod state;
pub mod word;

pub use channel::Receiver;
pub use channel::Ref;
pub use channel::Sender;
pub use channel::Shared;
pub use channel::channel;
pub use errors::RecvError;
pub use errors::SendError;
pub use observe::Observation;
pub use word::CLOSED_BIT;
pub use word::VERSION_STEP;

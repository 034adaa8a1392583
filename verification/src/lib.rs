//! A keyed counter with two backends: a networked store, used when it was
//! reachable at construction, and an in-process map otherwise.
//!
//! The library holds every decision and the in-process map. It performs no
//! network traffic itself: the caller probes the networked store and reports
//! how that went, and where that store is authoritative an operation hands
//! back the command to send, whose reply the caller passes to
//! [`State::relay`].
//!
//! An increment takes the state by exclusive reference. Callers that share
//! one state among threads therefore have to serialise their increments,
//! and whatever order they end up in is one of the runs that the laws in
//! [`tally`] speak of.
pub mod backend;
pub mod counter;
pub mod error;
pub mod tally;

pub use backend::Attempt;
pub use counter::{Command, Outcome, State};
pub use error::StateError;

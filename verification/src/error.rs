//! The failures that a counter operation reports.
use redis::RedisError;
use vstd::prelude::*;

verus! {

/// `redis::RedisError`, the networked store's own error. The library carries
/// such a value through and never looks inside it.
#[verifier::external_type_specification]
#[verifier::external_body]
pub struct ExRedisError(redis::RedisError);

/// Why a counter operation failed.
#[derive(Debug)]
pub enum StateError {
    /// The networked store could not be reached, or it refused the command.
    Redis(RedisError),
    /// The in-process map could not answer; the text says why.
    Mem(String),
}

impl From<RedisError> for StateError {
    fn from(err: RedisError) -> (r: StateError) {
        StateError::Redis(err)
    }
}

impl vstd::std_specs::convert::FromSpecImpl<RedisError> for StateError {
    open spec fn obeys_from_spec() -> bool {
        true
    }

    open spec fn from_spec(err: RedisError) -> StateError {
        StateError::Redis(err)
    }
}

impl From<String> for StateError {
    fn from(err: String) -> (r: StateError) {
        StateError::Mem(err)
    }
}

impl vstd::std_specs::convert::FromSpecImpl<String> for StateError {
    open spec fn obeys_from_spec() -> bool {
        true
    }

    open spec fn from_spec(err: String) -> StateError {
        StateError::Mem(err)
    }
}

/// Prints a `redis::RedisError` through its `Display` impl into a string.
/// Taken on trust: that the call returns. Nothing is claimed of the text.
#[verifier::external_body]
pub(crate) fn transport_text(err: &RedisError) -> (text: String) {
    format!("{}", err)
}

impl StateError {
    /// The human-readable text of the failure: for a failure of the
    /// in-process map its own text, for one of the networked store whatever
    /// that store's error prints.
    pub fn message(&self) -> (text: String)
        ensures
            self matches StateError::Mem(s) ==> text@ == s@,
    {
        match self {
            StateError::Redis(e) => transport_text(e),
            StateError::Mem(s) => s.clone(),
        }
    }
}

} // verus!

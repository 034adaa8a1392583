//! The counter state: which backend answers, and the two operations.
use crate::backend::{descriptor_accepted, open_client, Attempt};
use crate::error::StateError;
use crate::tally::{bumped, count};
use redis::{Client, RedisError};
use vstd::hash_map::StringHashMap;
use vstd::prelude::*;

verus! {

/// A command for the networked store.
#[derive(Debug)]
pub enum Command {
    /// Add one to the key's count, atomically, and report the new count.
    Incr(String),
    /// Report the key's count.
    Get(String),
}

/// How an operation ended.
#[derive(Debug)]
pub enum Outcome {
    /// The in-process map is authoritative and has answered.
    Local(Result<i64, StateError>),
    /// The networked store is authoritative: the caller sends it this
    /// command and hands its reply to [`State::relay`].
    Remote(Command),
}

/// The long-lived counter state. Exactly one backend answers for as long as
/// the state lives: the networked store where `redis` holds a client, the
/// in-process map `mem` where it holds none.
pub struct State {
    pub redis: Option<Client>,
    pub mem: StringHashMap<i64>,
}

/// What the caller receives for a reply of the networked store: the count
/// as it came, or the store's error as a `StateError::Redis`.
pub open spec fn relayed(reply: Result<i64, RedisError>) -> Result<i64, StateError> {
    match reply {
        Ok(v) => Ok(v),
        Err(e) => Err(StateError::Redis(e)),
    }
}

impl State {
    /// Makes a client handle of a connection descriptor such as
    /// `redis://host:port/`, without connecting. The caller probes the
    /// networked store through the handle and reports the result to
    /// [`State::new`] as an [`Attempt`].
    pub fn open(descriptor: &str) -> (r: Result<Client, StateError>)
        ensures
            r is Ok <==> descriptor_accepted(descriptor@),
            r matches Err(e) ==> e is Redis,
    {
        match open_client(descriptor) {
            Ok(client) => Ok(client),
            Err(e) => Err(StateError::from(e)),
        }
    }

    /// Settles the backend, once, from what the attempt to reach the
    /// networked store came to. That store becomes authoritative only if a
    /// client was made and its probe succeeded; otherwise the in-process map
    /// does. The map starts empty either way.
    pub fn new(attempt: Attempt) -> (state: State)
        ensures
            state.redis == attempt.selected(),
            state.mem@ == Map::<Seq<char>, i64>::empty(),
    {
        let client = match attempt {
            Attempt::Probed(client, Ok(_)) => Some(client),
            _ => None,
        };
        State { redis: client, mem: StringHashMap::new() }
    }

    /// Adds one to the count of `key`. Where the networked store is
    /// authoritative the map is left alone and the command to send comes
    /// back. Otherwise the key, taken as zero if it was never seen, goes up
    /// by one in the map and its new count is returned. The backend stays
    /// the one that construction chose.
    ///
    /// A count that stands at `i64::MAX` cannot go up: the caller keeps such
    /// a key away from the in-process map.
    pub fn inc(&mut self, key: String) -> (out: Outcome)
        requires
            old(self).redis is None ==> count(old(self).mem@, key@) < i64::MAX,
        ensures
            final(self).redis == old(self).redis,
            old(self).redis is Some ==> final(self).mem@ == old(self).mem@ && out
                == Outcome::Remote(Command::Incr(key)),
            old(self).redis is None ==> final(self).mem@ == bumped(old(self).mem@, key@) && (
            out matches Outcome::Local(Ok(v)) && v == count(old(self).mem@, key@) + 1),
    {
        if self.redis.is_some() {
            return Outcome::Remote(Command::Incr(key));
        }
        let next: i64 = match self.mem.get(key.as_str()) {
            Some(v) => *v + 1,
            None => 1,
        };
        self.mem.insert(key, next);
        Outcome::Local(Ok(next))
    }

    /// Reads the count of `key` and changes nothing. Where the networked
    /// store is authoritative the command to send comes back. Otherwise the
    /// stored count is returned, and a key that was never incremented is a
    /// failure with the text `key not found`, not a zero.
    pub fn get(&self, key: String) -> (out: Outcome)
        ensures
            self.redis is Some ==> out == Outcome::Remote(Command::Get(key)),
            self.redis is None && self.mem@.contains_key(key@) ==> out == Outcome::Local(
                Ok(self.mem@[key@]),
            ),
            self.redis is None && !self.mem@.contains_key(key@) ==> (out matches Outcome::Local(
                Err(StateError::Mem(text)),
            ) && text@ == "key not found"@),
    {
        if self.redis.is_some() {
            return Outcome::Remote(Command::Get(key));
        }
        match self.mem.get(key.as_str()) {
            Some(v) => Outcome::Local(Ok(*v)),
            None => Outcome::Local(Err(StateError::from("key not found".to_owned()))),
        }
    }

    /// Turns the networked store's reply to a command into the operation's
    /// result. A failure of the store reaches the caller as it is: it is
    /// never answered from the in-process map instead.
    pub fn relay(reply: Result<i64, RedisError>) -> (r: Result<i64, StateError>)
        ensures
            r == relayed(reply),
    {
        match reply {
            Ok(v) => Ok(v),
            Err(e) => Err(StateError::from(e)),
        }
    }
}

} // verus!

//! Backend selection: what was learned of the networked store at start-up,
//! and what follows from it.
use crate::error::{transport_text, StateError};
use redis::{Client, RedisError};
use vstd::prelude::*;
use vstd::string::StringExecFns;

verus! {

/// `redis::Client`, the handle of the networked store. It holds the parsed
/// connection parameters and no open connection.
#[verifier::external_type_specification]
#[verifier::external_body]
pub struct ExClient(redis::Client);

/// Whether `redis::Client::open` makes a client of this descriptor. The
/// library does not say which texts those are: it takes the answer from the
/// call.
pub uninterp spec fn descriptor_accepted(descriptor: Seq<char>) -> bool;

/// Calls `redis::Client::open` on the descriptor. That function parses the
/// text as a URL and checks its scheme, host, database number and
/// credentials; it opens no connection and reads nothing else. Taken on
/// trust: whether it returns a client depends on the text alone. (Which
/// schemes it supports, TLS and Unix sockets among them, is fixed when the
/// library is compiled.)
#[verifier::external_body]
pub(crate) fn open_client(descriptor: &str) -> (r: Result<Client, RedisError>)
    ensures
        r is Ok <==> descriptor_accepted(descriptor@),
{
    Client::open(descriptor)
}

/// What the one attempt to reach the networked store came to.
#[derive(Debug)]
pub enum Attempt {
    /// The descriptor made no client.
    Rejected(StateError),
    /// The descriptor made this client, and the probe sent through it ended
    /// as the second field says.
    Probed(Client, Result<(), RedisError>),
}

impl Attempt {
    /// The client that becomes authoritative: the one whose probe succeeded.
    /// Where there is none, the in-process map answers.
    pub open spec fn selected(self) -> Option<Client> {
        match self {
            Attempt::Probed(client, Ok(_)) => Some(client),
            _ => None,
        }
    }

    /// How the diagnostic line of a fallback begins.
    pub open spec fn notice_prefix(self) -> Seq<char> {
        match self {
            Attempt::Rejected(_) => "using memory store, error constructing redis client: "@,
            Attempt::Probed(_, _) => "using memory store, error connecting to redis: "@,
        }
    }

    /// The diagnostic line to emit where the attempt ends in a fallback to
    /// the in-process map, and `None` where the networked store was chosen.
    /// The line names the stage that failed and ends with the error's text.
    pub fn notice(&self) -> (line: Option<String>)
        ensures
            line is Some <==> self.selected() is None,
            line matches Some(text) ==> self.notice_prefix().is_prefix_of(text@),
            (line, self) matches (Some(text), Attempt::Rejected(StateError::Mem(cause)))
                ==> text@ == self.notice_prefix() + cause@,
    {
        match self {
            Attempt::Rejected(e) => {
                let cause = e.message();
                let head = String::from_str(
                    "using memory store, error constructing redis client: ",
                );
                Some(head.concat(cause.as_str()))
            },
            Attempt::Probed(_, Err(e)) => {
                let cause = transport_text(e);
                let head = String::from_str("using memory store, error connecting to redis: ");
                Some(head.concat(cause.as_str()))
            },
            Attempt::Probed(_, Ok(_)) => None,
        }
    }
}

} // verus!

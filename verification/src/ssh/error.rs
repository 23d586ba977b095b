//! SSH errors: connection, authentication, host keys and remote commands.
use crate::text::{join2, own};
use std::time::Duration;
use vstd::prelude::*;

verus! {

/// What `Duration`'s `Debug` writes for `d`, such as `300s` or `1.5s`.
pub uninterp spec fn duration_debug(d: Duration) -> Seq<char>;

/// `{:?}` of a duration (`Duration`'s `Debug`).
#[verifier::external_body]
pub(crate) fn duration_debug_text(d: Duration) -> (r: String)
    ensures
        r@ == duration_debug(d),
{
    format!("{:?}", d)
}

/// An SSH failure; errors of the SSH library and of I/O are kept as their messages.
#[derive(Debug)]
pub enum Error {
    Connection(String),
    AuthenticationFailed,
    AgentUnavailable(String),
    KeyLoadFailed { path: String, reason: String },
    CommandFailed(String),
    CommandTimeout(Duration),
    ChannelClosed,
    SocketForwardFailed(String),
    Protocol(String),
    Key(String),
    Io(String),
}

/// The message that `Display` writes for an SSH error.
pub open spec fn ssh_error_text(e: Error) -> Seq<char> {
    match e {
        Error::Connection(m) => "connection failed: "@ + m@,
        Error::AuthenticationFailed => "authentication failed: no valid credentials"@,
        Error::AgentUnavailable(m) => "SSH agent not available: "@ + m@,
        Error::KeyLoadFailed { path, reason } => "failed to load key from "@ + path@ + ": "@ + reason@,
        Error::CommandFailed(m) => "command execution failed: "@ + m@,
        Error::CommandTimeout(d) => "command timed out after "@ + duration_debug(d),
        Error::ChannelClosed => "channel closed unexpectedly without exit status"@,
        Error::SocketForwardFailed(m) => "socket forwarding failed: "@ + m@,
        Error::Protocol(m) => "SSH protocol error: "@ + m@,
        Error::Key(m) => "SSH key error: "@ + m@,
        Error::Io(m) => "I/O error: "@ + m@,
    }
}

impl Error {
    /// The message that `Display` writes for this error.
    pub fn to_string(&self) -> (r: String)
        ensures
            r@ == ssh_error_text(*self),
    {
        match self {
            Error::Connection(m) => join2("connection failed: ", m.as_str()),
            Error::AuthenticationFailed => own("authentication failed: no valid credentials"),
            Error::AgentUnavailable(m) => join2("SSH agent not available: ", m.as_str()),
            Error::KeyLoadFailed { path, reason } => {
                let mut s = join2("failed to load key from ", path.as_str());
                s.append(": ");
                s.append(reason.as_str());
                s
            },
            Error::CommandFailed(m) => join2("command execution failed: ", m.as_str()),
            Error::CommandTimeout(d) => {
                let t = duration_debug_text(*d);
                join2("command timed out after ", t.as_str())
            },
            Error::ChannelClosed => own("channel closed unexpectedly without exit status"),
            Error::SocketForwardFailed(m) => join2("socket forwarding failed: ", m.as_str()),
            Error::Protocol(m) => join2("SSH protocol error: ", m.as_str()),
            Error::Key(m) => join2("SSH key error: ", m.as_str()),
            Error::Io(m) => join2("I/O error: ", m.as_str()),
        }
    }
}

} // verus!

//! The decisions of an SSH session: trusting host keys, choosing how to
//! authenticate, collecting a remote command's output from the channel's
//! messages, and relaying a forwarded socket. The SSH protocol itself is run by
//! the caller, who hands over what happened.
use crate::ssh::client::CommandOutput;
use crate::ssh::error::Error;
use crate::text::{contains, dec, dec_string, join2, join3, own, str_contains};
use vstd::prelude::*;

verus! {

// ---------------------------------------------------------------------------
// Host keys
// ---------------------------------------------------------------------------

/// What the known-hosts file says of a server's key.
#[derive(Debug, Clone, Copy, PartialEq, Eq, Structural)]
pub enum KnownHostCheck {
    /// The key is recorded for the host.
    Known,
    /// The host is not recorded.
    Unknown,
    /// A different key is recorded for the host.
    Changed,
    /// The file could not be checked.
    Failed,
}

/// Whether to accept a server's key, and whether to record it: a known key is
/// accepted; with trust on first use an unknown host's key is accepted and
/// recorded, and a failed check is accepted; a changed key is never accepted.
pub fn host_key_decision(check: KnownHostCheck, trust_on_first_use: bool) -> (r: (bool, bool))
    ensures
        r.0 == match check {
            KnownHostCheck::Known => true,
            KnownHostCheck::Unknown => trust_on_first_use,
            KnownHostCheck::Changed => false,
            KnownHostCheck::Failed => trust_on_first_use,
        },
        r.1 == (check == KnownHostCheck::Unknown && trust_on_first_use),
{
    match check {
        KnownHostCheck::Known => (true, false),
        KnownHostCheck::Unknown => (trust_on_first_use, trust_on_first_use),
        KnownHostCheck::Changed => (false, false),
        KnownHostCheck::Failed => (trust_on_first_use, false),
    }
}

// ---------------------------------------------------------------------------
// Connecting and authenticating
// ---------------------------------------------------------------------------

/// The error for a failed connection, from the SSH library's message: a
/// refused connection names the host and port.
pub fn connection_error(message: &str, host: &str, port: u16) -> (r: Error)
    ensures
        contains(message@, "Connection refused"@) ==> (r matches Error::Connection(m) && m@
            == "connection refused to "@ + host@ + ":"@ + dec(port as nat)),
        !contains(message@, "Connection refused"@) ==> (r matches Error::Connection(m) && m@ == message@),
{
    if str_contains(message, "Connection refused") {
        let mut m = join3("connection refused to ", host, ":");
        let p = dec_string(port as u64);
        m.append(p.as_str());
        Error::Connection(m)
    } else {
        Error::Connection(own(message))
    }
}

/// The keys tried when neither a key file nor an agent is available, in order.
pub fn default_key_paths(home: &str) -> (r: Vec<String>)
    ensures
        r@.len() == 3,
        r@[0]@ == home@ + "/.ssh/id_ed25519"@,
        r@[1]@ == home@ + "/.ssh/id_rsa"@,
        r@[2]@ == home@ + "/.ssh/id_ecdsa"@,
{
    let mut v: Vec<String> = Vec::new();
    v.push(join2(home, "/.ssh/id_ed25519"));
    v.push(join2(home, "/.ssh/id_rsa"));
    v.push(join2(home, "/.ssh/id_ecdsa"));
    v
}

/// The error when the agent is unavailable and `HOME` is not set.
pub fn no_home_error() -> (r: Error)
    ensures
        r matches Error::AgentUnavailable(m) && m@ == "SSH agent not available and HOME not set"@,
{
    Error::AgentUnavailable(own("SSH agent not available and HOME not set"))
}

/// The error when the agent is unavailable and no default key loads.
pub fn no_key_error() -> (r: Error)
    ensures
        r matches Error::AgentUnavailable(m) && m@ == "SSH agent not available and no default keys found"@,
{
    Error::AgentUnavailable(own("SSH agent not available and no default keys found"))
}

/// What listing the agent's keys gave: the number of keys, or the failure's
/// message. Authentication through the agent needs at least one key.
pub fn agent_keys_check(listed: Result<usize, String>) -> (r: Result<(), Error>)
    ensures
        match listed {
            Ok(n) => if n > 0 {
                r is Ok
            } else {
                r matches Err(Error::AgentUnavailable(m)) && m@ == "no keys in SSH agent"@
            },
            Err(e) => r matches Err(Error::AgentUnavailable(m)) && m@ == "failed to list agent keys: "@ + e@,
        },
{
    match listed {
        Ok(n) => if n > 0 {
            Ok(())
        } else {
            Err(Error::AgentUnavailable(own("no keys in SSH agent")))
        },
        Err(e) => Err(Error::AgentUnavailable(join2("failed to list agent keys: ", e.as_str()))),
    }
}

// ---------------------------------------------------------------------------
// Running a command
// ---------------------------------------------------------------------------

/// What `String::from_utf8_lossy` makes of `bytes`.
pub uninterp spec fn lossy_utf8(bytes: Seq<u8>) -> Seq<char>;

/// `String::from_utf8_lossy(bytes).to_string()`: the text, with invalid
/// sequences replaced by U+FFFD.
#[verifier::external_body]
fn decode_lossy(bytes: &Vec<u8>) -> (r: String)
    ensures
        r@ == lossy_utf8(bytes@),
{
    String::from_utf8_lossy(bytes).to_string()
}

/// A message of a command's channel.
#[derive(Debug)]
pub enum ChannelEvent {
    /// Standard output.
    Data(Vec<u8>),
    /// Extended data of the given type; type 1 is standard error.
    ExtendedData(Vec<u8>, u32),
    /// The command's exit status.
    ExitStatus(u32),
    /// No more data will come.
    Eof,
    /// The channel closed.
    Close,
    /// Any other message.
    Other,
    /// The channel ended without a message.
    Ended,
}

/// The output of a command collected so far.
#[derive(Debug)]
pub struct CommandCollector {
    pub stdout: Vec<u8>,
    pub stderr: Vec<u8>,
    pub exit_code: u32,
    pub got_exit_status: bool,
    pub got_eof: bool,
}

/// One message taken in: the collector after it, and whether the command is
/// over. The command is over once both its exit status and the end of its data
/// came, in either order, or when the channel closes or ends.
pub open spec fn collect_step(c: CommandCollector, e: ChannelEvent, d: CommandCollector, done: bool) -> bool {
    match e {
        ChannelEvent::Data(b) => d.stdout@ == c.stdout@ + b@ && d.stderr@ == c.stderr@ && d.exit_code
            == c.exit_code && d.got_exit_status == c.got_exit_status && d.got_eof == c.got_eof && !done,
        ChannelEvent::ExtendedData(b, t) => d.stdout@ == c.stdout@ && d.stderr@ == (if t == 1 {
            c.stderr@ + b@
        } else {
            c.stderr@
        }) && d.exit_code == c.exit_code && d.got_exit_status == c.got_exit_status && d.got_eof
            == c.got_eof && !done,
        ChannelEvent::ExitStatus(s) => d.stdout@ == c.stdout@ && d.stderr@ == c.stderr@ && d.exit_code
            == s && d.got_exit_status && d.got_eof == c.got_eof && done == c.got_eof,
        ChannelEvent::Eof => d.stdout@ == c.stdout@ && d.stderr@ == c.stderr@ && d.exit_code == c.exit_code
            && d.got_exit_status == c.got_exit_status && d.got_eof && done == c.got_exit_status,
        ChannelEvent::Close | ChannelEvent::Ended => d.stdout@ == c.stdout@ && d.stderr@ == c.stderr@
            && d.exit_code == c.exit_code && d.got_exit_status == c.got_exit_status && d.got_eof
            == c.got_eof && done,
        ChannelEvent::Other => d.stdout@ == c.stdout@ && d.stderr@ == c.stderr@ && d.exit_code
            == c.exit_code && d.got_exit_status == c.got_exit_status && d.got_eof == c.got_eof && !done,
    }
}

impl CommandCollector {
    /// Nothing collected yet.
    pub fn new() -> (r: Self)
        ensures
            r.stdout@.len() == 0,
            r.stderr@.len() == 0,
            r.exit_code == 0,
            !r.got_exit_status,
            !r.got_eof,
    {
        CommandCollector { stdout: Vec::new(), stderr: Vec::new(), exit_code: 0, got_exit_status: false, got_eof: false }
    }

    /// Takes in the next message; true when the command is over.
    pub fn take(&mut self, event: ChannelEvent) -> (done: bool)
        ensures
            collect_step(*old(self), event, *final(self), done),
    {
        match event {
            ChannelEvent::Data(b) => {
                let mut b = b;
                self.stdout.append(&mut b);
                false
            },
            ChannelEvent::ExtendedData(b, t) => {
                if t == 1 {
                    let mut b = b;
                    self.stderr.append(&mut b);
                }
                false
            },
            ChannelEvent::ExitStatus(s) => {
                self.exit_code = s;
                self.got_exit_status = true;
                self.got_eof
            },
            ChannelEvent::Eof => {
                self.got_eof = true;
                self.got_exit_status
            },
            ChannelEvent::Close | ChannelEvent::Ended => true,
            ChannelEvent::Other => false,
        }
    }

    /// The command's output; a channel that closed without an exit status means
    /// the command ended abnormally.
    pub fn finish(self) -> (r: Result<CommandOutput, Error>)
        ensures
            !self.got_exit_status ==> r matches Err(Error::ChannelClosed),
            self.got_exit_status ==> (r matches Ok(out) && out.exit_code == self.exit_code && out.stdout@
                == lossy_utf8(self.stdout@) && out.stderr@ == lossy_utf8(self.stderr@)),
    {
        if !self.got_exit_status {
            return Err(Error::ChannelClosed);
        }
        Ok(CommandOutput {
            exit_code: self.exit_code,
            stdout: decode_lossy(&self.stdout),
            stderr: decode_lossy(&self.stderr),
        })
    }
}

/// The standard output of a command is its data messages joined in order; no
/// other message adds to it.
pub proof fn lemma_stdout_is_data(c: CommandCollector, e: ChannelEvent, d: CommandCollector, done: bool)
    requires
        collect_step(c, e, d, done),
    ensures
        d.stdout@ == match e {
            ChannelEvent::Data(b) => c.stdout@ + b@,
            _ => c.stdout@,
        },
{
}

// ---------------------------------------------------------------------------
// Forwarding a socket
// ---------------------------------------------------------------------------

/// `/tmp/peleka-<pid>-<n>.sock`: the local end of the `n`-th forward of process
/// `pid`.
pub fn forward_socket_path(pid: u32, n: u64) -> (r: String)
    ensures
        r@ == "/tmp/peleka-"@ + dec(pid as nat) + "-"@ + dec(n as nat) + ".sock"@,
{
    let p = dec_string(pid as u64);
    let c = dec_string(n);
    let mut s = join3("/tmp/peleka-", p.as_str(), "-");
    s.append(c.as_str());
    s.append(".sock");
    s
}

/// What happened on one side of a forwarded connection.
#[derive(Debug)]
pub enum RelayEvent {
    /// The local side was read: that many bytes (0 at its end), or a failure.
    LocalRead(Result<usize, String>),
    /// Data came from the remote side.
    RemoteData,
    /// The remote side sent its end of data.
    RemoteEof,
    /// The remote side closed.
    RemoteClose,
    /// Another message came from the remote side.
    RemoteOther,
    /// The remote side ended without a message.
    RemoteEnded,
}

/// What to do next on a forwarded connection.
#[derive(Debug, Clone, Copy, PartialEq, Eq, Structural)]
pub enum RelayAction {
    /// Send the bytes read to the remote side.
    SendData,
    /// Tell the remote side that no more data comes.
    SendEof,
    /// Write the remote data to the local side.
    WriteLocal,
    /// Keep going.
    Continue,
    /// Stop relaying.
    Stop,
}

/// A forwarded connection: which sides have finished sending.
#[derive(Debug, Clone, Copy, PartialEq, Eq, Structural)]
pub struct Relay {
    pub local_closed: bool,
    pub remote_closed: bool,
}

/// One step of a relay. A side is read only while it is open; once both have
/// finished, relaying stops.
pub open spec fn relay_next(s: Relay, e: RelayEvent) -> (Relay, RelayAction) {
    match e {
        RelayEvent::LocalRead(Ok(n)) => if n == 0 {
            (Relay { local_closed: true, ..s }, RelayAction::SendEof)
        } else {
            (s, RelayAction::SendData)
        },
        RelayEvent::LocalRead(Err(_)) => (s, RelayAction::Stop),
        RelayEvent::RemoteData => (s, RelayAction::WriteLocal),
        RelayEvent::RemoteEof => (
            Relay { remote_closed: true, ..s },
            if s.local_closed {
                RelayAction::Stop
            } else {
                RelayAction::Continue
            },
        ),
        RelayEvent::RemoteClose | RelayEvent::RemoteEnded => (s, RelayAction::Stop),
        RelayEvent::RemoteOther => (s, RelayAction::Continue),
    }
}

impl Relay {
    /// A connection with both sides open.
    pub fn new() -> (r: Self)
        ensures
            !r.local_closed && !r.remote_closed,
    {
        Relay { local_closed: false, remote_closed: false }
    }

    /// Whether neither side can be read any more.
    pub fn finished(&self) -> (r: bool)
        ensures
            r == (self.local_closed && self.remote_closed),
    {
        self.local_closed && self.remote_closed
    }

    /// Takes what happened and says what to do.
    pub fn step(&mut self, event: RelayEvent) -> (a: RelayAction)
        ensures
            (*final(self), a) == relay_next(*old(self), event),
    {
        match event {
            RelayEvent::LocalRead(Ok(n)) => if n == 0 {
                self.local_closed = true;
                RelayAction::SendEof
            } else {
                RelayAction::SendData
            },
            RelayEvent::LocalRead(Err(_)) => RelayAction::Stop,
            RelayEvent::RemoteData => RelayAction::WriteLocal,
            RelayEvent::RemoteEof => {
                self.remote_closed = true;
                if self.local_closed {
                    RelayAction::Stop
                } else {
                    RelayAction::Continue
                }
            },
            RelayEvent::RemoteClose | RelayEvent::RemoteEnded => RelayAction::Stop,
            RelayEvent::RemoteOther => RelayAction::Continue,
        }
    }
}

/// The failure to open the channel to the remote socket.
pub fn forward_channel_error(remote_socket: &str, message: &str) -> (r: Error)
    ensures
        r matches Error::SocketForwardFailed(m) && m@ == "failed to open streamlocal channel to "@
            + remote_socket@ + ": "@ + message@,
{
    let mut m = join3("failed to open streamlocal channel to ", remote_socket, ": ");
    m.append(message);
    Error::SocketForwardFailed(m)
}

} // verus!

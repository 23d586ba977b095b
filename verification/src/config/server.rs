//! Servers to deploy to, written as `host`, `user@host`, `host:port` or
//! `user@host:port`.
use crate::runtime::{RuntimeConfig, RuntimeType};
use crate::ssh::SessionConfig;
use crate::strmap::Duplicate;
use crate::text::{
    chars_of, find_in, first_index, join2, last_index, parse_uint, parse_uint_range, rfind_in,
    substring, trim, trim_bounds, own,
};
use crate::types::image_ref::opt_view;
use vstd::prelude::*;

verus! {

/// A server and how to reach its container runtime.
#[derive(Debug)]
pub struct ServerConfig {
    pub host: String,
    pub port: u16,
    pub user: Option<String>,
    pub runtime: Option<RuntimeType>,
    pub socket: Option<String>,
    pub trust_first_connection: bool,
}

/// The SSH port used when none is given.
pub fn default_port() -> (r: u16)
    ensures
        r == 22,
{
    22
}

/// Whether unknown host keys are trusted when the configuration says nothing:
/// they are not, so host key verification stays on unless Trust On First Use
/// is asked for.
pub fn default_trust_first_connection() -> (r: bool)
    ensures
        !r,
{
    false
}

/// Splits off the user before the first `@`.
pub open spec fn split_user(t: Seq<char>) -> (Option<Seq<char>>, Seq<char>) {
    match first_index(t, '@') {
        Some(p) => (Some(t.take(p)), t.skip(p + 1)),
        None => (None, t),
    }
}

/// Splits off the port after the last `:`; the error is the message.
pub open spec fn split_port(rest: Seq<char>) -> Result<(Seq<char>, u16), Seq<char>> {
    match last_index(rest, ':') {
        Some(q) => match parse_uint(rest.skip(q + 1), 65535) {
            Some(port) => Ok((rest.take(q), port as u16)),
            None => Err("invalid port: "@ + rest.skip(q + 1)),
        },
        None => Ok((rest, 22u16)),
    }
}

/// What `ServerConfig::parse` makes of `s`: host, port and user, or the message
/// of the error.
pub open spec fn parse_server(s: Seq<char>) -> Result<(Seq<char>, u16, Option<Seq<char>>), Seq<char>> {
    let t = trim(s);
    if t.len() == 0 {
        Err("server address cannot be empty"@)
    } else {
        let (user, rest) = split_user(t);
        match split_port(rest) {
            Err(m) => Err(m),
            Ok((host, port)) => if host.len() == 0 {
                Err("hostname cannot be empty"@)
            } else {
                Ok((host, port, user))
            },
        }
    }
}

/// `split_user` over `v[a..b]`: the user, and where the rest starts.
fn user_in(s: &str, v: &Vec<char>, a: usize, b: usize) -> (r: (Option<String>, usize))
    requires
        v@ == s@,
        a <= b <= v@.len(),
    ensures
        a <= r.1 <= b,
        opt_view(r.0) == split_user(v@.subrange(a as int, b as int)).0,
        v@.subrange(r.1 as int, b as int) == split_user(v@.subrange(a as int, b as int)).1,
{
    let ghost t = v@.subrange(a as int, b as int);
    match find_in(v, a, b, '@') {
        Some(p) => {
            assert(t.take(p - a) =~= v@.subrange(a as int, p as int));
            assert(t.skip(p - a + 1) =~= v@.subrange(p + 1, b as int));
            (Some(substring(s, a, p)), p + 1)
        },
        None => (None, a),
    }
}

/// `split_port` over `v[lo..b]`: where the host ends, and the port.
fn port_in(s: &str, v: &Vec<char>, lo: usize, b: usize) -> (r: Result<(usize, u16), String>)
    requires
        v@ == s@,
        lo <= b <= v@.len(),
    ensures
        match split_port(v@.subrange(lo as int, b as int)) {
            Ok((host, port)) => r is Ok && lo <= r->Ok_0.0 <= b && v@.subrange(
                lo as int,
                r->Ok_0.0 as int,
            ) == host && r->Ok_0.1 == port,
            Err(m) => r is Err && r->Err_0@ == m,
        },
{
    let ghost rest = v@.subrange(lo as int, b as int);
    match rfind_in(v, lo, b, ':') {
        Some(q) => {
            assert(rest.skip(q - lo + 1) =~= v@.subrange(q + 1, b as int));
            assert(rest.take(q - lo) =~= v@.subrange(lo as int, q as int));
            match parse_uint_range(v, q + 1, b, 65535) {
                Some(port) => Ok((q, port as u16)),
                None => {
                    let port_str = substring(s, q + 1, b);
                    Err(join2("invalid port: ", port_str.as_str()))
                },
            }
        },
        None => Ok((b, 22u16)),
    }
}

impl ServerConfig {
    /// Parses `[user@]host[:port]`: port 22 when none is given, no runtime or
    /// socket override, and host key verification on (no Trust On First Use).
    pub fn parse(s: &str) -> (r: Result<Self, String>)
        ensures
            match parse_server(s@) {
                Ok((host, port, user)) => r is Ok && r->Ok_0.host@ == host && r->Ok_0.port == port
                    && opt_view(r->Ok_0.user) == user && r->Ok_0.runtime is None
                    && r->Ok_0.socket is None && !r->Ok_0.trust_first_connection,
                Err(m) => r is Err && r->Err_0@ == m,
            },
    {
        let v = chars_of(s);
        let (a, b) = trim_bounds(&v);
        if a == b {
            return Err(own("server address cannot be empty"));
        }
        let (user, rest_start) = user_in(s, &v, a, b);
        let (host_end, port) = match port_in(s, &v, rest_start, b) {
            Ok(x) => x,
            Err(m) => {
                return Err(m);
            },
        };
        if host_end == rest_start {
            return Err(own("hostname cannot be empty"));
        }
        Ok(
            ServerConfig {
                host: substring(s, rest_start, host_end),
                port,
                user,
                runtime: None,
                socket: None,
                trust_first_connection: false,
            },
        )
    }

    /// The runtime override this server asks for.
    pub fn runtime_config(&self) -> (r: RuntimeConfig)
        ensures
            r.runtime == self.runtime,
            r.socket == self.socket,
    {
        RuntimeConfig {
            runtime: self.runtime,
            socket: match &self.socket {
                Some(s) => Some(s.clone()),
                None => None,
            },
        }
    }

    /// The SSH session settings for this server; `default_user` stands in when
    /// the configuration names no user.
    pub fn ssh_session_config(&self, default_user: &str) -> (r: SessionConfig)
        ensures
            r.host == self.host,
            r.port == self.port,
            r.user@ == match self.user {
                Some(u) => u@,
                None => default_user@,
            },
            r.trust_on_first_use == self.trust_first_connection,
            r.key_path is None,
            r.known_hosts_path is None,
    {
        let user = match &self.user {
            Some(u) => u.clone(),
            None => own(default_user),
        };
        SessionConfig::new(self.host.clone(), user).port(self.port).trust_on_first_use(
            self.trust_first_connection,
        )
    }

}

impl Duplicate for ServerConfig {
    fn duplicate(&self) -> (r: Self) {
        ServerConfig {
            host: self.host.clone(),
            port: self.port,
            user: match &self.user {
                Some(u) => Some(u.clone()),
                None => None,
            },
            runtime: self.runtime,
            socket: match &self.socket {
                Some(s) => Some(s.clone()),
                None => None,
            },
            trust_first_connection: self.trust_first_connection,
        }
    }
}

} // verus!

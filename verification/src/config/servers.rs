//! The non-empty list of servers a configuration deploys to.
use crate::config::server::ServerConfig;
use crate::strmap::Duplicate;
use nonempty::NonEmpty;
use vstd::prelude::*;

verus! {

#[verifier::external_type_specification]
#[verifier::external_body]
#[verifier::reject_recursive_types(T)]
pub struct ExNonEmpty<T>(NonEmpty<T>);

/// The servers a `NonEmpty` list holds, in order.
pub uninterp spec fn server_list(servers: NonEmpty<ServerConfig>) -> Seq<ServerConfig>;

/// `NonEmpty::new`: the list of just `s`.
#[verifier::external_body]
pub(crate) fn servers_single(s: ServerConfig) -> (r: NonEmpty<ServerConfig>)
    ensures
        server_list(r) == seq![s],
{
    NonEmpty::new(s)
}

/// `NonEmpty::from_vec`: `None` for an empty vector, else the same servers.
#[verifier::external_body]
pub(crate) fn servers_from_vec(v: Vec<ServerConfig>) -> (r: Option<NonEmpty<ServerConfig>>)
    ensures
        v@.len() == 0 <==> r is None,
        r is Some ==> server_list(r->0) == v@,
{
    NonEmpty::from_vec(v)
}

/// `NonEmpty::len`: never zero.
#[verifier::external_body]
pub(crate) fn servers_len(n: &NonEmpty<ServerConfig>) -> (r: usize)
    ensures
        r == server_list(*n).len(),
        r >= 1,
{
    n.len()
}

/// `NonEmpty::get`.
#[verifier::external_body]
pub(crate) fn servers_get(n: &NonEmpty<ServerConfig>, i: usize) -> (r: Option<&ServerConfig>)
    ensures
        i < server_list(*n).len() ==> r == Some(&server_list(*n)[i as int]),
        i >= server_list(*n).len() ==> r is None,
{
    n.get(i)
}

/// The server at `i`.
pub fn server_at(n: &NonEmpty<ServerConfig>, i: usize) -> (r: &ServerConfig)
    requires
        i < server_list(*n).len(),
    ensures
        *r == server_list(*n)[i as int],
{
    match servers_get(n, i) {
        Some(s) => s,
        None => {
            assert(false);
            servers_get(n, 0).unwrap()
        },
    }
}

/// A copy of the list, same servers in the same order.
pub fn servers_duplicate(n: &NonEmpty<ServerConfig>) -> (r: NonEmpty<ServerConfig>)
    ensures
        server_list(r) == server_list(*n),
{
    let len = servers_len(n);
    let mut v: Vec<ServerConfig> = Vec::new();
    let mut i: usize = 0;
    while i < len
        invariant
            len == server_list(*n).len(),
            len >= 1,
            i <= len,
            v@ == server_list(*n).take(i as int),
        decreases len - i,
    {
        let s = server_at(n, i);
        v.push(s.duplicate());
        i = i + 1;
        assert(v@ =~= server_list(*n).take(i as int));
    }
    assert(v@ =~= server_list(*n));
    match servers_from_vec(v) {
        Some(r) => r,
        None => {
            assert(false);
            servers_single(server_at(n, 0).duplicate())
        },
    }
}

/// A server as the configuration file lists it: `[user@]host[:port]`, or a
/// mapping with its settings.
#[derive(Debug)]
pub enum ServerEntry {
    Simple(String),
    Detailed(ServerConfig),
}

impl ServerEntry {
    /// The server an entry names; a short form that does not parse is an error.
    pub fn into_server_config(self) -> (r: Result<ServerConfig, String>)
        ensures
            match self {
                ServerEntry::Simple(s) => match crate::config::server::parse_server(s@) {
                    Ok((host, port, user)) => r is Ok && r->Ok_0.host@ == host && r->Ok_0.port == port
                        && crate::types::image_ref::opt_view(r->Ok_0.user) == user,
                    Err(m) => r is Err && r->Err_0@ == m,
                },
                ServerEntry::Detailed(c) => r == Ok::<ServerConfig, String>(c),
            },
    {
        match self {
            ServerEntry::Simple(s) => ServerConfig::parse(s.as_str()),
            ServerEntry::Detailed(c) => Ok(c),
        }
    }
}

/// The servers of a list of entries, in order: the first entry that does not
/// parse is the error, and an empty list is the error `empty_message`.
pub fn servers_from_entries(entries: Vec<ServerEntry>, empty_message: &str) -> (r: Result<NonEmpty<ServerConfig>, String>)
    ensures
        (r is Ok) <==> (entries@.len() > 0 && forall|i: int| 0 <= i < entries@.len() ==> entry_parses(
            #[trigger] entries@[i],
        )),
        entries@.len() == 0 ==> (r matches Err(m) && m@ == empty_message@),
        r matches Ok(n) ==> server_list(n).len() == entries@.len(),
        r is Err && entries@.len() > 0 ==> exists|k: int|
            0 <= k < entries@.len() && !entry_parses(#[trigger] entries@[k]) && (forall|j: int|
                0 <= j < k ==> entry_parses(#[trigger] entries@[j])) && (entries@[k] matches ServerEntry::Simple(
                t,
            ) && crate::config::server::parse_server(t@) == Err::<(Seq<char>, u16, Option<Seq<char>>), Seq<char>>(r->Err_0@)),
{
    let ghost orig = entries@;
    let n = entries.len();
    let mut rest = entries;
    let mut out: Vec<ServerConfig> = Vec::new();
    let mut i: usize = 0;
    while rest.len() > 0
        invariant
            orig == entries@,
            orig.len() == n,
            i + rest@.len() == n,
            rest@ == orig.subrange(i as int, n as int),
            out@.len() == i,
            forall|j: int| 0 <= j < i ==> entry_parses(#[trigger] orig[j]),
        decreases rest.len(),
    {
        let e = rest.remove(0);
        assert(orig[i as int] == e);
        match e.into_server_config() {
            Ok(c) => {
                out.push(c);
            },
            Err(m) => {
                assert(!entry_parses(orig[i as int]));
                return Err(m);
            },
        }
        i = i + 1;
        assert(rest@ =~= orig.subrange(i as int, n as int));
    }
    match servers_from_vec(out) {
        Some(ne) => Ok(ne),
        None => Err(String::from_str(empty_message)),
    }
}

/// Whether an entry names a server.
pub open spec fn entry_parses(e: ServerEntry) -> bool {
    match e {
        ServerEntry::Simple(s) => crate::config::server::parse_server(s@) is Ok,
        ServerEntry::Detailed(_) => true,
    }
}

} // verus!

//! The runtime reached through the Docker-compatible HTTP API (Docker, and
//! Podman's compatibility service), with Podman's own API for pulls. Here are
//! the client, and the decisions around each call: what is asked of the API,
//! and what is made of its answers. The calls themselves are made by the
//! caller, who hands over the answers as plain values.
use crate::runtime::api_error::ApiError;
use crate::config::config::same_opt_vec;
use crate::runtime::traits::{
    ContainerConfig, HealthcheckConfig, PortMapping, Protocol, RestartPolicyConfig, VolumeMount,
    ContainerError, ContainerFilters, ContainerInfo, ContainerState, ContainerSummary, ExecError,
    ExecInfo, ExecResult, HealthState, ImageError, NetworkInfo, NetworkSettings, RuntimeInfoError,
    RuntimeMetadata,
};
use crate::runtime::types::{RuntimeInfo, RuntimeType};
use crate::ssh::error::ssh_error_text;
use crate::ssh::{CommandOutput, Error as SshError};
use crate::strmap::{Duplicate, StrMap};
use crate::text::{
    ascii_lower, contains, dec, dec_string, join2, join3, own, str_contains, to_ascii_lower, trim,
    trimmed,
};
use crate::types::image_ref::display_image_ref;
use crate::types::{ContainerId, NetworkAlias};
use std::time::Duration;
use vstd::prelude::*;

verus! {

#[verifier::external_type_specification]
#[verifier::external_body]
pub struct ExDocker(bollard::Docker);

/// `Docker::connect_with_unix(path, 120, API_DEFAULT_VERSION)`: a client for
/// the socket at `path` (less a `unix://` prefix), with requests timing out
/// after two minutes. It fails where no socket exists there, so what is on
/// disk decides the outcome. An error is given as plain values: for
/// `DockerResponseServerError` its status code and message, whose `Display` is
/// `Docker responded with status code <code>: <message>`; for the others no
/// status, an empty message, and the error's `Display`.
#[verifier::external_body]
fn connect_unix(path: &str) -> (r: Result<bollard::Docker, ApiError>)
    ensures
        r matches Err(e) ==> match e.status {
            Some(c) => e.text@ == "Docker responded with status code "@ + dec(c as nat) + ": "@
                + e.message@,
            None => e.message@.len() == 0,
        },
{
    match bollard::Docker::connect_with_unix(path, 120, bollard::API_DEFAULT_VERSION) {
        Ok(d) => Ok(d),
        Err(e) => {
            let text = e.to_string();
            match e {
                bollard::errors::Error::DockerResponseServerError { status_code, message } => Err(
                    ApiError { status: Some(status_code), message, text },
                ),
                _ => Err(ApiError { status: None, message: String::new(), text }),
            }
        },
    }
}

/// `API_DEFAULT_VERSION.to_string()`: bollard 0.21 speaks API version 1.53.
#[verifier::external_body]
fn api_default_version() -> (r: String)
    ensures
        r@ == "1.53"@,
{
    bollard::API_DEFAULT_VERSION.to_string()
}

/// The runtime behind the Docker-compatible API.
#[derive(Debug)]
pub struct BollardRuntime {
    client: bollard::Docker,
    runtime_type: RuntimeType,
    socket_path: Option<String>,
}

impl BollardRuntime {
    /// The API client.
    pub closed spec fn spec_client(&self) -> bollard::Docker {
        self.client
    }

    pub closed spec fn spec_runtime_type(&self) -> RuntimeType {
        self.runtime_type
    }

    pub closed spec fn spec_socket_path(&self) -> Option<Seq<char>> {
        match self.socket_path {
            Some(s) => Some(s@),
            None => None,
        }
    }

    /// A runtime of type `runtime_type` reached through `client`, without a
    /// socket for Podman's own API.
    pub fn new(client: bollard::Docker, runtime_type: RuntimeType) -> (r: Self)
        ensures
            r.spec_client() == client,
            r.spec_runtime_type() == runtime_type,
            r.spec_socket_path() is None,
    {
        BollardRuntime { client, runtime_type, socket_path: None }
    }

    /// A runtime reached through `client`, whose socket at `socket_path` also
    /// serves Podman's own API.
    pub fn new_with_socket(client: bollard::Docker, runtime_type: RuntimeType, socket_path: String) -> (r:
        Self)
        ensures
            r.spec_client() == client,
            r.spec_runtime_type() == runtime_type,
            r.spec_socket_path() == Some(socket_path@),
    {
        BollardRuntime { client, runtime_type, socket_path: Some(socket_path) }
    }

    /// Connects to the runtime that detection found. A failure to reach its
    /// socket is a connection failure with the client's message.
    pub fn connect(info: &RuntimeInfo) -> (r: Result<Self, RuntimeInfoError>)
        ensures
            r matches Ok(rt) ==> rt.spec_runtime_type() == info.runtime_type && rt.spec_socket_path()
                == Some(info.socket_path@),
            r matches Err(e) ==> e is ConnectionFailed,
    {
        match connect_unix(info.socket_path.as_str()) {
            Ok(client) => Ok(BollardRuntime::new_with_socket(client, info.runtime_type, info.socket_path.clone())),
            Err(e) => Err(RuntimeInfoError::ConnectionFailed(e.text)),
        }
    }

    /// Docker or Podman.
    pub fn runtime_type(&self) -> (r: RuntimeType)
        ensures
            r == self.spec_runtime_type(),
    {
        self.runtime_type
    }

    /// The API client.
    pub fn client(&self) -> (r: &bollard::Docker)
        ensures
            *r == self.spec_client(),
    {
        &self.client
    }

    /// The socket, when Podman's own API can be reached through it.
    pub fn socket_path(&self) -> (r: Option<&str>)
        ensures
            match self.spec_socket_path() {
                Some(s) => r matches Some(x) && x@ == s,
                None => r is None,
            },
    {
        match &self.socket_path {
            Some(s) => Some(s.as_str()),
            None => None,
        }
    }

    /// Whether images are pulled through Podman's own API, which can pull from
    /// registries without TLS: for Podman, when its socket is known.
    pub fn pulls_through_libpod(&self) -> (r: bool)
        ensures
            r == (self.spec_runtime_type() == RuntimeType::Podman && self.spec_socket_path() is Some),
    {
        self.runtime_type == RuntimeType::Podman && self.socket_path.is_some()
    }

    /// What `info` reports: the runtime's name, the server's version, operating
    /// system and architecture (empty where the server did not say), and the API
    /// version the client speaks.
    pub fn metadata(
        &self,
        server_version: Option<String>,
        os: Option<String>,
        arch: Option<String>,
    ) -> (r: RuntimeMetadata)
        ensures
            r.name@ == match self.spec_runtime_type() {
                RuntimeType::Docker => "Docker"@,
                RuntimeType::Podman => "Podman"@,
            },
            r.version@ == or_empty(server_version),
            r.os@ == or_empty(os),
            r.arch@ == or_empty(arch),
            r.api_version@ == "1.53"@,
    {
        let name = match self.runtime_type {
            RuntimeType::Docker => own("Docker"),
            RuntimeType::Podman => own("Podman"),
        };
        RuntimeMetadata {
            name,
            version: unwrap_or_empty(server_version),
            api_version: api_default_version(),
            os: unwrap_or_empty(os),
            arch: unwrap_or_empty(arch),
        }
    }
}

/// The text, or nothing.
pub open spec fn or_empty(s: Option<String>) -> Seq<char> {
    match s {
        Some(t) => t@,
        None => Seq::empty(),
    }
}

fn unwrap_or_empty(s: Option<String>) -> (r: String)
    ensures
        r@ == or_empty(s),
{
    match s {
        Some(t) => t,
        None => String::new(),
    }
}

// ---------------------------------------------------------------------------
// Pulling through Podman's own API
// ---------------------------------------------------------------------------

/// What `urlencoding::encode` returns for `s`.
pub uninterp spec fn url_encoded(s: Seq<char>) -> Seq<char>;

/// The two upper-case hexadecimal digits of a byte.
pub open spec fn hex_byte(b: nat) -> Seq<char> {
    seq![hex_digit(b / 16), hex_digit(b % 16)]
}

pub open spec fn hex_digit(d: nat) -> char {
    if d < 10 {
        (('0' as nat) + d) as char
    } else {
        (('A' as nat) + d - 10) as char
    }
}

/// Characters that URL encoding keeps as they are.
pub open spec fn is_unreserved(c: char) -> bool {
    crate::text::is_alnum(c) || c == '-' || c == '_' || c == '.' || c == '~'
}

/// The URL encoding of ASCII text: unreserved characters kept, every other one
/// written `%XX`.
pub open spec fn ascii_url_encoding(s: Seq<char>) -> Seq<char>
    decreases s.len(),
{
    if s.len() == 0 {
        Seq::empty()
    } else {
        ascii_url_encoding(s.drop_last()) + if is_unreserved(s.last()) {
            seq![s.last()]
        } else {
            seq!['%'] + hex_byte(s.last() as nat)
        }
    }
}

/// `urlencoding::encode`: percent-encodes each UTF-8 byte of `s` except ASCII
/// letters, digits and `-_.~`; for ASCII text that is `ascii_url_encoding`.
#[verifier::external_body]
fn url_encode(s: &str) -> (r: String)
    ensures
        r@ == url_encoded(s@),
        (forall|i: int| 0 <= i < s@.len() ==> (#[trigger] s@[i] as nat) < 128) ==> r@
            == ascii_url_encoding(s@),
{
    urlencoding::encode(s).into_owned()
}

/// The request path that pulls `image_name` through Podman's own API, allowing
/// registries without TLS.
pub fn libpod_pull_path(image_name: &str) -> (r: String)
    ensures
        r@ == "/v4.0.0/libpod/images/pull?reference="@ + url_encoded(image_name@)
            + "&tlsVerify=false"@,
{
    let enc = url_encode(image_name);
    join3("/v4.0.0/libpod/images/pull?reference=", enc.as_str(), "&tlsVerify=false")
}

/// Whether a pull's response body reports an error: it holds an `"error"`
/// field that is not `"error":null`.
pub open spec fn body_reports_error(body: Seq<char>) -> bool {
    contains(body, "\"error\""@) && !contains(body, "\"error\":null"@)
}

/// The outcome of a pull through Podman's own API, from whether the response
/// status was a success and the response body.
pub fn libpod_pull_outcome(image_name: &str, status_ok: bool, body: &str) -> (r: Result<(), ImageError>)
    ensures
        !status_ok ==> (r matches Err(ImageError::PullFailed(m)) && m@ == image_name@
            + ": libpod API error: "@ + body@),
        status_ok && body_reports_error(body@) ==> (r matches Err(ImageError::PullFailed(m)) && m@
            == image_name@ + ": "@ + body@),
        status_ok && !body_reports_error(body@) ==> r is Ok,
{
    if !status_ok {
        let mut m = join2(image_name, ": libpod API error: ");
        m.append(body);
        return Err(ImageError::PullFailed(m));
    }
    if str_contains(body, "\"error\"") && !str_contains(body, "\"error\":null") {
        return Err(ImageError::PullFailed(join3(image_name, ": ", body)));
    }
    Ok(())
}

// ---------------------------------------------------------------------------
// Reaching the runtime over SSH
// ---------------------------------------------------------------------------

/// The command that tells whether rootful Podman's socket exists.
pub fn rootful_podman_check() -> (r: &'static str)
    ensures
        r@ == "test -S /run/podman/podman.sock && echo exists"@,
{
    "test -S /run/podman/podman.sock && echo exists"
}

/// Whether the check found rootful Podman's socket; a failed check counts as
/// not found.
pub fn rootful_podman_found(check: &Result<CommandOutput, SshError>) -> (r: bool)
    ensures
        r == (check matches Ok(out) && contains(out.stdout@, "exists"@)),
{
    match check {
        Ok(out) => str_contains(out.stdout.as_str(), "exists"),
        Err(_) => false,
    }
}

/// Rootless Podman's socket for the user whose id `id -u` printed.
pub fn rootless_podman_socket(uid_output: Result<CommandOutput, SshError>) -> (r: Result<String, RuntimeInfoError>)
    ensures
        match uid_output {
            Ok(out) => r matches Ok(s) && s@ == "/run/user/"@ + trim(out.stdout@) + "/podman/podman.sock"@,
            Err(e) => r matches Err(RuntimeInfoError::ConnectionFailed(m)) && m@ == ssh_error_text(e),
        },
{
    match uid_output {
        Ok(out) => {
            let uid = trimmed(out.stdout.as_str());
            Ok(join3("/run/user/", uid.as_str(), "/podman/podman.sock"))
        },
        Err(e) => Err(RuntimeInfoError::ConnectionFailed(e.to_string())),
    }
}

// ---------------------------------------------------------------------------
// Health checks and detached commands
// ---------------------------------------------------------------------------

/// A health check run as a command: healthy exactly when it exits with 0.
pub fn healthcheck_outcome(run: Result<ExecResult, ExecError>) -> (r: Result<bool, ContainerError>)
    ensures
        match run {
            Ok(res) => r == Ok::<bool, ContainerError>(res.exit_code == 0),
            Err(e) => r matches Err(ContainerError::Runtime(m)) && m@ == "healthcheck exec failed: "@
                + crate::runtime::traits::exec_error_text(e),
        },
{
    match run {
        Ok(res) => Ok(res.exit_code == 0),
        Err(e) => {
            let m = e.to_string();
            Err(ContainerError::Runtime(join2("healthcheck exec failed: ", m.as_str())))
        },
    }
}

/// One poll of a command started detached (Podman's attached streams may not
/// close): done when it no longer runs, with its exit code (0 when none was
/// reported) and no output; a failure when it runs past the five minutes
/// allowed; otherwise, poll again.
pub fn detached_exec_poll(info: &ExecInfo, overdue: bool) -> (r: Option<Result<ExecResult, ExecError>>)
    ensures
        !info.running ==> (r matches Some(Ok(res)) && res.exit_code == match info.exit_code {
            Some(c) => c,
            None => 0,
        } && res.stdout@.len() == 0 && res.stderr@.len() == 0),
        info.running && overdue ==> (r matches Some(Err(ExecError::Failed(m))) && m@ == "exec timed out"@),
        info.running && !overdue ==> r is None,
{
    if !info.running {
        let exit_code = match info.exit_code {
            Some(c) => c,
            None => 0,
        };
        return Some(Ok(ExecResult { exit_code, stdout: Vec::new(), stderr: Vec::new() }));
    }
    if overdue {
        return Some(Err(ExecError::Failed(own("exec timed out"))));
    }
    None
}

// ---------------------------------------------------------------------------
// Listing and inspecting containers
// ---------------------------------------------------------------------------

/// `s` without its leading `/` characters (`trim_start_matches('/')`).
pub open spec fn strip_slashes(s: Seq<char>) -> Seq<char>
    decreases s.len(),
{
    if s.len() > 0 && s[0] == '/' {
        strip_slashes(s.drop_first())
    } else {
        s
    }
}

fn strip_leading_slashes(s: &str) -> (r: String)
    ensures
        r@ == strip_slashes(s@),
{
    let v = crate::text::chars_of(s);
    let mut i: usize = 0;
    assert(s@.subrange(0, s@.len() as int) =~= s@);
    while i < v.len() && v[i] == '/'
        invariant
            v@ == s@,
            i <= v@.len(),
            strip_slashes(s@) == strip_slashes(s@.subrange(i as int, s@.len() as int)),
        decreases v.len() - i,
    {
        assert(s@.subrange(i as int, s@.len() as int).drop_first() =~= s@.subrange(i + 1, s@.len() as int));
        i = i + 1;
    }
    assert(i < v@.len() ==> s@.subrange(i as int, s@.len() as int)[0] == v@[i as int]);
    crate::text::substring(s, i, v.len())
}

/// The filters of a container listing: `name` with the name, if any, and
/// `label` with `key=value` for each label, if any.
pub fn list_filters(filters: &ContainerFilters) -> (r: StrMap<Vec<String>>)
    ensures
        r@.contains_key("name"@) <==> filters.name is Some,
        filters.name matches Some(n) ==> r@["name"@]@.len() == 1 && r@["name"@]@[0] == n,
        r@.contains_key("label"@) <==> filters.labels@.len() > 0,
        r@.contains_key("label"@) ==> label_filter(r@["label"@]@, filters.labels),
        r@.dom().subset_of(set!["name"@, "label"@]),
{
    let mut m: StrMap<Vec<String>> = StrMap::new();
    proof {
        reveal_strlit("name");
        reveal_strlit("label");
        assert("name"@.len() != "label"@.len());
    }
    match &filters.name {
        Some(n) => {
            let mut v: Vec<String> = Vec::new();
            v.push(n.clone());
            m.insert(own("name"), v);
        },
        None => {},
    }
    let labels = &filters.labels;
    labels.lemma_seqs();
    if labels.len() > 0 {
        let mut v: Vec<String> = Vec::new();
        let mut i: usize = 0;
        while i < labels.len()
            invariant
                i <= labels.key_seq().len(),
                labels.key_seq().len() == labels.value_seq().len(),
                v@.len() == i,
                forall|j: int| 0 <= j < i ==> (#[trigger] v@[j])@ == labels.key_seq()[j] + "="@
                    + labels.value_seq()[j]@,
            decreases labels.key_seq().len() - i,
        {
            let s = join3(labels.key_at(i).as_str(), "=", labels.value_at(i).as_str());
            v.push(s);
            i = i + 1;
        }
        m.insert(own("label"), v);
    }
    assert(m@.dom().subset_of(set!["name"@, "label"@]));
    m
}

/// The label filter holds `key=value` for each label, in the labels' order.
pub open spec fn label_filter(v: Seq<String>, labels: StrMap<String>) -> bool {
    &&& v.len() == labels.key_seq().len()
    &&& forall|j: int| 0 <= j < v.len() ==> (#[trigger] v[j])@ == labels.key_seq()[j] + "="@
        + labels.value_seq()[j]@
}

/// Whether a failed listing is worth retrying: Podman reports the transient
/// states `stopping` and `stopped`, which the client cannot read, and the
/// listing is tried three times in all.
pub fn list_should_retry(error_text: &str, attempt: u32) -> (r: bool)
    ensures
        r == ((contains(error_text@, "unknown variant `stopping`"@) || contains(
            error_text@,
            "unknown variant `stopped`"@,
        )) && attempt < 2),
{
    (str_contains(error_text, "unknown variant `stopping`") || str_contains(
        error_text,
        "unknown variant `stopped`",
    )) && attempt < 2
}

/// A listed container as the API reports it, each field possibly absent; the
/// state is the name of the API's state value (such as `RUNNING`).
#[derive(Debug)]
pub struct RawSummary {
    pub id: Option<String>,
    pub names: Option<Vec<String>>,
    pub image: Option<String>,
    pub state: Option<String>,
    pub status: Option<String>,
    pub labels: Option<StrMap<String>>,
}

/// A listed container: absent fields empty, the first name without its leading
/// `/`, the state in lower case.
pub fn summary_from(raw: RawSummary) -> (r: ContainerSummary)
    ensures
        r.id@ == or_empty(raw.id),
        r.name@ == match raw.names {
            Some(ns) => if ns@.len() > 0 {
                strip_slashes(ns@[0]@)
            } else {
                Seq::empty()
            },
            None => Seq::empty(),
        },
        r.image@ == or_empty(raw.image),
        r.state@ == ascii_lower(or_empty(raw.state)),
        r.status@ == or_empty(raw.status),
        r.labels@ == match raw.labels {
            Some(l) => l@,
            None => Map::<Seq<char>, String>::empty(),
        },
{
    let name = match &raw.names {
        Some(ns) => if ns.len() > 0 {
            strip_leading_slashes(ns[0].as_str())
        } else {
            String::new()
        },
        None => String::new(),
    };
    let state = unwrap_or_empty(raw.state);
    let labels = match raw.labels {
        Some(l) => l,
        None => StrMap::new(),
    };
    ContainerSummary {
        id: ContainerId::new(unwrap_or_empty(raw.id)),
        name,
        image: unwrap_or_empty(raw.image),
        state: to_ascii_lower(state.as_str()),
        status: unwrap_or_empty(raw.status),
        labels,
    }
}

/// A container's endpoint on a network as the API reports it.
#[derive(Debug)]
pub struct RawEndpoint {
    pub network_id: Option<String>,
    pub ip_address: Option<String>,
    pub gateway: Option<String>,
    pub aliases: Option<Vec<String>>,
}

/// An inspected container as the API reports it; `state` and `health` are the
/// API's values in lower case (such as `running`, `healthy`).
#[derive(Debug)]
pub struct RawDetails {
    pub name: Option<String>,
    pub image: Option<String>,
    pub state: Option<String>,
    pub health: Option<String>,
    pub created: Option<String>,
    pub labels: Option<StrMap<String>>,
    pub networks: Option<StrMap<RawEndpoint>>,
}

/// The container state an API state value stands for; values without a
/// counterpart, and a missing state, count as exited.
pub open spec fn state_of(s: Option<String>) -> ContainerState {
    match s {
        Some(t) => if t@ == "created"@ {
            ContainerState::Created
        } else if t@ == "running"@ {
            ContainerState::Running
        } else if t@ == "paused"@ {
            ContainerState::Paused
        } else if t@ == "restarting"@ {
            ContainerState::Restarting
        } else if t@ == "removing"@ {
            ContainerState::Removing
        } else if t@ == "dead"@ {
            ContainerState::Dead
        } else {
            ContainerState::Exited
        },
        None => ContainerState::Exited,
    }
}

/// The health an API health value stands for; values without a counterpart
/// mean no health is reported.
pub open spec fn health_of(s: Option<String>) -> Option<HealthState> {
    match s {
        Some(t) => Some(
            if t@ == "starting"@ {
                HealthState::Starting
            } else if t@ == "healthy"@ {
                HealthState::Healthy
            } else if t@ == "unhealthy"@ {
                HealthState::Unhealthy
            } else {
                HealthState::NotReported
            },
        ),
        None => None,
    }
}

fn state_from(s: &Option<String>) -> (r: ContainerState)
    ensures
        r == state_of(*s),
{
    match s {
        Some(t) => {
            let t = t.as_str();
            if crate::text::str_eq(t, "created") {
                ContainerState::Created
            } else if crate::text::str_eq(t, "running") {
                ContainerState::Running
            } else if crate::text::str_eq(t, "paused") {
                ContainerState::Paused
            } else if crate::text::str_eq(t, "restarting") {
                ContainerState::Restarting
            } else if crate::text::str_eq(t, "removing") {
                ContainerState::Removing
            } else if crate::text::str_eq(t, "dead") {
                ContainerState::Dead
            } else {
                ContainerState::Exited
            }
        },
        None => ContainerState::Exited,
    }
}

fn health_from(s: &Option<String>) -> (r: Option<HealthState>)
    ensures
        r == health_of(*s),
{
    match s {
        Some(t) => {
            let t = t.as_str();
            Some(
                if crate::text::str_eq(t, "starting") {
                    HealthState::Starting
                } else if crate::text::str_eq(t, "healthy") {
                    HealthState::Healthy
                } else if crate::text::str_eq(t, "unhealthy") {
                    HealthState::Unhealthy
                } else {
                    HealthState::NotReported
                },
            )
        },
        None => None,
    }
}

/// An endpoint with its absent fields empty.
pub open spec fn endpoint_matches(n: NetworkInfo, e: RawEndpoint) -> bool {
    &&& n.network_id@ == or_empty(e.network_id)
    &&& n.ip_address@ == or_empty(e.ip_address)
    &&& n.gateway@ == or_empty(e.gateway)
    &&& n.aliases@ == match e.aliases {
        Some(a) => a@,
        None => Seq::empty(),
    }
}

fn network_info_from(e: RawEndpoint) -> (r: NetworkInfo)
    ensures
        endpoint_matches(r, e),
{
    NetworkInfo {
        network_id: unwrap_or_empty(e.network_id),
        ip_address: unwrap_or_empty(e.ip_address),
        gateway: unwrap_or_empty(e.gateway),
        aliases: match e.aliases {
            Some(a) => a,
            None => Vec::new(),
        },
    }
}

/// Information about container `id` from what inspecting it reported: absent
/// fields empty, the name without its leading `/`.
pub fn container_info_from(id: ContainerId, raw: RawDetails) -> (r: ContainerInfo)
    ensures
        r.id@ == id@,
        r.name@ == strip_slashes(or_empty(raw.name)),
        r.image@ == or_empty(raw.image),
        r.state == state_of(raw.state),
        r.health == health_of(raw.health),
        r.created@ == or_empty(raw.created),
        r.labels@ == match raw.labels {
            Some(l) => l@,
            None => Map::<Seq<char>, String>::empty(),
        },
        match raw.networks {
            Some(n) => r.network_settings.networks@.dom() == n@.dom() && forall|k: Seq<char>|
                #[trigger] n@.contains_key(k) ==> endpoint_matches(
                    r.network_settings.networks@[k],
                    n@[k],
                ),
            None => r.network_settings.networks@.len() == 0,
        },
{
    proof {
        reveal_strlit("created");
        reveal_strlit("running");
        reveal_strlit("paused");
        reveal_strlit("restarting");
        reveal_strlit("removing");
        reveal_strlit("dead");
    }
    let state = state_from(&raw.state);
    let health = health_from(&raw.health);
    let name = match &raw.name {
        Some(n) => strip_leading_slashes(n.as_str()),
        None => String::new(),
    };
    let networks = match raw.networks {
        Some(n) => networks_from(n),
        None => StrMap::new(),
    };
    ContainerInfo {
        id,
        name,
        image: unwrap_or_empty(raw.image),
        state,
        health,
        created: unwrap_or_empty(raw.created),
        labels: match raw.labels {
            Some(l) => l,
            None => StrMap::new(),
        },
        network_settings: NetworkSettings { networks },
    }
}

fn networks_from(raw: StrMap<RawEndpoint>) -> (r: StrMap<NetworkInfo>)
    ensures
        r@.dom() == raw@.dom(),
        forall|k: Seq<char>| #[trigger] raw@.contains_key(k) ==> endpoint_matches(r@[k], raw@[k]),
{
    let ghost orig = raw@;
    let mut rest = raw;
    let mut out: StrMap<NetworkInfo> = StrMap::new();
    while rest.len() > 0
        invariant
            forall|k: Seq<char>| #[trigger] orig.contains_key(k) <==> (rest@.contains_key(k) || out@.contains_key(k)),
            forall|k: Seq<char>| #[trigger] rest@.contains_key(k) ==> !out@.contains_key(k) && orig.contains_key(k) && rest@[k] == orig[k],
            forall|k: Seq<char>| #[trigger] out@.contains_key(k) ==> endpoint_matches(out@[k], orig[k]),
        decreases rest@.len(),
    {
        let (k, e) = rest.pop();
        let info = network_info_from(e);
        out.insert(k, info);
    }
    rest.lemma_seqs();
    assert(out@.dom() =~= orig.dom()) by {
        assert forall|k: Seq<char>| #[trigger] orig.contains_key(k) implies out@.contains_key(k) by {
            if rest@.contains_key(k) {
                assert(rest.key_seq().contains(k));
            }
        }
    }
    out
}

// ---------------------------------------------------------------------------
// Creating containers
// ---------------------------------------------------------------------------

/// The API's restart policy names.
#[derive(Debug, Clone, Copy, PartialEq, Eq, Structural)]
pub enum RestartName {
    No,
    Always,
    UnlessStopped,
    OnFailure,
}

/// Where a published port is bound on the host.
#[derive(Debug)]
pub struct PortBindingSpec {
    /// The host address, when one is set.
    pub host_ip: Option<String>,
    /// The host port, in decimal.
    pub host_port: String,
}

/// A container creation request of the Docker API, as plain values. Empty
/// lists and maps are left out; the durations and the CPU quota are converted
/// by the caller into the API's units.
#[derive(Debug)]
pub struct CreateRequest {
    pub name: String,
    pub image: String,
    /// `KEY=value` for each variable.
    pub env: Option<Vec<String>>,
    pub labels: Option<StrMap<String>>,
    pub cmd: Option<Vec<String>>,
    pub entrypoint: Option<Vec<String>>,
    pub working_dir: Option<String>,
    pub user: Option<String>,
    pub restart_name: RestartName,
    pub restart_max_retries: Option<i64>,
    pub memory: Option<i64>,
    pub cpus: Option<String>,
    /// Bind mounts.
    pub mounts: Option<Vec<VolumeMount>>,
    /// Bindings by `<container port>/<protocol>`.
    pub port_bindings: Option<StrMap<PortBindingSpec>>,
    /// `<container port>/<protocol>` for each port.
    pub exposed_ports: Option<Vec<String>>,
    pub network_mode: Option<String>,
    pub healthcheck: Option<HealthcheckConfig>,
    /// The network to join on creation, with the aliases to have there.
    pub endpoint: Option<(String, Vec<String>)>,
    pub stop_timeout: Option<Duration>,
}

/// The text, if any.
pub open spec fn opt_text(o: Option<String>) -> Option<Seq<char>> {
    match o {
        Some(s) => Some(s@),
        None => None,
    }
}

/// A protocol's name in a port key.
pub open spec fn protocol_name(p: Protocol) -> Seq<char> {
    match p {
        Protocol::Tcp => "tcp"@,
        Protocol::Udp => "udp"@,
    }
}

/// `<container port>/<protocol>`.
pub open spec fn port_key(p: PortMapping) -> Seq<char> {
    dec(p.container_port as nat) + "/"@ + protocol_name(p.protocol)
}

/// The port bindings of `ports`, as host address and host port by key; a later
/// port with the same key replaces an earlier one.
pub open spec fn binding_map(ports: Seq<PortMapping>) -> Map<Seq<char>, (Option<Seq<char>>, Seq<char>)>
    decreases ports.len(),
{
    if ports.len() == 0 {
        Map::empty()
    } else {
        let m = binding_map(ports.drop_last());
        let p = ports.last();
        match p.host_port {
            Some(h) => m.insert(port_key(p), (opt_text(p.host_ip), dec(h as nat))),
            None => m,
        }
    }
}

/// A binding as plain values.
pub open spec fn binding_view(b: PortBindingSpec) -> (Option<Seq<char>>, Seq<char>) {
    (opt_text(b.host_ip), b.host_port@)
}

/// `KEY=value` for each entry of `env`, in its order.
pub open spec fn env_entries(v: Seq<String>, env: StrMap<String>) -> bool {
    &&& v.len() == env.key_seq().len()
    &&& forall|j: int| 0 <= j < v.len() ==> (#[trigger] v[j])@ == env.key_seq()[j] + "="@
        + env.value_seq()[j]@
}

fn env_list(env: &StrMap<String>) -> (r: Vec<String>)
    ensures
        env_entries(r@, *env),
{
    env.lemma_seqs();
    let mut v: Vec<String> = Vec::new();
    let mut i: usize = 0;
    while i < env.len()
        invariant
            i <= env.key_seq().len(),
            env.key_seq().len() == env.value_seq().len(),
            v@.len() == i,
            forall|j: int| 0 <= j < i ==> (#[trigger] v@[j])@ == env.key_seq()[j] + "="@
                + env.value_seq()[j]@,
        decreases env.key_seq().len() - i,
    {
        v.push(join3(env.key_at(i).as_str(), "=", env.value_at(i).as_str()));
        i = i + 1;
    }
    v
}

fn protocol_text(p: Protocol) -> (r: &'static str)
    ensures
        r@ == protocol_name(p),
{
    match p {
        Protocol::Tcp => "tcp",
        Protocol::Udp => "udp",
    }
}

fn port_requests(ports: &Vec<PortMapping>) -> (r: (Vec<String>, StrMap<PortBindingSpec>))
    ensures
        r.0@.len() == ports@.len(),
        forall|i: int| 0 <= i < ports@.len() ==> (#[trigger] r.0@[i])@ == port_key(ports@[i]),
        r.1@.dom() == binding_map(ports@).dom(),
        forall|k: Seq<char>| #[trigger] r.1@.contains_key(k) ==> binding_view(r.1@[k]) == binding_map(ports@)[k],
{
    let mut exposed: Vec<String> = Vec::new();
    let mut bindings: StrMap<PortBindingSpec> = StrMap::new();
    let mut i: usize = 0;
    while i < ports.len()
        invariant
            i <= ports@.len(),
            exposed@.len() == i,
            forall|j: int| 0 <= j < i ==> (#[trigger] exposed@[j])@ == port_key(ports@[j]),
            bindings@.dom() == binding_map(ports@.subrange(0, i as int)).dom(),
            forall|k: Seq<char>| #[trigger] bindings@.contains_key(k) ==> binding_view(bindings@[k])
                == binding_map(ports@.subrange(0, i as int))[k],
        decreases ports.len() - i,
    {
        let p = &ports[i];
        assert(ports@.subrange(0, i + 1).drop_last() =~= ports@.subrange(0, i as int));
        let mut key = dec_string(p.container_port as u64);
        key.append("/");
        key.append(protocol_text(p.protocol));
        match p.host_port {
            Some(h) => {
                let spec = PortBindingSpec { host_ip: p.host_ip.duplicate(), host_port: dec_string(h as u64) };
                bindings.insert(key.clone(), spec);
            },
            None => {},
        }
        exposed.push(key);
        i = i + 1;
        assert(bindings@.dom() =~= binding_map(ports@.subrange(0, i as int)).dom());
    }
    assert(ports@.subrange(0, i as int) =~= ports@);
    (exposed, bindings)
}

fn dup_mounts(v: &Vec<VolumeMount>) -> (r: Vec<VolumeMount>)
    ensures
        r@.len() == v@.len(),
        forall|i: int| 0 <= i < v@.len() ==> (#[trigger] r@[i]).source@ == v@[i].source@ && r@[i].target@
            == v@[i].target@ && r@[i].read_only == v@[i].read_only,
{
    let mut out: Vec<VolumeMount> = Vec::new();
    let mut i: usize = 0;
    while i < v.len()
        invariant
            i <= v@.len(),
            out@.len() == i,
            forall|j: int| 0 <= j < i ==> (#[trigger] out@[j]).source@ == v@[j].source@ && out@[j].target@
                == v@[j].target@ && out@[j].read_only == v@[j].read_only,
        decreases v.len() - i,
    {
        out.push(VolumeMount { source: v[i].source.clone(), target: v[i].target.clone(), read_only: v[i].read_only });
        i = i + 1;
    }
    out
}

fn alias_texts(aliases: &Vec<NetworkAlias>) -> (r: Vec<String>)
    ensures
        r@.len() == aliases@.len(),
        forall|i: int| 0 <= i < aliases@.len() ==> (#[trigger] r@[i])@ == aliases@[i]@,
{
    let mut out: Vec<String> = Vec::new();
    let mut i: usize = 0;
    while i < aliases.len()
        invariant
            i <= aliases@.len(),
            out@.len() == i,
            forall|j: int| 0 <= j < i ==> (#[trigger] out@[j])@ == aliases@[j]@,
        decreases aliases.len() - i,
    {
        out.push(aliases[i].to_string());
        i = i + 1;
    }
    out
}

fn dup_healthcheck(h: &HealthcheckConfig) -> (r: HealthcheckConfig)
    ensures
        r.test@ == h.test@,
        r.interval == h.interval,
        r.timeout == h.timeout,
        r.retries == h.retries,
        r.start_period == h.start_period,
{
    HealthcheckConfig {
        test: crate::strmap::dup_vec(&h.test),
        interval: h.interval,
        timeout: h.timeout,
        retries: h.retries,
        start_period: h.start_period,
    }
}

/// The request that creates the container `c` describes.
pub open spec fn create_request_for(r: CreateRequest, c: ContainerConfig) -> bool {
    &&& r.name@ == c.name@
    &&& r.image@ == display_image_ref(c.image@)
    &&& (r.env is Some <==> c.env@.len() > 0)
    &&& (r.env matches Some(e) ==> env_entries(e@, c.env))
    &&& (r.labels is Some <==> c.labels@.len() > 0)
    &&& (r.labels matches Some(l) ==> l@ == c.labels@)
    &&& same_opt_vec(r.cmd, c.command)
    &&& same_opt_vec(r.entrypoint, c.entrypoint)
    &&& opt_text(r.working_dir) == opt_text(c.working_dir)
    &&& opt_text(r.user) == opt_text(c.user)
    &&& r.restart_name == match c.restart_policy {
        RestartPolicyConfig::No => RestartName::No,
        RestartPolicyConfig::Always => RestartName::Always,
        RestartPolicyConfig::UnlessStopped => RestartName::UnlessStopped,
        RestartPolicyConfig::OnFailure { .. } => RestartName::OnFailure,
    }
    &&& r.restart_max_retries == match c.restart_policy {
        RestartPolicyConfig::OnFailure { max_retries: Some(n) } => Some(n as i64),
        _ => None,
    }
    &&& r.memory == match c.resources {
        Some(res) => match res.memory {
            Some(m) => Some(m as i64),
            None => None,
        },
        None => None,
    }
    &&& opt_text(r.cpus) == match c.resources {
        Some(res) => opt_text(res.cpus),
        None => None,
    }
    &&& (r.mounts is Some <==> c.volumes@.len() > 0)
    &&& (r.mounts matches Some(m) ==> m@.len() == c.volumes@.len() && forall|i: int|
        0 <= i < m@.len() ==> (#[trigger] m@[i]).source@ == c.volumes@[i].source@ && m@[i].target@
            == c.volumes@[i].target@ && m@[i].read_only == c.volumes@[i].read_only)
    &&& (r.exposed_ports is Some <==> c.ports@.len() > 0)
    &&& (r.exposed_ports matches Some(e) ==> e@.len() == c.ports@.len() && forall|i: int|
        0 <= i < e@.len() ==> (#[trigger] e@[i])@ == port_key(c.ports@[i]))
    &&& (r.port_bindings is Some <==> binding_map(c.ports@).len() > 0)
    &&& (r.port_bindings matches Some(b) ==> b@.dom() == binding_map(c.ports@).dom() && forall|k: Seq<char>|
        #[trigger] b@.contains_key(k) ==> binding_view(b@[k]) == binding_map(c.ports@)[k])
    &&& opt_text(r.network_mode) == opt_text(c.network)
    &&& (r.healthcheck is Some <==> c.healthcheck is Some)
    &&& (r.healthcheck matches Some(h) ==> {
        let ch = c.healthcheck->0;
        h.test@ == ch.test@ && h.interval == ch.interval && h.timeout == ch.timeout && h.retries
            == ch.retries && h.start_period == ch.start_period
    })
    &&& (r.endpoint is Some <==> (c.network is Some && c.network_aliases@.len() > 0))
    &&& (r.endpoint matches Some((n, a)) ==> n@ == c.network->0@ && a@.len() == c.network_aliases@.len()
        && forall|i: int| 0 <= i < a@.len() ==> (#[trigger] a@[i])@ == c.network_aliases@[i]@)
    &&& r.stop_timeout == c.stop_timeout
}

/// The request that creates the container `config` describes: restart policy,
/// memory limit, bind mounts, published ports (exposed, and bound where a host
/// port is given), network, health check, and the network aliases when a network
/// is set.
pub fn create_request(config: &ContainerConfig) -> (r: CreateRequest)
    ensures
        create_request_for(r, *config),
{
    config.env.lemma_seqs();
    config.labels.lemma_seqs();
    let env = if config.env.len() == 0 {
        None
    } else {
        Some(env_list(&config.env))
    };
    let labels = if config.labels.len() == 0 {
        None
    } else {
        Some(config.labels.duplicate())
    };
    let (restart_name, restart_max_retries) = match config.restart_policy {
        RestartPolicyConfig::No => (RestartName::No, None),
        RestartPolicyConfig::Always => (RestartName::Always, None),
        RestartPolicyConfig::UnlessStopped => (RestartName::UnlessStopped, None),
        RestartPolicyConfig::OnFailure { max_retries } => (
            RestartName::OnFailure,
            match max_retries {
                Some(n) => Some(n as i64),
                None => None,
            },
        ),
    };
    let (memory, cpus) = match &config.resources {
        Some(res) => (
            match res.memory {
                Some(m) => Some(m as i64),
                None => None,
            },
            res.cpus.duplicate(),
        ),
        None => (None, None),
    };
    let mounts = if config.volumes.len() == 0 {
        None
    } else {
        Some(dup_mounts(&config.volumes))
    };
    let (exposed, bindings) = port_requests(&config.ports);
    bindings.lemma_seqs();
    let port_bindings = if bindings.len() == 0 {
        None
    } else {
        Some(bindings)
    };
    let exposed_ports = if exposed.len() == 0 {
        None
    } else {
        Some(exposed)
    };
    let endpoint = match &config.network {
        Some(n) => if config.network_aliases.len() > 0 {
            Some((n.clone(), alias_texts(&config.network_aliases)))
        } else {
            None
        },
        None => None,
    };
    CreateRequest {
        name: config.name.clone(),
        image: config.image.to_string(),
        env,
        labels,
        cmd: crate::strmap::dup_opt_vec(&config.command),
        entrypoint: crate::strmap::dup_opt_vec(&config.entrypoint),
        working_dir: config.working_dir.duplicate(),
        user: config.user.duplicate(),
        restart_name,
        restart_max_retries,
        memory,
        cpus,
        mounts,
        port_bindings,
        exposed_ports,
        network_mode: config.network.duplicate(),
        healthcheck: match &config.healthcheck {
            Some(h) => Some(dup_healthcheck(h)),
            None => None,
        },
        endpoint,
        stop_timeout: config.stop_timeout,
    }
}

} // verus!

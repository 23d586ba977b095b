//! What the runtime backends have in common beyond the HTTP API's request:
//! collecting a command's output from the multiplexed stream, splitting
//! environment entries for Podman's exec, the requests that the `docker-api`
//! and `podman-api` builders are given, and Podman's Quadlet units.
use crate::config::config::same_opt_vec;
use crate::runtime::bollard::{opt_text, protocol_name, RestartName};
use crate::runtime::traits::{ContainerConfig, ExecError, ExecResult, PortMapping, Protocol, RestartPolicyConfig, VolumeMount};
use crate::strmap::{dup_opt_vec, Duplicate, StrMap};
use crate::time::{as_secs, duration_secs};
use crate::types::image_ref::display_image_ref;
use std::time::Duration;
use crate::text::{find_char, first_index, join3, own, substring};
use vstd::prelude::*;

verus! {

// ---------------------------------------------------------------------------
// Command output
// ---------------------------------------------------------------------------

/// A piece of a command's multiplexed output.
#[derive(Debug)]
pub enum OutputChunk {
    StdOut(Vec<u8>),
    StdErr(Vec<u8>),
    StdIn(Vec<u8>),
}

/// The output of a command collected so far, in the order it came.
#[derive(Debug)]
pub struct ExecOutput {
    pub stdout: Vec<u8>,
    pub stderr: Vec<u8>,
}

impl ExecOutput {
    pub fn new() -> (r: Self)
        ensures
            r.stdout@.len() == 0 && r.stderr@.len() == 0,
    {
        ExecOutput { stdout: Vec::new(), stderr: Vec::new() }
    }

    /// Takes in a chunk: standard output and error are appended where they
    /// belong, echoed input is dropped.
    pub fn take(&mut self, chunk: OutputChunk)
        ensures
            match chunk {
                OutputChunk::StdOut(d) => final(self).stdout@ == old(self).stdout@ + d@
                    && final(self).stderr@ == old(self).stderr@,
                OutputChunk::StdErr(d) => final(self).stderr@ == old(self).stderr@ + d@
                    && final(self).stdout@ == old(self).stdout@,
                OutputChunk::StdIn(_) => final(self).stdout@ == old(self).stdout@
                    && final(self).stderr@ == old(self).stderr@,
            },
    {
        match chunk {
            OutputChunk::StdOut(d) => {
                let mut d = d;
                self.stdout.append(&mut d);
            },
            OutputChunk::StdErr(d) => {
                let mut d = d;
                self.stderr.append(&mut d);
            },
            OutputChunk::StdIn(_) => {},
        }
    }

    /// The command's result once its stream ended: the output, and the exit
    /// code that inspecting the command reported (0 when none was).
    pub fn finish(self, exit_code: Option<i64>) -> (r: ExecResult)
        ensures
            r.stdout@ == self.stdout@,
            r.stderr@ == self.stderr@,
            r.exit_code == match exit_code {
                Some(c) => c,
                None => 0,
            },
    {
        ExecResult {
            exit_code: match exit_code {
                Some(c) => c,
                None => 0,
            },
            stdout: self.stdout,
            stderr: self.stderr,
        }
    }
}

/// A broken output stream ends the command with the stream's error.
pub fn stream_failed(message: String) -> (r: ExecError)
    ensures
        r == ExecError::Failed(message),
{
    ExecError::Failed(message)
}

// ---------------------------------------------------------------------------
// Podman's exec environment
// ---------------------------------------------------------------------------

/// `KEY=value` split at its first `=`; entries without one are dropped.
pub open spec fn env_pairs(entries: Seq<String>) -> Seq<(Seq<char>, Seq<char>)>
    decreases entries.len(),
{
    if entries.len() == 0 {
        Seq::empty()
    } else {
        let e = entries.last()@;
        env_pairs(entries.drop_last()) + match first_index(e, '=') {
            Some(i) => seq![(e.take(i), e.skip(i + 1))],
            None => Seq::empty(),
        }
    }
}

/// The variables of an exec, as Podman's API takes them.
pub fn exec_env_pairs(entries: &Vec<String>) -> (r: Vec<(String, String)>)
    ensures
        r@.map_values(|p: (String, String)| (p.0@, p.1@)) == env_pairs(entries@),
{
    let mut out: Vec<(String, String)> = Vec::new();
    let mut i: usize = 0;
    while i < entries.len()
        invariant
            i <= entries@.len(),
            out@.map_values(|p: (String, String)| (p.0@, p.1@)) == env_pairs(entries@.subrange(0, i as int)),
        decreases entries.len() - i,
    {
        assert(entries@.subrange(0, i + 1).drop_last() =~= entries@.subrange(0, i as int));
        let e = entries[i].as_str();
        let v = crate::text::chars_of(e);
        match find_char(&v, 0, v.len(), '=') {
            Some(k) => {
                proof {
                    crate::text::lemma_first_index(e@, '=', k as int);
                }
                let key = substring(e, 0, k);
                let value = substring(e, k + 1, v.len());
                assert(key@ =~= e@.take(k as int));
                assert(value@ =~= e@.skip(k + 1));
                out.push((key, value));
            },
            None => {},
        }
        i = i + 1;
        assert(out@.map_values(|p: (String, String)| (p.0@, p.1@)) =~= env_pairs(entries@.subrange(0, i as int)));
    }
    assert(entries@.subrange(0, i as int) =~= entries@);
    out
}

// ---------------------------------------------------------------------------
// Podman's Quadlet units
// ---------------------------------------------------------------------------

/// A systemd unit that runs a container through Podman's Quadlet.
#[derive(Debug)]
pub struct QuadletUnit {
    pub content: String,
}

/// The unit from what generating systemd units answered: the first unit's text
/// when the answer is an object whose first value is text, else nothing.
pub fn quadlet_from(first_unit: Option<String>) -> (r: QuadletUnit)
    ensures
        r.content@ == opt_text(first_unit).unwrap_or(Seq::empty()),
{
    QuadletUnit {
        content: match first_unit {
            Some(s) => s,
            None => String::new(),
        },
    }
}

// ---------------------------------------------------------------------------
// Requests of the `docker-api` and `podman-api` backends
// ---------------------------------------------------------------------------

/// The entries of `m` in its order, as pairs of texts.
pub open spec fn pairs_of(v: Seq<(String, String)>, m: StrMap<String>) -> bool {
    &&& v.len() == m.key_seq().len()
    &&& forall|j: int| 0 <= j < v.len() ==> (#[trigger] v[j]).0@ == m.key_seq()[j] && v[j].1@
        == m.value_seq()[j]@
}

fn entry_pairs(m: &StrMap<String>) -> (r: Vec<(String, String)>)
    ensures
        pairs_of(r@, *m),
{
    m.lemma_seqs();
    let mut v: Vec<(String, String)> = Vec::new();
    let mut i: usize = 0;
    while i < m.len()
        invariant
            i <= m.key_seq().len(),
            m.key_seq().len() == m.value_seq().len(),
            v@.len() == i,
            forall|j: int| 0 <= j < i ==> (#[trigger] v@[j]).0@ == m.key_seq()[j] && v@[j].1@
                == m.value_seq()[j]@,
        decreases m.key_seq().len() - i,
    {
        v.push((m.key_at(i).clone(), m.value_at(i).clone()));
        i = i + 1;
    }
    v
}

/// The bind mount a volume is given to Docker as: `source:target`, with `:ro`
/// for a read-only one.
pub open spec fn volume_text(m: VolumeMount) -> Seq<char> {
    m.source@ + ":"@ + m.target@ + if m.read_only {
        ":ro"@
    } else {
        Seq::empty()
    }
}

fn volume_string(m: &VolumeMount) -> (r: String)
    ensures
        r@ == volume_text(*m),
{
    let mut s = join3(m.source.as_str(), ":", m.target.as_str());
    if m.read_only {
        s.append(":ro");
    }
    s
}

/// Docker's name of a restart policy.
pub open spec fn docker_restart_name(p: RestartPolicyConfig) -> Seq<char> {
    match p {
        RestartPolicyConfig::No => "no"@,
        RestartPolicyConfig::Always => "always"@,
        RestartPolicyConfig::UnlessStopped => "unless-stopped"@,
        RestartPolicyConfig::OnFailure { .. } => "on-failure"@,
    }
}

/// What the `docker-api` backend hands its container builder, call by call:
/// the builder is given one call per environment entry, per volume and per
/// published port, in the order listed here.
#[derive(Debug)]
pub struct DockerCreateRequest {
    pub name: String,
    pub image: String,
    /// `KEY=value`, one call each.
    pub env_calls: Vec<String>,
    pub labels: StrMap<String>,
    pub command: Option<Vec<String>>,
    pub entrypoint: Option<Vec<String>>,
    pub working_dir: Option<String>,
    pub user: Option<String>,
    pub network_mode: Option<String>,
    pub restart_name: String,
    pub restart_max_retries: u64,
    pub memory: Option<u64>,
    pub cpus: Option<String>,
    pub stop_timeout: Option<Duration>,
    /// `source:target[:ro]`, one call each.
    pub volume_calls: Vec<String>,
    /// Container port, protocol and host port of each port published on the
    /// host, one call each.
    pub expose_calls: Vec<(u16, Protocol, u32)>,
}

/// The ports of `ports` that are published on the host, in order.
pub open spec fn host_published(ports: Seq<PortMapping>) -> Seq<(u16, Protocol, u32)>
    decreases ports.len(),
{
    if ports.len() == 0 {
        Seq::empty()
    } else {
        host_published(ports.drop_last()) + match ports.last().host_port {
            Some(h) => seq![(ports.last().container_port, ports.last().protocol, h as u32)],
            None => Seq::empty(),
        }
    }
}

/// The request of the `docker-api` backend for `config`.
pub fn docker_create_request(config: &ContainerConfig) -> (r: DockerCreateRequest)
    ensures
        r.name@ == config.name@,
        r.image@ == display_image_ref(config.image@),
        r.env_calls@.len() == config.env.key_seq().len(),
        forall|j: int| 0 <= j < r.env_calls@.len() ==> (#[trigger] r.env_calls@[j])@
            == config.env.key_seq()[j] + "="@ + config.env.value_seq()[j]@,
        r.labels@ == config.labels@,
        same_opt_vec(r.command, config.command),
        same_opt_vec(r.entrypoint, config.entrypoint),
        opt_text(r.working_dir) == opt_text(config.working_dir),
        opt_text(r.user) == opt_text(config.user),
        opt_text(r.network_mode) == opt_text(config.network),
        r.restart_name@ == docker_restart_name(config.restart_policy),
        r.restart_max_retries == match config.restart_policy {
            RestartPolicyConfig::OnFailure { max_retries: Some(n) } => n as u64,
            _ => 0,
        },
        r.memory == match config.resources {
            Some(res) => res.memory,
            None => None,
        },
        opt_text(r.cpus) == match config.resources {
            Some(res) => opt_text(res.cpus),
            None => None,
        },
        r.stop_timeout == config.stop_timeout,
        r.volume_calls@.len() == config.volumes@.len(),
        forall|j: int| 0 <= j < r.volume_calls@.len() ==> (#[trigger] r.volume_calls@[j])@ == volume_text(
            config.volumes@[j],
        ),
        r.expose_calls@ == host_published(config.ports@),
{
    config.env.lemma_seqs();
    let mut env_calls: Vec<String> = Vec::new();
    let mut i: usize = 0;
    while i < config.env.len()
        invariant
            i <= config.env.key_seq().len(),
            config.env.key_seq().len() == config.env.value_seq().len(),
            env_calls@.len() == i,
            forall|j: int| 0 <= j < i ==> (#[trigger] env_calls@[j])@ == config.env.key_seq()[j] + "="@
                + config.env.value_seq()[j]@,
        decreases config.env.key_seq().len() - i,
    {
        env_calls.push(join3(config.env.key_at(i).as_str(), "=", config.env.value_at(i).as_str()));
        i = i + 1;
    }
    let mut volume_calls: Vec<String> = Vec::new();
    let mut k: usize = 0;
    while k < config.volumes.len()
        invariant
            k <= config.volumes@.len(),
            volume_calls@.len() == k,
            forall|j: int| 0 <= j < k ==> (#[trigger] volume_calls@[j])@ == volume_text(config.volumes@[j]),
        decreases config.volumes.len() - k,
    {
        volume_calls.push(volume_string(&config.volumes[k]));
        k = k + 1;
    }
    let mut expose_calls: Vec<(u16, Protocol, u32)> = Vec::new();
    let mut p: usize = 0;
    while p < config.ports.len()
        invariant
            p <= config.ports@.len(),
            expose_calls@ == host_published(config.ports@.subrange(0, p as int)),
        decreases config.ports.len() - p,
    {
        assert(config.ports@.subrange(0, p + 1).drop_last() =~= config.ports@.subrange(0, p as int));
        let port = &config.ports[p];
        match port.host_port {
            Some(h) => {
                expose_calls.push((port.container_port, port.protocol, h as u32));
            },
            None => {},
        }
        p = p + 1;
        assert(expose_calls@ =~= host_published(config.ports@.subrange(0, p as int)));
    }
    assert(config.ports@.subrange(0, p as int) =~= config.ports@);
    let (restart_name, restart_max_retries) = match config.restart_policy {
        RestartPolicyConfig::No => (own("no"), 0u64),
        RestartPolicyConfig::Always => (own("always"), 0u64),
        RestartPolicyConfig::UnlessStopped => (own("unless-stopped"), 0u64),
        RestartPolicyConfig::OnFailure { max_retries } => (
            own("on-failure"),
            match max_retries {
                Some(n) => n as u64,
                None => 0u64,
            },
        ),
    };
    let (memory, cpus) = match &config.resources {
        Some(res) => (res.memory, res.cpus.duplicate()),
        None => (None, None),
    };
    DockerCreateRequest {
        name: config.name.clone(),
        image: config.image.to_string(),
        env_calls,
        labels: config.labels.duplicate(),
        command: dup_opt_vec(&config.command),
        entrypoint: dup_opt_vec(&config.entrypoint),
        working_dir: config.working_dir.duplicate(),
        user: config.user.duplicate(),
        network_mode: config.network.duplicate(),
        restart_name,
        restart_max_retries,
        memory,
        cpus,
        stop_timeout: config.stop_timeout,
        volume_calls,
        expose_calls,
    }
}

/// What the `podman-api` backend hands its container builder. Empty
/// environment and labels are left out; volumes are given one builder call
/// each, in order.
#[derive(Debug)]
pub struct PodmanCreateRequest {
    pub name: String,
    pub image: String,
    pub env: Option<Vec<(String, String)>>,
    pub labels: Option<Vec<(String, String)>>,
    pub command: Option<Vec<String>>,
    pub entrypoint: Option<Vec<String>>,
    pub work_dir: Option<String>,
    pub user: Option<String>,
    /// The network to join, without aliases.
    pub network: Option<String>,
    pub restart_name: RestartName,
    pub stop_timeout_secs: Option<u64>,
    pub mount_calls: Vec<VolumeMount>,
    /// Container port, host port, protocol name and host address of each port.
    pub port_mappings: Option<Vec<(u16, Option<u16>, String, Option<String>)>>,
}

/// A port as Podman's API takes it.
pub open spec fn podman_port(p: PortMapping) -> (u16, Option<u16>, Seq<char>, Option<Seq<char>>) {
    (p.container_port, p.host_port, protocol_name(p.protocol), opt_text(p.host_ip))
}

/// The request of the `podman-api` backend for `config`.
pub fn podman_create_request(config: &ContainerConfig) -> (r: PodmanCreateRequest)
    ensures
        r.name@ == config.name@,
        r.image@ == display_image_ref(config.image@),
        (r.env is Some <==> config.env@.len() > 0),
        r.env matches Some(e) ==> pairs_of(e@, config.env),
        (r.labels is Some <==> config.labels@.len() > 0),
        r.labels matches Some(l) ==> pairs_of(l@, config.labels),
        same_opt_vec(r.command, config.command),
        same_opt_vec(r.entrypoint, config.entrypoint),
        opt_text(r.work_dir) == opt_text(config.working_dir),
        opt_text(r.user) == opt_text(config.user),
        opt_text(r.network) == opt_text(config.network),
        r.restart_name == match config.restart_policy {
            RestartPolicyConfig::No => RestartName::No,
            RestartPolicyConfig::Always => RestartName::Always,
            RestartPolicyConfig::UnlessStopped => RestartName::UnlessStopped,
            RestartPolicyConfig::OnFailure { .. } => RestartName::OnFailure,
        },
        r.stop_timeout_secs == match config.stop_timeout {
            Some(d) => Some(duration_secs(d) as u64),
            None => None,
        },
        r.mount_calls@.len() == config.volumes@.len(),
        forall|j: int| 0 <= j < r.mount_calls@.len() ==> (#[trigger] r.mount_calls@[j]).source@
            == config.volumes@[j].source@ && r.mount_calls@[j].target@ == config.volumes@[j].target@
            && r.mount_calls@[j].read_only == config.volumes@[j].read_only,
        (r.port_mappings is Some <==> config.ports@.len() > 0),
        r.port_mappings matches Some(pm) ==> pm@.len() == config.ports@.len() && forall|j: int|
            0 <= j < pm@.len() ==> ((#[trigger] pm@[j]).0, pm@[j].1, pm@[j].2@, opt_text(pm@[j].3))
                == podman_port(config.ports@[j]),
{
    config.env.lemma_seqs();
    config.labels.lemma_seqs();
    let env = if config.env.len() == 0 {
        None
    } else {
        Some(entry_pairs(&config.env))
    };
    let labels = if config.labels.len() == 0 {
        None
    } else {
        Some(entry_pairs(&config.labels))
    };
    let mut mount_calls: Vec<VolumeMount> = Vec::new();
    let mut k: usize = 0;
    while k < config.volumes.len()
        invariant
            k <= config.volumes@.len(),
            mount_calls@.len() == k,
            forall|j: int| 0 <= j < k ==> (#[trigger] mount_calls@[j]).source@ == config.volumes@[j].source@
                && mount_calls@[j].target@ == config.volumes@[j].target@ && mount_calls@[j].read_only
                == config.volumes@[j].read_only,
        decreases config.volumes.len() - k,
    {
        let m = &config.volumes[k];
        mount_calls.push(VolumeMount { source: m.source.clone(), target: m.target.clone(), read_only: m.read_only });
        k = k + 1;
    }
    let mut ports: Vec<(u16, Option<u16>, String, Option<String>)> = Vec::new();
    let mut p: usize = 0;
    while p < config.ports.len()
        invariant
            p <= config.ports@.len(),
            ports@.len() == p,
            forall|j: int| 0 <= j < p ==> ((#[trigger] ports@[j]).0, ports@[j].1, ports@[j].2@, opt_text(ports@[j].3))
                == podman_port(config.ports@[j]),
        decreases config.ports.len() - p,
    {
        let port = &config.ports[p];
        let proto = match port.protocol {
            Protocol::Tcp => own("tcp"),
            Protocol::Udp => own("udp"),
        };
        ports.push((port.container_port, port.host_port, proto, port.host_ip.duplicate()));
        p = p + 1;
    }
    let port_mappings = if ports.len() == 0 {
        None
    } else {
        Some(ports)
    };
    PodmanCreateRequest {
        name: config.name.clone(),
        image: config.image.to_string(),
        env,
        labels,
        command: dup_opt_vec(&config.command),
        entrypoint: dup_opt_vec(&config.entrypoint),
        work_dir: config.working_dir.duplicate(),
        user: config.user.duplicate(),
        network: config.network.duplicate(),
        restart_name: match config.restart_policy {
            RestartPolicyConfig::No => RestartName::No,
            RestartPolicyConfig::Always => RestartName::Always,
            RestartPolicyConfig::UnlessStopped => RestartName::UnlessStopped,
            RestartPolicyConfig::OnFailure { .. } => RestartName::OnFailure,
        },
        stop_timeout_secs: match config.stop_timeout {
            Some(d) => Some(as_secs(d)),
            None => None,
        },
        mount_calls,
        port_mappings,
    }
}

} // verus!

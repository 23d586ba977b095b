//! Finding the container runtime on a server. A runtime set in the
//! configuration wins; otherwise the sockets are tried in order: rootless
//! Podman (`/run/user/<uid>/podman/podman.sock`), rootful Podman, Docker.
//!
//! The checks are commands run over SSH by the caller, who hands back what
//! each gave.
use crate::runtime::error::DetectionError;
use crate::runtime::types::{default_socket_path, spec_default_socket_path, RuntimeConfig, RuntimeInfo, RuntimeType};
use crate::ssh::{CommandOutput, Error as SshError};
use crate::text::{join2, join3, own, str_eq, trim, trimmed};
use vstd::prelude::*;

verus! {

/// The command that prints the user's id.
pub open spec fn uid_command() -> Seq<char> {
    "id -u"@
}

/// The command that prints `exists` when `path` exists.
pub open spec fn exists_command(path: Seq<char>) -> Seq<char> {
    "test -e "@ + path + " && echo exists"@
}

/// Whether the output of `exists_command` says that the file exists.
pub open spec fn reports_exists(out: CommandOutput) -> bool {
    out.exit_code == 0 && trim(out.stdout@) == "exists"@
}

/// The rootless Podman socket of user `uid`.
pub open spec fn rootless_socket(uid: Seq<char>) -> Seq<char> {
    "/run/user/"@ + uid + "/podman/podman.sock"@
}

/// `Session::file_exists`: whether the output of `exists_command` reports the
/// file as existing.
pub fn file_exists_in(out: &CommandOutput) -> (r: bool)
    ensures
        r == reports_exists(*out),
{
    if !out.success() {
        return false;
    }
    let t = trimmed(out.stdout.as_str());
    proof {
        reveal_strlit("exists");
    }
    str_eq(t.as_str(), "exists")
}

/// `test -e <path> && echo exists`.
pub fn file_exists_command(path: &str) -> (r: String)
    ensures
        r@ == exists_command(path@),
{
    join3("test -e ", path, " && echo exists")
}

/// Which check the detection waits for.
#[derive(Debug, Clone, Copy, PartialEq, Eq, Structural)]
pub enum DetectStage {
    /// The user's id.
    Uid,
    /// The rootless Podman socket.
    RootlessPodman,
    /// The rootful Podman socket.
    RootfulPodman,
    /// The Docker socket.
    Docker,
}

/// What to do next.
#[derive(Debug)]
pub enum Detect {
    /// Run this command and hand back what it gave.
    Run(String),
    /// Detection is over.
    Done(Result<RuntimeInfo, DetectionError>),
}

/// A detection in progress.
#[derive(Debug)]
pub struct RuntimeDetection {
    stage: DetectStage,
    /// The socket being checked.
    candidate: String,
}

/// The runtime found at a socket.
pub open spec fn found(d: Detect, t: RuntimeType, socket: Seq<char>) -> bool {
    d matches Detect::Done(Ok(info)) && info.runtime_type == t && info.socket_path@ == socket
}

/// A command to run.
pub open spec fn runs(d: Detect, cmd: Seq<char>) -> bool {
    d matches Detect::Run(c) && c@ == cmd
}

impl RuntimeDetection {
    pub closed spec fn spec_stage(&self) -> DetectStage {
        self.stage
    }

    pub closed spec fn spec_candidate(&self) -> Seq<char> {
        self.candidate@
    }

    /// Starts detection. A configured runtime is taken as it is, with its
    /// configured socket or the runtime's default one; otherwise the first check
    /// is to be run.
    pub fn start(config: Option<&RuntimeConfig>) -> (r: (Self, Detect))
        ensures
            match config {
                Some(cfg) if cfg.runtime is Some => found(
                    r.1,
                    cfg.runtime->0,
                    match cfg.socket {
                        Some(s) => s@,
                        None => spec_default_socket_path(cfg.runtime->0),
                    },
                ),
                _ => r.0.spec_stage() == DetectStage::Uid && runs(r.1, uid_command()),
            },
    {
        let fresh = RuntimeDetection { stage: DetectStage::Uid, candidate: String::new() };
        match config {
            Some(cfg) => match cfg.runtime {
                Some(t) => {
                    let socket_path = match &cfg.socket {
                        Some(s) => s.clone(),
                        None => default_socket_path(t),
                    };
                    return (fresh, Detect::Done(Ok(RuntimeInfo { runtime_type: t, socket_path })));
                },
                None => {},
            },
            None => {},
        }
        (fresh, Detect::Run(own("id -u")))
    }

    /// Takes what the last command gave and says what to do next. An SSH
    /// failure ends detection with that error.
    pub fn step(&mut self, output: Result<CommandOutput, SshError>) -> (r: Detect)
        ensures
            match output {
                Err(e) => r matches Detect::Done(Err(DetectionError::Ssh(x))) && x == e,
                Ok(out) => match old(self).spec_stage() {
                    DetectStage::Uid => if out.exit_code == 0 {
                        final(self).spec_stage() == DetectStage::RootlessPodman
                            && final(self).spec_candidate() == rootless_socket(trim(out.stdout@))
                            && runs(r, exists_command(rootless_socket(trim(out.stdout@))))
                    } else {
                        final(self).spec_stage() == DetectStage::RootfulPodman && runs(
                            r,
                            exists_command("/run/podman/podman.sock"@),
                        )
                    },
                    DetectStage::RootlessPodman => if reports_exists(out) {
                        found(r, RuntimeType::Podman, old(self).spec_candidate())
                    } else {
                        final(self).spec_stage() == DetectStage::RootfulPodman && runs(
                            r,
                            exists_command("/run/podman/podman.sock"@),
                        )
                    },
                    DetectStage::RootfulPodman => if reports_exists(out) {
                        found(r, RuntimeType::Podman, "/run/podman/podman.sock"@)
                    } else {
                        final(self).spec_stage() == DetectStage::Docker && runs(
                            r,
                            exists_command("/var/run/docker.sock"@),
                        )
                    },
                    DetectStage::Docker => if reports_exists(out) {
                        found(r, RuntimeType::Docker, "/var/run/docker.sock"@)
                    } else {
                        r matches Detect::Done(Err(DetectionError::NoRuntimeFound))
                    },
                },
            },
    {
        let out = match output {
            Err(e) => {
                return Detect::Done(Err(DetectionError::Ssh(e)));
            },
            Ok(out) => out,
        };
        match self.stage {
            DetectStage::Uid => {
                if out.success() {
                    let uid = trimmed(out.stdout.as_str());
                    let mut socket = join2("/run/user/", uid.as_str());
                    socket.append("/podman/podman.sock");
                    let cmd = file_exists_command(socket.as_str());
                    self.stage = DetectStage::RootlessPodman;
                    self.candidate = socket;
                    Detect::Run(cmd)
                } else {
                    self.stage = DetectStage::RootfulPodman;
                    Detect::Run(file_exists_command("/run/podman/podman.sock"))
                }
            },
            DetectStage::RootlessPodman => {
                if file_exists_in(&out) {
                    Detect::Done(Ok(RuntimeInfo { runtime_type: RuntimeType::Podman, socket_path: self.candidate.clone() }))
                } else {
                    self.stage = DetectStage::RootfulPodman;
                    Detect::Run(file_exists_command("/run/podman/podman.sock"))
                }
            },
            DetectStage::RootfulPodman => {
                if file_exists_in(&out) {
                    Detect::Done(Ok(RuntimeInfo { runtime_type: RuntimeType::Podman, socket_path: own("/run/podman/podman.sock") }))
                } else {
                    self.stage = DetectStage::Docker;
                    Detect::Run(file_exists_command("/var/run/docker.sock"))
                }
            },
            DetectStage::Docker => {
                if file_exists_in(&out) {
                    Detect::Done(Ok(RuntimeInfo { runtime_type: RuntimeType::Docker, socket_path: own("/var/run/docker.sock") }))
                } else {
                    Detect::Done(Err(DetectionError::NoRuntimeFound))
                }
            },
        }
    }
}

} // verus!

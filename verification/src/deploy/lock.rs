//! The deploy lock: a directory on the server, one per service, whose creation
//! by `mkdir` is atomic, with a file inside that names the holder. A lock older
//! than an hour is stale and broken automatically; `force` breaks any lock; an
//! unreadable or corrupted lock is broken too.
use crate::deploy::error::{DeployError, DeployErrorDetail};
use crate::ssh::error::ssh_error_text;
use crate::ssh::{CommandOutput, Error as SshError};
use crate::text::{join2, join3, own, push_char};
use crate::time::Timestamp;
use crate::types::ServiceName;
use vstd::prelude::*;

verus! {

/// The name of this machine (`gethostname`, lossily decoded).
#[verifier::external_body]
fn host_name() -> (r: String) {
    gethostname::gethostname().to_string_lossy().into_owned()
}

/// Who holds a deploy lock.
#[derive(Debug)]
pub struct LockInfo {
    /// The host name of the machine that holds the lock.
    pub holder: String,
    /// The holder's process identifier.
    pub pid: u32,
    /// When the lock was taken.
    pub started_at: Timestamp,
    /// The service being deployed.
    pub service: String,
}

/// Nanoseconds from `since` to `now`.
pub open spec fn elapsed_nanos(now: Timestamp, since: Timestamp) -> int {
    (now.secs - since.secs) * 1_000_000_000 + now.nanos - since.nanos
}

/// Whether a lock taken at `since` is stale at `now`: an hour or more old.
pub open spec fn stale_at(since: Timestamp, now: Timestamp) -> bool {
    elapsed_nanos(now, since) >= 3600 * 1_000_000_000
}

/// `/tmp/peleka-deploy-<service>.lock`: a directory, since `mkdir` is atomic.
pub open spec fn spec_lock_path(service: Seq<char>) -> Seq<char> {
    "/tmp/peleka-deploy-"@ + service + ".lock"@
}

/// The file naming the holder, inside the lock directory.
pub open spec fn spec_lock_info_path(service: Seq<char>) -> Seq<char> {
    spec_lock_path(service) + "/info"@
}

impl LockInfo {
    /// Lock information for process `pid` of this machine, taken now.
    pub fn new(service: &ServiceName, pid: u32) -> (r: Self)
        ensures
            r.service@ == service@,
            r.pid == pid,
    {
        LockInfo {
            holder: host_name(),
            pid,
            started_at: crate::time::now(),
            service: service.to_string(),
        }
    }

    /// Whether the lock is an hour old or older at `now`.
    pub fn is_stale_at(&self, now: Timestamp) -> (r: bool)
        ensures
            r == stale_at(self.started_at, now),
    {
        let secs: i128 = (now.secs as i128) - (self.started_at.secs as i128);
        let nanos: i128 = (now.nanos as i128) - (self.started_at.nanos as i128);
        let total: i128 = secs * 1_000_000_000 + nanos;
        total >= 3600 * 1_000_000_000
    }

    /// Whether the lock is an hour old or older now.
    pub fn is_stale(&self) -> (r: bool) {
        self.is_stale_at(crate::time::now())
    }

    /// The lock directory of `service`.
    pub fn lock_path(service: &ServiceName) -> (r: String)
        ensures
            r@ == spec_lock_path(service@),
    {
        let s = service.to_string();
        join3("/tmp/peleka-deploy-", s.as_str(), ".lock")
    }

    /// The holder file of `service`'s lock: the lock directory followed by `/info`.
    pub fn lock_info_path(service: &ServiceName) -> (r: String)
        ensures
            r@ == spec_lock_info_path(service@),
    {
        let p = LockInfo::lock_path(service);
        join2(p.as_str(), "/info")
    }
}

/// `s` with each `'` written as `'\''`, so that it can stand between single
/// quotes in a shell command.
pub open spec fn escape_quotes(s: Seq<char>) -> Seq<char>
    decreases s.len(),
{
    if s.len() == 0 {
        Seq::empty()
    } else {
        escape_quotes(s.drop_last()) + if s.last() == '\'' {
            "'\\''"@
        } else {
            seq![s.last()]
        }
    }
}

fn escape_single_quotes(s: &str) -> (r: String)
    ensures
        r@ == escape_quotes(s@),
{
    let v = crate::text::chars_of(s);
    let mut out = String::new();
    let mut i: usize = 0;
    while i < v.len()
        invariant
            v@ == s@,
            i <= v@.len(),
            out@ == escape_quotes(s@.subrange(0, i as int)),
        decreases v.len() - i,
    {
        assert(s@.subrange(0, i + 1).drop_last() =~= s@.subrange(0, i as int));
        if v[i] == '\'' {
            out.append("'\\''");
        } else {
            push_char(&mut out, v[i]);
        }
        i = i + 1;
        assert(out@ =~= escape_quotes(s@.subrange(0, i as int)));
    }
    assert(s@.subrange(0, i as int) =~= s@);
    out
}

/// `mkdir '<path>'`.
pub open spec fn mkdir_command(path: Seq<char>) -> Seq<char> {
    "mkdir '"@ + path + "'"@
}

/// `cat '<path>'`.
pub open spec fn cat_command(path: Seq<char>) -> Seq<char> {
    "cat '"@ + path + "'"@
}

/// `rm -rf '<path>'`.
pub open spec fn rm_command(path: Seq<char>) -> Seq<char> {
    "rm -rf '"@ + path + "'"@
}

/// `echo '<json>' > '<path>'`, the text quoted for the shell.
pub open spec fn write_command(json: Seq<char>, path: Seq<char>) -> Seq<char> {
    "echo '"@ + escape_quotes(json) + "' > '"@ + path + "'"@
}

/// Where an acquisition stands.
#[derive(Debug, Clone, Copy, PartialEq, Eq, Structural)]
pub enum LockStage {
    /// `mkdir` of the lock directory was sent.
    Creating,
    /// The holder file is being written.
    Writing,
    /// The existing holder file is being read to decide whether to break it.
    Checking,
    /// The existing holder file is read again to report who holds the lock.
    Confirming,
    /// The lock directory is being removed.
    Breaking,
    /// `mkdir` was sent again after breaking the lock.
    Recreating,
    /// The acquisition is over.
    Finished,
}

/// A held deploy lock; releasing removes the lock directory.
#[derive(Debug)]
pub struct DeployLock {
    service: ServiceName,
}

impl DeployLock {
    /// The service whose lock this is.
    pub closed spec fn spec_service(&self) -> ServiceName {
        self.service
    }

    /// The command that releases the lock; its outcome does not matter.
    pub fn release_command(&self) -> (r: String)
        ensures
            r@ == rm_command(spec_lock_path(self.spec_service()@)),
    {
        let p = LockInfo::lock_path(&self.service);
        join3("rm -rf '", p.as_str(), "'")
    }
}

/// What to do next in an acquisition.
#[derive(Debug)]
pub enum LockAction {
    /// Run this command on the server and report its outcome.
    Run(String),
    /// The lock is ours.
    Acquired(DeployLock),
    /// The lock could not be taken.
    Failed(DeployError),
}

/// An action as plain values.
pub enum LockOutcome {
    Run(Seq<char>),
    Acquired,
    Failed(DeployErrorDetail),
}

pub open spec fn lock_outcome(a: LockAction) -> LockOutcome {
    match a {
        LockAction::Run(c) => LockOutcome::Run(c@),
        LockAction::Acquired(_) => LockOutcome::Acquired,
        LockAction::Failed(e) => LockOutcome::Failed(e@),
    }
}

/// Whether `o` is a lock error whose message is `m`.
pub open spec fn is_lock_error(o: LockOutcome, m: Seq<char>) -> bool {
    o matches LockOutcome::Failed(DeployErrorDetail::LockError { message }) && message@ == m
}

/// One step of an acquisition for `service`, writing `json` as holder
/// information: the next stage and the outcome, as a predicate on them.
/// `output` is what the last command gave, `parsed` the holder information
/// read from its output, if it parses, and `now` the current time.
pub open spec fn lock_step(
    stage: LockStage,
    service: Seq<char>,
    json: Seq<char>,
    force: bool,
    output: Result<CommandOutput, SshError>,
    parsed: Option<LockInfo>,
    now: Timestamp,
    next: LockStage,
    o: LockOutcome,
) -> bool {
    let path = spec_lock_path(service);
    let info = spec_lock_info_path(service);
    match stage {
        LockStage::Creating => match output {
            Err(e) => next == LockStage::Finished && is_lock_error(
                o,
                "failed to create lock: "@ + ssh_error_text(e),
            ),
            Ok(out) => if out.exit_code == 0 {
                next == LockStage::Writing && o == LockOutcome::Run(write_command(json, info))
            } else {
                next == LockStage::Checking && o == LockOutcome::Run(cat_command(info))
            },
        },
        LockStage::Writing => next == LockStage::Finished && match output {
            Err(e) => is_lock_error(o, "failed to write lock info: "@ + ssh_error_text(e)),
            Ok(out) => if out.exit_code == 0 {
                o is Acquired
            } else {
                is_lock_error(o, "failed to write lock info: "@ + out.stderr@)
            },
        },
        LockStage::Checking => match output {
            Err(e) => next == LockStage::Finished && is_lock_error(
                o,
                "failed to read lock info: "@ + ssh_error_text(e),
            ),
            Ok(out) => if out.exit_code == 0 && (parsed matches Some(l) && !force && !stale_at(
                l.started_at,
                now,
            )) {
                next == LockStage::Confirming && o == LockOutcome::Run(cat_command(info))
            } else {
                next == LockStage::Breaking && o == LockOutcome::Run(rm_command(path))
            },
        },
        LockStage::Confirming => next == LockStage::Finished && if output is Ok && parsed is Some {
            o matches LockOutcome::Failed(DeployErrorDetail::LockHeld { holder, pid, started_at })
                && holder == parsed->0.holder && pid == parsed->0.pid && started_at
                == parsed->0.started_at
        } else {
            is_lock_error(o, "lock held by another process"@)
        },
        LockStage::Breaking => match output {
            Err(e) => next == LockStage::Finished && is_lock_error(
                o,
                "failed to break lock: "@ + ssh_error_text(e),
            ),
            Ok(_) => next == LockStage::Recreating && o == LockOutcome::Run(mkdir_command(path)),
        },
        LockStage::Recreating => match output {
            Err(e) => next == LockStage::Finished && is_lock_error(
                o,
                "failed to create lock: "@ + ssh_error_text(e),
            ),
            Ok(out) => if out.exit_code == 0 {
                next == LockStage::Writing && o == LockOutcome::Run(write_command(json, info))
            } else {
                next == LockStage::Finished && is_lock_error(
                    o,
                    "lock acquired by another process during break"@,
                )
            },
        },
        LockStage::Finished => false,
    }
}

/// An acquisition of a service's deploy lock in progress. The server's commands
/// are run by the caller, who hands back each outcome.
#[derive(Debug)]
pub struct LockAcquisition {
    service: ServiceName,
    lock_json: String,
    force: bool,
    stage: LockStage,
}

impl LockAcquisition {
    pub closed spec fn spec_stage(&self) -> LockStage {
        self.stage
    }

    pub closed spec fn spec_service(&self) -> Seq<char> {
        self.service@
    }

    pub closed spec fn spec_json(&self) -> Seq<char> {
        self.lock_json@
    }

    pub closed spec fn spec_force(&self) -> bool {
        self.force
    }

    /// Starts acquiring `service`'s lock with `lock_json` (the holder
    /// information, serialized) to be written into it; `force` breaks a lock
    /// held by someone else. The first command to run is returned.
    pub fn start(service: &ServiceName, lock_json: String, force: bool) -> (r: (Self, String))
        ensures
            r.0.spec_stage() == LockStage::Creating,
            r.0.spec_service() == service@,
            r.0.spec_json() == lock_json@,
            r.0.spec_force() == force,
            r.1@ == mkdir_command(spec_lock_path(service@)),
    {
        let p = LockInfo::lock_path(service);
        let cmd = join3("mkdir '", p.as_str(), "'");
        (LockAcquisition { service: service.clone(), lock_json, force, stage: LockStage::Creating }, cmd)
    }

    /// Takes the outcome of the last command (with the holder information parsed
    /// from its output, when it parses, and the current time) and says what to
    /// do next.
    pub fn step(
        &mut self,
        output: Result<CommandOutput, SshError>,
        parsed: Option<LockInfo>,
        now: Timestamp,
    ) -> (a: LockAction)
        requires
            old(self).spec_stage() != LockStage::Finished,
        ensures
            final(self).spec_service() == old(self).spec_service(),
            final(self).spec_json() == old(self).spec_json(),
            final(self).spec_force() == old(self).spec_force(),
            lock_step(
                old(self).spec_stage(),
                old(self).spec_service(),
                old(self).spec_json(),
                old(self).spec_force(),
                output,
                parsed,
                now,
                final(self).spec_stage(),
                lock_outcome(a),
            ),
            a matches LockAction::Acquired(l) ==> l.spec_service()@ == old(self).spec_service(),
    {
        let path = LockInfo::lock_path(&self.service);
        let info = LockInfo::lock_info_path(&self.service);
        match self.stage {
            LockStage::Creating | LockStage::Recreating => match output {
                Err(e) => {
                    self.stage = LockStage::Finished;
                    let m = e.to_string();
                    LockAction::Failed(DeployError::lock_error(join2("failed to create lock: ", m.as_str())))
                },
                Ok(out) => {
                    if out.success() {
                        self.stage = LockStage::Writing;
                        LockAction::Run(self.write_command(info.as_str()))
                    } else if self.stage == LockStage::Creating {
                        self.stage = LockStage::Checking;
                        LockAction::Run(join3("cat '", info.as_str(), "'"))
                    } else {
                        self.stage = LockStage::Finished;
                        LockAction::Failed(DeployError::lock_error(own("lock acquired by another process during break")))
                    }
                },
            },
            LockStage::Writing => {
                self.stage = LockStage::Finished;
                match output {
                    Err(e) => {
                        let m = e.to_string();
                        LockAction::Failed(DeployError::lock_error(join2("failed to write lock info: ", m.as_str())))
                    },
                    Ok(out) => {
                        if out.success() {
                            LockAction::Acquired(DeployLock { service: self.service.clone() })
                        } else {
                            LockAction::Failed(
                                DeployError::lock_error(join2("failed to write lock info: ", out.stderr.as_str())),
                            )
                        }
                    },
                }
            },
            LockStage::Checking => match output {
                Err(e) => {
                    self.stage = LockStage::Finished;
                    let m = e.to_string();
                    LockAction::Failed(DeployError::lock_error(join2("failed to read lock info: ", m.as_str())))
                },
                Ok(out) => {
                    let keep = out.success() && match &parsed {
                        Some(l) => !self.force && !l.is_stale_at(now),
                        None => false,
                    };
                    if keep {
                        self.stage = LockStage::Confirming;
                        LockAction::Run(join3("cat '", info.as_str(), "'"))
                    } else {
                        self.stage = LockStage::Breaking;
                        LockAction::Run(join3("rm -rf '", path.as_str(), "'"))
                    }
                },
            },
            LockStage::Confirming => {
                self.stage = LockStage::Finished;
                match (output, parsed) {
                    (Ok(_), Some(l)) => LockAction::Failed(DeployError::lock_held(l.holder, l.pid, l.started_at)),
                    _ => LockAction::Failed(DeployError::lock_error(own("lock held by another process"))),
                }
            },
            LockStage::Breaking => match output {
                Err(e) => {
                    self.stage = LockStage::Finished;
                    let m = e.to_string();
                    LockAction::Failed(DeployError::lock_error(join2("failed to break lock: ", m.as_str())))
                },
                Ok(_) => {
                    self.stage = LockStage::Recreating;
                    LockAction::Run(join3("mkdir '", path.as_str(), "'"))
                },
            },
            LockStage::Finished => {
                LockAction::Failed(DeployError::lock_error(own("lock held by another process")))
            },
        }
    }

    fn write_command(&self, info: &str) -> (r: String)
        ensures
            r@ == write_command(self.lock_json@, info@),
    {
        let body = escape_single_quotes(self.lock_json.as_str());
        let mut cmd = join3("echo '", body.as_str(), "' > '");
        cmd.append(info);
        cmd.append("'");
        cmd
    }
}

/// The lock is reported acquired only after the holder file was written
/// successfully: never straight after `mkdir`, nor after a failed write.
pub proof fn lemma_acquired_only_after_write(
    stage: LockStage,
    service: Seq<char>,
    json: Seq<char>,
    force: bool,
    output: Result<CommandOutput, SshError>,
    parsed: Option<LockInfo>,
    now: Timestamp,
    next: LockStage,
    o: LockOutcome,
)
    requires
        lock_step(stage, service, json, force, output, parsed, now, next, o),
        o is Acquired,
    ensures
        stage == LockStage::Writing,
        output matches Ok(out) && out.exit_code == 0,
{
}

/// A readable lock of someone else that is neither forced nor stale is never
/// broken: it is read once more to report its holder.
pub proof fn lemma_live_lock_is_kept(
    service: Seq<char>,
    json: Seq<char>,
    out: CommandOutput,
    l: LockInfo,
    now: Timestamp,
    next: LockStage,
    o: LockOutcome,
)
    requires
        lock_step(LockStage::Checking, service, json, false, Ok(out), Some(l), now, next, o),
        out.exit_code == 0,
        !stale_at(l.started_at, now),
    ensures
        next == LockStage::Confirming,
        o == LockOutcome::Run(cat_command(spec_lock_info_path(service))),
{
}

} // verus!

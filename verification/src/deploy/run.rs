//! A deployment to all of a configuration's servers, with its hooks: every
//! server's pre-deploy hook first, where any failure ends the run before a
//! server is touched; then the servers one by one, where the first failure
//! runs that server's on-error hook and ends the run with the failure; and,
//! when all succeeded, every server's post-deploy hook, whose failures are
//! only reported.
use crate::error::Error;
use crate::hooks::HookPoint;
use crate::text::own;
use vstd::prelude::*;

verus! {

/// Where a run stands.
#[derive(Debug, Clone, Copy, PartialEq, Eq, Structural)]
pub enum RunStage {
    PreDeploy,
    Deploy,
    OnError,
    PostDeploy,
    Finished,
}

/// What happened since the last step.
#[derive(Debug)]
pub enum RunEvent {
    /// A hook ran: `None` when the project has none for that point, otherwise
    /// whether it succeeded.
    HookRan(Option<bool>),
    /// Deploying to the current server came to this.
    Deployed(Result<(), Error>),
}

/// What to do next.
#[derive(Debug)]
pub enum RunAction {
    /// Run the hook for `point` with the context of server `server`.
    RunHook { point: HookPoint, server: usize },
    /// Deploy to server `server`.
    DeployTo(usize),
    /// The run is over, with this result.
    Finish(Result<(), Error>),
}

/// A run in progress over `servers` servers.
#[derive(Debug)]
pub struct DeployRun {
    pub servers: usize,
    pub stage: RunStage,
    /// The server the current step is about.
    pub index: usize,
    /// The failure that ends the run once the on-error hook ran.
    pub failure: Option<Error>,
}

/// A run's state as plain values.
pub struct RunState {
    pub servers: nat,
    pub stage: RunStage,
    pub index: nat,
    pub failure: Option<Error>,
}

impl DeployRun {
    pub open spec fn state(&self) -> RunState {
        RunState { servers: self.servers as nat, stage: self.stage, index: self.index as nat, failure: self.failure }
    }

    /// Whether the run is consistent: a server to be about, and a failure kept
    /// exactly while its on-error hook runs.
    pub open spec fn wf(&self) -> bool {
        &&& self.index < self.servers
        &&& (self.failure is Some <==> self.stage == RunStage::OnError)
    }
}

/// One step of a run, from state `s` and event `e` to state `t` and action `a`.
pub open spec fn run_step(s: RunState, e: RunEvent, t: RunState, a: RunAction) -> bool {
    match (s.stage, e) {
        (RunStage::PreDeploy, RunEvent::HookRan(Some(false))) => t == (RunState { stage: RunStage::Finished, ..s })
            && (a matches RunAction::Finish(Err(Error::Hook(m))) && m@ == "pre-deploy hook failed"@),
        (RunStage::PreDeploy, RunEvent::HookRan(_)) => if s.index + 1 < s.servers {
            t == (RunState { index: s.index + 1, ..s })
                && a == (RunAction::RunHook { point: HookPoint::PreDeploy, server: (s.index + 1) as usize })
        } else {
            t == (RunState { stage: RunStage::Deploy, index: 0, ..s }) && a == RunAction::DeployTo(0)
        },
        (RunStage::Deploy, RunEvent::Deployed(Ok(()))) => if s.index + 1 < s.servers {
            t == (RunState { index: s.index + 1, ..s }) && a == RunAction::DeployTo((s.index + 1) as usize)
        } else {
            t == (RunState { stage: RunStage::PostDeploy, index: 0, ..s })
                && a == (RunAction::RunHook { point: HookPoint::PostDeploy, server: 0 })
        },
        (RunStage::Deploy, RunEvent::Deployed(Err(err))) => t == (RunState {
            stage: RunStage::OnError,
            failure: Some(err),
            ..s
        }) && a == (RunAction::RunHook { point: HookPoint::OnError, server: s.index as usize }),
        (RunStage::OnError, RunEvent::HookRan(_)) => t == (RunState { stage: RunStage::Finished, failure: None, ..s })
            && a == RunAction::Finish(Err(s.failure->0)),
        (RunStage::PostDeploy, RunEvent::HookRan(_)) => if s.index + 1 < s.servers {
            t == (RunState { index: s.index + 1, ..s })
                && a == (RunAction::RunHook { point: HookPoint::PostDeploy, server: (s.index + 1) as usize })
        } else {
            t == (RunState { stage: RunStage::Finished, ..s }) && a == RunAction::Finish(Ok(()))
        },
        _ => false,
    }
}

impl DeployRun {
    /// Starts a run over `servers` servers: the first pre-deploy hook.
    pub fn start(servers: usize) -> (r: (Self, RunAction))
        requires
            servers >= 1,
        ensures
            r.0.wf(),
            r.0.servers == servers,
            r.0.stage == RunStage::PreDeploy,
            r.0.index == 0,
            r.1 == (RunAction::RunHook { point: HookPoint::PreDeploy, server: 0 }),
    {
        (
            DeployRun { servers, stage: RunStage::PreDeploy, index: 0, failure: None },
            RunAction::RunHook { point: HookPoint::PreDeploy, server: 0 },
        )
    }

    /// Takes what happened and says what to do next. A hook's outcome comes
    /// after a hook, a deployment's after a deployment.
    pub fn step(&mut self, event: RunEvent) -> (a: RunAction)
        requires
            old(self).wf(),
            old(self).stage != RunStage::Finished,
            event is Deployed <==> old(self).stage == RunStage::Deploy,
        ensures
            final(self).stage != RunStage::Finished ==> final(self).wf(),
            final(self).stage == RunStage::Finished ==> final(self).failure is None,
            run_step(old(self).state(), event, final(self).state(), a),
    {
        match self.stage {
            RunStage::PreDeploy => match event {
                RunEvent::HookRan(Some(false)) => {
                    self.stage = RunStage::Finished;
                    let a = RunAction::Finish(Err(Error::Hook(own("pre-deploy hook failed"))));
                    a
                },
                _ => if self.index + 1 < self.servers {
                    self.index = self.index + 1;
                    RunAction::RunHook { point: HookPoint::PreDeploy, server: self.index }
                } else {
                    self.stage = RunStage::Deploy;
                    self.index = 0;
                    RunAction::DeployTo(0)
                },
            },
            RunStage::Deploy => match event {
                RunEvent::Deployed(Ok(())) => if self.index + 1 < self.servers {
                    self.index = self.index + 1;
                    RunAction::DeployTo(self.index)
                } else {
                    self.stage = RunStage::PostDeploy;
                    self.index = 0;
                    RunAction::RunHook { point: HookPoint::PostDeploy, server: 0 }
                },
                RunEvent::Deployed(Err(e)) => {
                    self.stage = RunStage::OnError;
                    self.failure = Some(e);
                    RunAction::RunHook { point: HookPoint::OnError, server: self.index }
                },
                RunEvent::HookRan(_) => {
                    assert(false);
                    RunAction::Finish(Ok(()))
                },
            },
            RunStage::OnError => {
                let mut f: Option<Error> = None;
                std::mem::swap(&mut f, &mut self.failure);
                self.stage = RunStage::Finished;
                match f {
                    Some(e) => RunAction::Finish(Err(e)),
                    None => {
                        assert(false);
                        RunAction::Finish(Ok(()))
                    },
                }
            },
            RunStage::PostDeploy => if self.index + 1 < self.servers {
                self.index = self.index + 1;
                RunAction::RunHook { point: HookPoint::PostDeploy, server: self.index }
            } else {
                self.stage = RunStage::Finished;
                RunAction::Finish(Ok(()))
            },
            RunStage::Finished => {
                assert(false);
                RunAction::Finish(Ok(()))
            },
        }
    }
}

/// A deployment failure on a server ends the run with that failure as soon as
/// the server's on-error hook ran, whatever the hook did; no later server is
/// deployed to.
pub proof fn lemma_failed_server_ends_run(
    s: RunState,
    err: Error,
    hook: Option<bool>,
    s2: RunState,
    a2: RunAction,
    s3: RunState,
    a3: RunAction,
)
    requires
        s.stage == RunStage::Deploy,
        run_step(s, RunEvent::Deployed(Err(err)), s2, a2),
        run_step(s2, RunEvent::HookRan(hook), s3, a3),
    ensures
        a2 == (RunAction::RunHook { point: HookPoint::OnError, server: s.index as usize }),
        a3 == RunAction::Finish(Err(err)),
        s3.stage == RunStage::Finished,
{
}

} // verus!

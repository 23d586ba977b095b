//! Manual rollback: the running container of a service and its stopped
//! predecessor swap places. The predecessor is started, takes over the
//! service's network alias, and the formerly active container is stopped, so
//! that a second rollback returns to where the first began.
//!
//! Each function here decides one step from what the runtime reported for the
//! work before it.
use crate::deploy::deployment::already_connected_text;
use crate::deploy::deployment::is_already_connected;
use crate::deploy::actions::{action_view, connect_step, disconnect_step, start_step, steps_view, stop_step, ActionStep, ActionView};
use crate::deploy::error::{DeployError, DeployErrorDetail};
use crate::runtime::traits::{container_error_text, network_error_text};
use crate::runtime::{ContainerError, ContainerSummary, NetworkError};
use crate::text::{join2, own, str_eq};
use crate::types::{ContainerId, NetworkAlias, NetworkId, ServiceName};
use std::time::Duration;
use vstd::prelude::*;

verus! {

/// The two containers a rollback swaps, and the alias the service is reached by.
#[derive(Debug)]
pub struct RollbackPlan {
    /// The running container, to be stopped.
    pub active: ContainerId,
    /// The stopped container, to be started.
    pub previous: ContainerId,
    /// The service's network alias, to be moved to `previous`.
    pub alias: NetworkAlias,
}

/// The calls of a rollback that swaps `active` for `previous` on `network`,
/// in order: start the previous container, disconnect the active one (its
/// failure passed over), connect the previous one under `alias`, and stop the
/// active one with `stop_timeout`.
pub open spec fn rollback_calls(
    active: Seq<char>,
    previous: Seq<char>,
    network: Seq<char>,
    alias: Seq<char>,
    stop_timeout: Duration,
) -> Seq<(ActionView, bool)> {
    seq![
        (ActionView::Start(previous), true),
        (ActionView::Disconnect(active, network), false),
        (ActionView::Connect(previous, network, seq![alias]), true),
        (ActionView::Stop(active, stop_timeout), true),
    ]
}

/// Whether container `id` runs after the calls `steps`, given whether it ran
/// before: a start makes it run, a stop stops it, other calls leave it.
pub open spec fn runs_after(steps: Seq<(ActionView, bool)>, id: Seq<char>, before: bool) -> bool
    decreases steps.len(),
{
    if steps.len() == 0 {
        before
    } else {
        let now = match steps[0].0 {
            ActionView::Start(c) => if c == id {
                true
            } else {
                before
            },
            ActionView::Stop(c, _) => if c == id {
                false
            } else {
                before
            },
            _ => before,
        };
        runs_after(steps.drop_first(), id, now)
    }
}

/// Whether container `id` carries `alias` on `network` after the calls
/// `steps`, given whether it did before: a connection to that network under
/// aliases that include `alias` gives it the alias, a disconnection from that
/// network takes it away, other calls leave it.
pub open spec fn has_alias_after(
    steps: Seq<(ActionView, bool)>,
    id: Seq<char>,
    network: Seq<char>,
    alias: Seq<char>,
    before: bool,
) -> bool
    decreases steps.len(),
{
    if steps.len() == 0 {
        before
    } else {
        let now = match steps[0].0 {
            ActionView::Connect(c, n, aliases) => if c == id && n == network && aliases.contains(alias) {
                true
            } else {
                before
            },
            ActionView::Disconnect(c, n) => if c == id && n == network {
                false
            } else {
                before
            },
            _ => before,
        };
        has_alias_after(steps.drop_first(), id, network, alias, now)
    }
}

impl RollbackPlan {
    /// The calls of the swap on `network`, in order: start the previous
    /// container, disconnect the active one (a failure is passed over), connect
    /// the previous one under the service alias, and stop the active one with
    /// `stop_timeout`. Their outcomes are what `previous_started`,
    /// `previous_connected` and `active_stopped` take.
    pub fn actions(&self, network: &NetworkId, stop_timeout: Duration) -> (r: Vec<ActionStep>)
        ensures
            steps_view(r@) == rollback_calls(self.active@, self.previous@, network@, self.alias@, stop_timeout),
    {
        let mut v: Vec<ActionStep> = Vec::new();
        v.push(start_step(&self.previous, true));
        v.push(disconnect_step(&self.active, network));
        v.push(connect_step(&self.previous, network, &self.alias));
        v.push(stop_step(&self.active, stop_timeout, true));
        assert(steps_view(v@) =~= seq![
            (ActionView::Start(self.previous@), true),
            (ActionView::Disconnect(self.active@, network@), false),
            (ActionView::Connect(self.previous@, network@, seq![self.alias@]), true),
            (ActionView::Stop(self.active@, stop_timeout), true),
        ]);
        v
    }
}

/// Whether a listed container is running.
pub open spec fn is_running(c: ContainerSummary) -> bool {
    c.state@ == "running"@
}

/// The first container of `cs` that is running (`running`) or not.
pub open spec fn first_in_state(cs: Seq<ContainerSummary>, running: bool) -> Option<int> {
    if exists|i: int| 0 <= i < cs.len() && is_running(#[trigger] cs[i]) == running {
        Some(
            choose|i: int|
                0 <= i < cs.len() && is_running(#[trigger] cs[i]) == running && forall|j: int|
                    0 <= j < i ==> is_running(#[trigger] cs[j]) != running,
        )
    } else {
        None
    }
}

/// The index of the first container of `cs` that is running, or not.
fn find_in_state(cs: &Vec<ContainerSummary>, running: bool) -> (r: Option<usize>)
    ensures
        match r {
            Some(i) => i < cs@.len() && is_running(cs@[i as int]) == running && forall|j: int|
                0 <= j < i ==> is_running(#[trigger] cs@[j]) != running,
            None => forall|j: int| 0 <= j < cs@.len() ==> is_running(#[trigger] cs@[j]) != running,
        },
        r is Some <==> first_in_state(cs@, running) is Some,
        r matches Some(i) ==> first_in_state(cs@, running) == Some(i as int),
{
    let mut i: usize = 0;
    while i < cs.len()
        invariant
            i <= cs@.len(),
            forall|j: int| 0 <= j < i ==> is_running(#[trigger] cs@[j]) != running,
        decreases cs.len() - i,
    {
        proof {
            reveal_strlit("running");
        }
        if str_eq(cs[i].state.as_str(), "running") == running {
            proof {
                let w = choose|k: int|
                    0 <= k < cs@.len() && is_running(#[trigger] cs@[k]) == running && forall|j: int|
                        0 <= j < k ==> is_running(#[trigger] cs@[j]) != running;
                assert(0 <= i < cs@.len() && is_running(cs@[i as int]) == running);
                if w < i {
                    assert(is_running(cs@[w]) != running);
                } else if w > i {
                    assert(is_running(cs@[i as int]) != running);
                }
            }
            return Some(i);
        }
        i = i + 1;
    }
    None
}

/// Decides the swap from the service's containers as listed (see
/// `ContainerFilters::for_service`): the first running one is the active
/// container, the first stopped one the previous. It fails when the listing
/// failed, when nothing runs, or when there is nothing to go back to.
pub fn plan_rollback(service: &ServiceName, listed: Result<Vec<ContainerSummary>, ContainerError>) -> (r:
    Result<RollbackPlan, DeployError>)
    ensures
        match listed {
            Err(e) => r is Err && r->Err_0@ is RollbackFailed && r->Err_0@->RollbackFailed_message@
                == "failed to list containers: "@ + container_error_text(e),
            Ok(cs) => match (first_in_state(cs@, true), first_in_state(cs@, false)) {
                (None, _) => r is Err && r->Err_0@ is RollbackFailed
                    && r->Err_0@->RollbackFailed_message@ == "no running container found for service"@,
                (Some(_), None) => r is Err && r->Err_0@ is NoPreviousDeployment
                    && r->Err_0@->NoPreviousDeployment_service@ == service@,
                (Some(a), Some(p)) => r is Ok && r->Ok_0.active@ == cs@[a].id@ && r->Ok_0.previous@
                    == cs@[p].id@ && r->Ok_0.alias@ == service@,
            },
        },
{
    let cs = match listed {
        Err(e) => {
            let m = e.to_string();
            return Err(DeployError::rollback_failed(join2("failed to list containers: ", m.as_str())));
        },
        Ok(cs) => cs,
    };
    let a = match find_in_state(&cs, true) {
        Some(a) => a,
        None => {
            return Err(DeployError::rollback_failed(own("no running container found for service")));
        },
    };
    let p = match find_in_state(&cs, false) {
        Some(p) => p,
        None => {
            return Err(DeployError::no_previous_deployment(service.to_string()));
        },
    };
    Ok(RollbackPlan {
        active: cs[a].id.duplicate(),
        previous: cs[p].id.duplicate(),
        alias: service.as_alias(),
    })
}

/// The step after starting the previous container.
pub fn previous_started(started: Result<(), ContainerError>) -> (r: Result<(), DeployError>)
    ensures
        match started {
            Ok(()) => r is Ok,
            Err(e) => r is Err && r->Err_0@ is RollbackFailed && r->Err_0@->RollbackFailed_message@
                == "failed to start previous container: "@ + container_error_text(e),
        },
{
    match started {
        Ok(()) => Ok(()),
        Err(e) => {
            let m = e.to_string();
            Err(DeployError::rollback_failed(join2("failed to start previous container: ", m.as_str())))
        },
    }
}

/// The step after moving the alias: the active container was disconnected (a
/// failure there is ignored) and the previous one connected; a connection
/// refused because it is connected already counts as done.
pub fn previous_connected(connected: Result<(), NetworkError>) -> (r: Result<(), DeployError>)
    ensures
        match connected {
            Ok(()) => r is Ok,
            Err(e) => (r is Ok <==> already_connected_text(network_error_text(e))) && (r is Err
                ==> r->Err_0@ is RollbackFailed && r->Err_0@->RollbackFailed_message@
                == "failed to connect previous container to network: "@ + network_error_text(e)),
        },
{
    match connected {
        Ok(()) => Ok(()),
        Err(e) => {
            let m = e.to_string();
            if is_already_connected(m.as_str()) {
                Ok(())
            } else {
                Err(
                    DeployError::rollback_failed(
                        join2("failed to connect previous container to network: ", m.as_str()),
                    ),
                )
            }
        },
    }
}

/// The last step, after stopping the formerly active container.
pub fn active_stopped(stopped: Result<(), ContainerError>) -> (r: Result<(), DeployError>)
    ensures
        match stopped {
            Ok(()) => r is Ok,
            Err(e) => r is Err && r->Err_0@ is RollbackFailed && r->Err_0@->RollbackFailed_message@
                == "failed to stop active container: "@ + container_error_text(e),
        },
{
    match stopped {
        Ok(()) => Ok(()),
        Err(e) => {
            let m = e.to_string();
            Err(DeployError::rollback_failed(join2("failed to stop active container: ", m.as_str())))
        },
    }
}

/// Rolling back twice, with the runtime doing what each rollback asks, puts
/// every container back in the state it was in: for a service's two
/// containers, one running with the service alias on the network and one
/// stopped without it, the first rollback's calls make the stopped one run with
/// the alias and stop the other, taking its alias away; the second rollback,
/// planned from the containers as they are then listed (in either order),
/// swaps them back, alias and all.
pub proof fn lemma_rollback_calls_ping_pong(
    cs: Seq<ContainerSummary>,
    after: Seq<ContainerSummary>,
    network: Seq<char>,
    alias: Seq<char>,
    t1: Duration,
    t2: Duration,
)
    requires
        cs.len() == 2,
        cs[0].id@ != cs[1].id@,
        is_running(cs[0]) != is_running(cs[1]),
        after.len() == 2,
        (after[0].id@ == cs[0].id@ && after[1].id@ == cs[1].id@) || (after[0].id@ == cs[1].id@
            && after[1].id@ == cs[0].id@),
        first_in_state(cs, true) is Some && first_in_state(cs, false) is Some ==> forall|i: int, j: int|
            0 <= i < 2 && 0 <= j < 2 && after[i].id@ == cs[j].id@ ==> is_running(#[trigger] after[i])
                == runs_after(
                rollback_calls(
                    cs[first_in_state(cs, true)->0].id@,
                    cs[first_in_state(cs, false)->0].id@,
                    network,
                    alias,
                    t1,
                ),
                #[trigger] cs[j].id@,
                is_running(cs[j]),
            ),
    ensures
        first_in_state(cs, true) is Some,
        first_in_state(cs, false) is Some,
        first_in_state(after, true) is Some,
        first_in_state(after, false) is Some,
        forall|i: int| #![trigger cs[i]] 0 <= i < 2 ==> runs_after(
            rollback_calls(
                after[first_in_state(after, true)->0].id@,
                after[first_in_state(after, false)->0].id@,
                network,
                alias,
                t2,
            ),
            cs[i].id@,
            runs_after(
                rollback_calls(
                    cs[first_in_state(cs, true)->0].id@,
                    cs[first_in_state(cs, false)->0].id@,
                    network,
                    alias,
                    t1,
                ),
                cs[i].id@,
                is_running(cs[i]),
            ),
        ) == is_running(cs[i]),
        forall|i: int| #![trigger cs[i]] 0 <= i < 2 ==> {
            let first = rollback_calls(
                cs[first_in_state(cs, true)->0].id@,
                cs[first_in_state(cs, false)->0].id@,
                network,
                alias,
                t1,
            );
            let second = rollback_calls(
                after[first_in_state(after, true)->0].id@,
                after[first_in_state(after, false)->0].id@,
                network,
                alias,
                t2,
            );
            let swapped = has_alias_after(first, cs[i].id@, network, alias, is_running(cs[i]));
            &&& runs_after(first, cs[i].id@, is_running(cs[i])) == !is_running(cs[i])
            &&& swapped == !is_running(cs[i])
            &&& has_alias_after(second, cs[i].id@, network, alias, swapped) == is_running(cs[i])
        },
{
    reveal_with_fuel(runs_after, 5);
    reveal_with_fuel(has_alias_after, 5);
    assert(seq![alias].contains(alias)) by {
        assert(seq![alias][0] == alias);
    }
    let (a, p): (int, int) = if is_running(cs[0]) {
        (0, 1)
    } else {
        (1, 0)
    };
    lemma_first_unique(cs, true, a);
    lemma_first_unique(cs, false, p);
    let ida = cs[a].id@;
    let idp = cs[p].id@;
    let first = rollback_calls(ida, idp, network, alias, t1);
    assert(runs_after(first, idp, false) == true);
    assert(runs_after(first, ida, true) == false);
    let (qa, qp): (int, int) = if after[0].id@ == idp {
        (0, 1)
    } else {
        (1, 0)
    };
    assert(after[qa].id@ == idp && after[qp].id@ == ida);
    assert(is_running(after[qa]) == runs_after(first, cs[p].id@, is_running(cs[p])));
    assert(is_running(after[qp]) == runs_after(first, cs[a].id@, is_running(cs[a])));
    lemma_first_unique(after, true, qa);
    lemma_first_unique(after, false, qp);
    let second = rollback_calls(idp, ida, network, alias, t2);
    assert(runs_after(second, ida, false) == true);
    assert(runs_after(second, idp, true) == false);
    assert(has_alias_after(first, idp, network, alias, false) == true);
    assert(has_alias_after(first, ida, network, alias, true) == false);
    assert(has_alias_after(second, ida, network, alias, false) == true);
    assert(has_alias_after(second, idp, network, alias, true) == false);
}

/// The containers `after` a rollback of `cs` that started the container at
/// `p` and stopped the one at `a`, the others as they were.
pub open spec fn rolled_back(cs: Seq<ContainerSummary>, after: Seq<ContainerSummary>, a: int, p: int) -> bool {
    &&& after.len() == cs.len()
    &&& forall|i: int| 0 <= i < cs.len() ==> (#[trigger] after[i]).id@ == cs[i].id@
    &&& is_running(after[p])
    &&& !is_running(after[a])
    &&& forall|i: int|
        0 <= i < cs.len() && i != a && i != p ==> is_running(#[trigger] after[i]) == is_running(cs[i])
}

proof fn lemma_first_unique(cs: Seq<ContainerSummary>, running: bool, k: int)
    requires
        0 <= k < cs.len(),
        is_running(cs[k]) == running,
        forall|j: int| 0 <= j < cs.len() && j != k ==> is_running(#[trigger] cs[j]) != running,
    ensures
        first_in_state(cs, running) == Some(k),
{
    assert(is_running(cs[k]) == running);
    let w = choose|i: int|
        0 <= i < cs.len() && is_running(#[trigger] cs[i]) == running && forall|j: int|
            0 <= j < i ==> is_running(#[trigger] cs[j]) != running;
    assert(forall|j: int| 0 <= j < k ==> is_running(#[trigger] cs[j]) != running);
    assert(0 <= w < cs.len() && is_running(cs[w]) == running);
    if w != k {
        assert(is_running(cs[w]) != running);
    }
}

/// Rolling back twice returns to the start: for a service's two containers,
/// one running and one stopped, a second rollback stops the container that the
/// first started and starts the one that it stopped.
pub proof fn lemma_rollback_ping_pong(cs: Seq<ContainerSummary>, after: Seq<ContainerSummary>)
    requires
        cs.len() == 2,
        first_in_state(cs, true) is Some,
        first_in_state(cs, false) is Some,
        rolled_back(cs, after, first_in_state(cs, true)->0, first_in_state(cs, false)->0),
    ensures
        first_in_state(after, true) == first_in_state(cs, false),
        first_in_state(after, false) == first_in_state(cs, true),
{
    let a = first_in_state(cs, true)->0;
    let p = first_in_state(cs, false)->0;
    let wa = choose|i: int|
        0 <= i < cs.len() && is_running(#[trigger] cs[i]) == true && forall|j: int|
            0 <= j < i ==> is_running(#[trigger] cs[j]) != true;
    let wp = choose|i: int|
        0 <= i < cs.len() && is_running(#[trigger] cs[i]) == false && forall|j: int|
            0 <= j < i ==> is_running(#[trigger] cs[j]) != false;
    assert(a == wa && p == wp);
    assert(is_running(cs[a]) && !is_running(cs[p]));
    assert(a != p);
    assert forall|j: int| 0 <= j < after.len() && j != p implies is_running(#[trigger] after[j]) != true by {
        assert(j == a || j == p);
    }
    assert forall|j: int| 0 <= j < after.len() && j != a implies is_running(#[trigger] after[j]) != false by {
        assert(j == a || j == p);
    }
    lemma_first_unique(after, true, p);
    lemma_first_unique(after, false, a);
}

} // verus!

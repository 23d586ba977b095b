//! What a deployment step asks of the container runtime, in order. The caller
//! performs the steps one after another and hands their outcomes to the step
//! that asked for them; a failure of a step that must succeed ends the
//! sequence, any other failure is passed over.
use crate::config::Config;
use crate::deploy::deployment::{already_connected_text, is_already_connected};
use crate::time::{duration_secs, duration_subsec_nanos, is_whole_secs};
use crate::types::{ContainerId, NetworkAlias, NetworkId};
use std::time::Duration;
use vstd::prelude::*;

verus! {

/// One call on the container runtime.
#[derive(Debug)]
pub enum RuntimeAction {
    /// Wait this long before going on.
    Wait(Duration),
    /// Start the container.
    Start { container: ContainerId },
    /// Stop the container, killing it after `timeout`.
    Stop { container: ContainerId, timeout: Duration },
    /// Remove the container (`force`: even while it runs).
    Remove { container: ContainerId, force: bool },
    /// Connect the container to the network under the aliases.
    Connect { container: ContainerId, network: NetworkId, aliases: Vec<NetworkAlias> },
    /// Disconnect the container from the network.
    Disconnect { container: ContainerId, network: NetworkId },
}

/// An action, and whether its failure ends the sequence.
#[derive(Debug)]
pub struct ActionStep {
    pub action: RuntimeAction,
    pub must_succeed: bool,
}

/// An action as plain values.
pub enum ActionView {
    Wait(Duration),
    Start(Seq<char>),
    Stop(Seq<char>, Duration),
    Remove(Seq<char>, bool),
    Connect(Seq<char>, Seq<char>, Seq<Seq<char>>),
    Disconnect(Seq<char>, Seq<char>),
}

pub open spec fn action_view(a: RuntimeAction) -> ActionView {
    match a {
        RuntimeAction::Wait(d) => ActionView::Wait(d),
        RuntimeAction::Start { container } => ActionView::Start(container@),
        RuntimeAction::Stop { container, timeout } => ActionView::Stop(container@, timeout),
        RuntimeAction::Remove { container, force } => ActionView::Remove(container@, force),
        RuntimeAction::Connect { container, network, aliases } => ActionView::Connect(
            container@,
            network@,
            aliases@.map_values(|x: NetworkAlias| x@),
        ),
        RuntimeAction::Disconnect { container, network } => ActionView::Disconnect(container@, network@),
    }
}

/// Steps as plain values: each action, and whether it must succeed.
pub open spec fn steps_view(s: Seq<ActionStep>) -> Seq<(ActionView, bool)> {
    s.map_values(|x: ActionStep| (action_view(x.action), x.must_succeed))
}

/// Whether `t` is the stop timeout of `c`: the configured one, or thirty seconds.
pub open spec fn stop_timeout_of(c: Config, t: Duration) -> bool {
    match c.stop {
        Some(s) => t == s.timeout,
        None => is_whole_secs(t, 30),
    }
}

/// Whether `g` is the grace period of `c`: the configured one, or thirty seconds.
pub open spec fn grace_period_of(c: Config, g: Duration) -> bool {
    match c.cleanup {
        Some(cl) => g == cl.grace_period,
        None => is_whole_secs(g, 30),
    }
}

/// A duration of no time at all.
pub open spec fn zero_duration(d: Duration) -> bool {
    duration_secs(d) == 0 && duration_subsec_nanos(d) == 0
}

/// Whether the outcome of `step` ends the sequence: a failure (its message)
/// of a step that must succeed, except a connection refused because the
/// container is already on the network, which counts as done.
pub fn ends_sequence(step: &ActionStep, failure: Option<&str>) -> (r: bool)
    ensures
        r == (step.must_succeed && match failure {
            None => false,
            Some(t) => !(step.action is Connect && already_connected_text(t@)),
        }),
{
    match failure {
        None => false,
        Some(t) => step.must_succeed && !(matches!(step.action, RuntimeAction::Connect { .. })
            && is_already_connected(t)),
    }
}

pub(crate) fn start_step(c: &ContainerId, must_succeed: bool) -> (r: ActionStep)
    ensures
        action_view(r.action) == ActionView::Start(c@),
        r.must_succeed == must_succeed,
{
    ActionStep { action: RuntimeAction::Start { container: c.duplicate() }, must_succeed }
}

pub(crate) fn stop_step(c: &ContainerId, timeout: Duration, must_succeed: bool) -> (r: ActionStep)
    ensures
        action_view(r.action) == ActionView::Stop(c@, timeout),
        r.must_succeed == must_succeed,
{
    ActionStep { action: RuntimeAction::Stop { container: c.duplicate(), timeout }, must_succeed }
}

pub(crate) fn remove_step(c: &ContainerId, must_succeed: bool) -> (r: ActionStep)
    ensures
        action_view(r.action) == ActionView::Remove(c@, true),
        r.must_succeed == must_succeed,
{
    ActionStep { action: RuntimeAction::Remove { container: c.duplicate(), force: true }, must_succeed }
}

pub(crate) fn connect_step(c: &ContainerId, n: &NetworkId, alias: &NetworkAlias) -> (r: ActionStep)
    ensures
        action_view(r.action) == ActionView::Connect(c@, n@, seq![alias@]),
        r.must_succeed,
{
    let mut aliases: Vec<NetworkAlias> = Vec::new();
    aliases.push(alias.clone());
    proof {
        assert(aliases@.map_values(|x: NetworkAlias| x@) =~= seq![alias@]);
    }
    ActionStep {
        action: RuntimeAction::Connect { container: c.duplicate(), network: n.duplicate(), aliases },
        must_succeed: true,
    }
}

pub(crate) fn disconnect_step(c: &ContainerId, n: &NetworkId) -> (r: ActionStep)
    ensures
        action_view(r.action) == ActionView::Disconnect(c@, n@),
        !r.must_succeed,
{
    ActionStep {
        action: RuntimeAction::Disconnect { container: c.duplicate(), network: n.duplicate() },
        must_succeed: false,
    }
}

/// Removing orphaned containers: each is stopped with `stop_timeout` and then
/// removed (with `force`: even while it runs), in order; neither failure ends
/// the sequence, and the removals' outcomes are what `cleanup_orphans`
/// accounts for.
pub fn orphan_cleanup_actions(orphans: &[ContainerId], force: bool, stop_timeout: Duration) -> (r: Vec<ActionStep>)
    requires
        2 * orphans@.len() <= usize::MAX,
    ensures
        steps_view(r@).len() == 2 * orphans@.len(),
        forall|i: int| 0 <= i < orphans@.len() ==> steps_view(r@)[2 * i] == (ActionView::Stop(
            #[trigger] orphans@[i]@,
            stop_timeout,
        ), false) && steps_view(r@)[2 * i + 1] == (ActionView::Remove(orphans@[i]@, force), false),
{
    let mut out: Vec<ActionStep> = Vec::new();
    let mut i: usize = 0;
    while i < orphans.len()
        invariant
            i <= orphans@.len(),
            out@.len() == 2 * i,
            forall|j: int| 0 <= j < i ==> steps_view(out@)[2 * j] == (ActionView::Stop(
                #[trigger] orphans@[j]@,
                stop_timeout,
            ), false) && steps_view(out@)[2 * j + 1] == (ActionView::Remove(orphans@[j]@, force), false),
        decreases orphans@.len() - i,
    {
        out.push(stop_step(&orphans[i], stop_timeout, false));
        out.push(ActionStep {
            action: RuntimeAction::Remove { container: orphans[i].duplicate(), force },
            must_succeed: false,
        });
        proof {
            assert forall|j: int| 0 <= j < i + 1 implies steps_view(out@)[2 * j] == (ActionView::Stop(
                #[trigger] orphans@[j]@,
                stop_timeout,
            ), false) && steps_view(out@)[2 * j + 1] == (ActionView::Remove(orphans@[j]@, force), false) by {
                if j == i {
                    assert(steps_view(out@)[2 * j] == (action_view(out@[2 * j].action), out@[2 * j].must_succeed));
                    assert(steps_view(out@)[2 * j + 1] == (action_view(out@[2 * j + 1].action), out@[2 * j + 1].must_succeed));
                }
            }
        }
        i = i + 1;
    }
    out
}

} // verus!

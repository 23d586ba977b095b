//! The decisions of a deployment to one server around the state machine:
//! which container is being replaced, how the strategy treats it, and which
//! containers count as known when orphans are looked for afterwards.
use crate::config::Config;
use crate::deploy::deployment::Deployment;
use crate::deploy::error::DeployError;
use crate::deploy::state::Initialized;
use crate::deploy::strategy::DeployStrategy;
use crate::runtime::traits::{container_error_text, exec_error_text};
use crate::runtime::{ContainerError, ContainerSummary, ExecError};
use crate::text::{dec, dec_string, join2, own};
use crate::types::ContainerId;
use vstd::prelude::*;

verus! {

/// The container now serving the service, from the service's running
/// containers as listed: the first one, if any.
pub fn existing_container(listed: Result<Vec<ContainerSummary>, ContainerError>) -> (r: Result<
    Option<ContainerId>,
    DeployError,
>)
    ensures
        match listed {
            Ok(cs) => r matches Ok(o) && (cs@.len() == 0 ==> o is None) && (cs@.len() > 0 ==> (o matches Some(
                id,
            ) && id@ == cs@[0].id@)),
            Err(e) => r matches Err(d) && d@ is ConfigError && d@->ConfigError_message@
                == "failed to list containers: "@ + container_error_text(e),
        },
{
    match listed {
        Ok(cs) => if cs.len() > 0 {
            Ok(Some(cs[0].id.duplicate()))
        } else {
            Ok(None)
        },
        Err(e) => {
            let m = e.to_string();
            Err(DeployError::config_error(join2("failed to list containers: ", m.as_str())))
        },
    }
}

/// How a deployment starts: the state machine, and the container that the
/// recreate strategy stops before it and removes after it.
#[derive(Debug)]
pub struct DeploymentPlan {
    pub deployment: Deployment<Initialized>,
    /// Stopped first and removed after a successful deployment.
    pub replaced_first: Option<ContainerId>,
}

/// The plan for deploying `config` over `old`, the container serving now, with
/// `strategy`. Blue-green hands the old container to the deployment, which
/// switches traffic away from it; recreate stops it before anything starts, and
/// the deployment then runs as a first one.
pub fn plan_deployment(config: Config, strategy: DeployStrategy, old: Option<ContainerId>) -> (r:
    DeploymentPlan)
    ensures
        r.deployment.spec_config() == config,
        match (strategy, old) {
            (DeployStrategy::BlueGreen, Some(id)) => r.deployment.spec_old() == Some(id)
                && r.replaced_first is None,
            (DeployStrategy::Recreate, Some(id)) => r.deployment.spec_old() is None
                && r.replaced_first == Some(id),
            (_, None) => r.deployment.spec_old() is None && r.replaced_first is None,
        },
{
    match (strategy, old) {
        (DeployStrategy::Recreate, Some(id)) => DeploymentPlan {
            deployment: Deployment::new(config),
            replaced_first: Some(id),
        },
        (DeployStrategy::BlueGreen, Some(id)) => DeploymentPlan {
            deployment: Deployment::new_update(config, id),
            replaced_first: None,
        },
        (_, None) => DeploymentPlan { deployment: Deployment::new(config), replaced_first: None },
    }
}

/// The containers that are not orphans after a deployment: the one deployed,
/// and the one serving before, if any.
pub fn known_containers(deployed: &ContainerId, existing: Option<ContainerId>) -> (r: Vec<ContainerId>)
    ensures
        r@.len() == if existing is Some {
            2int
        } else {
            1int
        },
        r@[0]@ == deployed@,
        existing matches Some(e) ==> r@[1] == e,
{
    let mut v: Vec<ContainerId> = Vec::new();
    v.push(deployed.duplicate());
    match existing {
        Some(e) => v.push(e),
        None => {},
    }
    v
}

/// The error when the orphans could not be listed.
pub fn orphan_listing_error(e: &ContainerError) -> (r: DeployError)
    ensures
        r@ is ConfigError && r@->ConfigError_message@ == "failed to detect orphans: "@ + container_error_text(*e),
{
    let m = e.to_string();
    DeployError::config_error(join2("failed to detect orphans: ", m.as_str()))
}

/// The container a command is run in: the one serving the service.
pub fn command_container(existing: Option<ContainerId>) -> (r: Result<ContainerId, DeployError>)
    ensures
        match existing {
            Some(id) => r == Ok::<ContainerId, DeployError>(id),
            None => r matches Err(d) && d@ is ConfigError && d@->ConfigError_message@
                == "no running container found for service"@,
        },
{
    match existing {
        Some(id) => Ok(id),
        None => Err(DeployError::config_error(own("no running container found for service"))),
    }
}

/// The error when running a command in the container failed.
pub fn command_failed(e: &ExecError) -> (r: DeployError)
    ensures
        r@ is ConfigError && r@->ConfigError_message@ == "exec failed: "@ + exec_error_text(*e),
{
    let m = e.to_string();
    DeployError::config_error(join2("exec failed: ", m.as_str()))
}

/// A signed number in decimal.
pub open spec fn signed_dec(n: int) -> Seq<char> {
    if n < 0 {
        "-"@ + dec((-n) as nat)
    } else {
        dec(n as nat)
    }
}

fn signed_dec_string(n: i64) -> (r: String)
    ensures
        r@ == signed_dec(n as int),
{
    if n < 0 {
        let m: u64 = if n == i64::MIN {
            9_223_372_036_854_775_808u64
        } else {
            (-n) as u64
        };
        let d = dec_string(m);
        join2("-", d.as_str())
    } else {
        dec_string(n as u64)
    }
}

/// The outcome of a command that ran: a nonzero exit code is an error naming
/// it.
pub fn command_exit(exit_code: i64) -> (r: Result<(), DeployError>)
    ensures
        exit_code == 0 <==> r is Ok,
        r matches Err(d) ==> d@ is ConfigError && d@->ConfigError_message@ == "command exited with code "@
            + signed_dec(exit_code as int),
{
    if exit_code == 0 {
        Ok(())
    } else {
        let c = signed_dec_string(exit_code);
        Err(DeployError::config_error(join2("command exited with code ", c.as_str())))
    }
}

} // verus!

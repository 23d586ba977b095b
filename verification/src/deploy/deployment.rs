//! A deployment, typed by the state it is in. Each step takes what the
//! runtime reported for the work of that step and yields the next state, or
//! the error that ends the deployment.
use crate::config::{resolve_env_map, Config, PullPolicy};
use crate::config::{HealthcheckConfig, ResourcesConfig};
use crate::config::env_value::resolve_value;
use crate::config::config::same_opt_vec;
use crate::deploy::container::{memory_fits, memory_product, mount_view, parse_memory_string, parse_port_mappings, parse_volume_mounts, parsed_mounts, parsed_ports, port_view};
use crate::deploy::actions::{action_view, connect_step, disconnect_step, grace_period_of, remove_step, steps_view, stop_step, stop_timeout_of, zero_duration, ActionStep, ActionView, RuntimeAction};
use crate::deploy::error::{ContainerErrorExt, DeployError, DeployErrorDetail, ImageErrorExt};
use crate::deploy::state::{Completed, ContainerStarted, CutOver, HealthChecked, ImagePulled, Initialized};
use crate::runtime::{
    ContainerConfig, ContainerError, HealthcheckConfig as RuntimeHealthcheck, ImageError,
    NetworkConfig as RuntimeNetworkConfig, NetworkError, PortMapping, ResourceLimits,
    RestartPolicyConfig, VolumeMount,
};
use crate::runtime::traits::{network_error_text, spec_restart_policy_config};
use crate::strmap::{dup_opt_vec, Duplicate, StrMap};
use crate::text::{contains, join3, own, str_contains};
use crate::time::{as_secs, duration_secs, is_whole_secs, secs};
use crate::types::{ContainerId, ImageRef, NetworkAlias, NetworkId, ServiceName};
use std::time::Duration;
use vstd::prelude::*;

verus! {

/// A deployment in progress, in state `S`.
#[derive(Debug)]
pub struct Deployment<S> {
    pub(crate) config: Config,
    pub(crate) old_container: Option<ContainerId>,
    pub(crate) state: S,
}

impl<S> Deployment<S> {
    /// The configuration being deployed.
    pub closed spec fn spec_config(&self) -> Config {
        self.config
    }

    /// The container being replaced, if any.
    pub closed spec fn spec_old(&self) -> Option<ContainerId> {
        self.old_container
    }

    /// The state.
    pub closed spec fn spec_state(&self) -> S {
        self.state
    }

    pub fn service_name(&self) -> (r: &ServiceName)
        ensures
            *r == self.spec_config().service,
    {
        &self.config.service
    }

    pub fn image(&self) -> (r: &ImageRef)
        ensures
            *r == self.spec_config().image,
    {
        &self.config.image
    }

    pub fn config(&self) -> (r: &Config)
        ensures
            *r == self.spec_config(),
    {
        &self.config
    }

    /// The container being replaced (none on a first deployment).
    pub fn old_container(&self) -> (r: Option<&ContainerId>)
        ensures
            match self.spec_old() {
                Some(c) => r == Some(&c),
                None => r is None,
            },
    {
        match &self.old_container {
            Some(c) => Some(c),
            None => None,
        }
    }

    /// The new container's name: `<service>-green` when an old container is being
    /// replaced, `<service>-blue` on a first deployment.
    pub fn container_name(&self) -> (r: String)
        ensures
            r@ == self.spec_config().service@ + "-"@ + if self.spec_old() is Some {
                "green"@
            } else {
                "blue"@
            },
    {
        let name = self.config.service.to_string();
        let suffix = if self.old_container.is_some() {
            "green"
        } else {
            "blue"
        };
        join3(name.as_str(), "-", suffix)
    }

    /// The network the deployment uses.
    pub fn network_name(&self) -> (r: &str)
        ensures
            r@ == crate::config::config::spec_network_name(self.spec_config()),
    {
        self.config.network_name()
    }

    /// The alias under which the service is reached: its name.
    pub fn service_alias(&self) -> (r: NetworkAlias)
        ensures
            r@ == self.spec_config().service@,
    {
        self.config.service.as_alias()
    }
}

/// What pulling the image came to.
#[derive(Debug)]
pub enum PullOutcome {
    Pulled,
    Failed(ImageError),
    TimedOut,
}

/// Whether a runtime error says that the container is already on the network,
/// in Docker's or Podman's words, in any case.
pub open spec fn already_connected_text(msg: Seq<char>) -> bool {
    contains(crate::text::ascii_lower(msg), "already connected"@) || contains(
        crate::text::ascii_lower(msg),
        "already exists"@,
    )
}

impl Deployment<Initialized> {
    /// A first deployment.
    pub fn new(config: Config) -> (r: Self)
        ensures
            r.spec_config() == config,
            r.spec_old() is None,
    {
        Deployment { config, old_container: None, state: Initialized }
    }

    /// A deployment replacing `old_container`.
    pub fn new_update(config: Config, old_container: ContainerId) -> (r: Self)
        ensures
            r.spec_config() == config,
            r.spec_old() == Some(old_container),
    {
        Deployment { config, old_container: Some(old_container), state: Initialized }
    }

    /// The network to create when it does not exist: the deployment's network,
    /// bridge driver, no labels.
    pub fn network_config(&self) -> (r: RuntimeNetworkConfig)
        ensures
            r.name@ == crate::config::config::spec_network_name(self.spec_config()),
            r.driver matches Some(d) && d@ == "bridge"@,
            r.labels@.len() == 0,
    {
        RuntimeNetworkConfig {
            name: own(self.config.network_name()),
            driver: Some(own("bridge")),
            labels: StrMap::new(),
        }
    }

    /// The network to use, from whether it exists and, when it did not, what
    /// creating it gave. The network's name serves as its identifier. A network
    /// that someone else created meanwhile is as good as one we created.
    pub fn ensure_network(
        &self,
        exists: Result<bool, NetworkError>,
        created: Option<Result<NetworkId, NetworkError>>,
    ) -> (r: Result<NetworkId, DeployError>)
        requires
            created is None <==> exists == Ok::<bool, NetworkError>(true),
        ensures
            match created {
                None => r is Ok,
                Some(Ok(_)) => r is Ok,
                Some(Err(NetworkError::AlreadyExists(_))) => r is Ok,
                Some(Err(e)) => r is Err && r->Err_0@ == (DeployErrorDetail::NetworkCreationFailed {
                    message: r->Err_0@->NetworkCreationFailed_message,
                }) && r->Err_0@->NetworkCreationFailed_message@ == network_error_text(e),
            },
            r is Ok ==> r->Ok_0@ == crate::config::config::spec_network_name(self.spec_config()),
    {
        let name = own(self.config.network_name());
        match created {
            None => Ok(NetworkId::new(name)),
            Some(Ok(_)) => Ok(NetworkId::new(name)),
            Some(Err(NetworkError::AlreadyExists(_))) => Ok(NetworkId::new(name)),
            Some(Err(e)) => Err(DeployError::network_creation_failed(e.to_string())),
        }
    }

    /// Whether the image is pulled (the pull policy is not `never`).
    pub fn needs_pull(&self) -> (r: bool)
        ensures
            r == (self.spec_config().pull_policy != PullPolicy::Never),
    {
        match self.config.pull_policy {
            PullPolicy::Never => false,
            PullPolicy::Always => true,
        }
    }

    /// The time allowed for pulling, if limited.
    pub fn pull_timeout(&self) -> (r: Option<Duration>)
        ensures
            r == self.spec_config().image_pull_timeout,
    {
        self.config.image_pull_timeout
    }

    /// The step after pulling the image: `outcome` is what the pull came to, and
    /// there is none when the pull policy skips pulling.
    pub fn pull_image(self, outcome: Option<PullOutcome>) -> (r: Result<Deployment<ImagePulled>, DeployError>)
        requires
            outcome is None <==> self.spec_config().pull_policy == PullPolicy::Never,
            outcome matches Some(PullOutcome::TimedOut) ==> self.spec_config().image_pull_timeout is Some,
        ensures
            match outcome {
                None => r is Ok,
                Some(PullOutcome::Pulled) => r is Ok,
                Some(PullOutcome::Failed(e)) => r is Err && r->Err_0@ == (DeployErrorDetail::ImagePullFailed { source: e }),
                Some(PullOutcome::TimedOut) => r is Err && r->Err_0@ == (DeployErrorDetail::ImagePullTimeout {
                    seconds: duration_secs(self.spec_config().image_pull_timeout->0) as u64,
                }),
            },
            r is Ok ==> r->Ok_0.spec_config() == self.spec_config() && r->Ok_0.spec_old() == self.spec_old(),
    {
        match outcome {
            None => Ok(Deployment { config: self.config, old_container: self.old_container, state: ImagePulled }),
            Some(PullOutcome::Pulled) => Ok(Deployment { config: self.config, old_container: self.old_container, state: ImagePulled }),
            Some(PullOutcome::Failed(e)) => Err(DeployError::from_detail(DeployErrorDetail::ImagePullFailed { source: e })),
            Some(PullOutcome::TimedOut) => {
                let t = match self.config.image_pull_timeout {
                    Some(t) => t,
                    None => {
                        assert(false);
                        secs(0)
                    },
                };
                Err(DeployError::image_pull_timeout(as_secs(t)))
            },
        }
    }
}

/// The slot a new container takes: `green` beside an old container, `blue`
/// on a first deployment.
pub open spec fn slot_name(replacing: bool) -> Seq<char> {
    if replacing {
        "green"@
    } else {
        "blue"@
    }
}

/// The labels of a deployment's container: the configured ones, with the
/// service, `peleka.managed = true` and the slot set over them.
pub open spec fn container_labels(
    labels: Map<Seq<char>, String>,
    base: Map<Seq<char>, String>,
    service: Seq<char>,
    slot: Seq<char>,
) -> bool {
    &&& labels.dom() == base.dom().insert("peleka.service"@).insert("peleka.managed"@).insert(
        "peleka.slot"@,
    )
    &&& labels["peleka.service"@]@ == service
    &&& labels["peleka.managed"@]@ == "true"@
    &&& labels["peleka.slot"@]@ == slot
    &&& forall|k: Seq<char>|
        #![trigger base[k]]
        base.contains_key(k) && k != "peleka.service"@ && k != "peleka.managed"@ && k
            != "peleka.slot"@ ==> labels[k] == base[k]
}

/// The container configuration that a deployment of `c` asks the runtime for,
/// with `environment` the variables its environment values are read from.
pub open spec fn container_config_for(
    cc: ContainerConfig,
    c: Config,
    replacing: bool,
    environment: Map<Seq<char>, String>,
) -> bool {
    &&& cc.name@ == c.service@ + "-"@ + slot_name(replacing)
    &&& cc.image == c.image
    &&& cc.env@.dom() == c.env@.dom()
    &&& forall|k: Seq<char>| #[trigger]
        c.env@.contains_key(k) ==> Some(cc.env@[k]@) == resolve_value(c.env@[k], environment)
    &&& container_labels(cc.labels@, c.labels@, c.service@, slot_name(replacing))
    &&& cc.ports@.map_values(|p: PortMapping| port_view(p)) == parsed_ports(c.ports@)
    &&& forall|i: int| 0 <= i < cc.ports@.len() ==> (#[trigger] cc.ports@[i]).host_ip is None
    &&& cc.volumes@.map_values(|m: VolumeMount| mount_view(m)) == parsed_mounts(c.volumes@)
    &&& same_opt_vec(cc.command, c.command)
    &&& cc.entrypoint is None
    &&& cc.working_dir is None
    &&& cc.user is None
    &&& cc.restart_policy == spec_restart_policy_config(c.restart)
    &&& (cc.resources is Some <==> c.resources is Some)
    &&& (c.resources matches Some(r) ==> {
        &&& cc.resources->0.memory == match r.memory {
            Some(m) => match memory_product(m@) {
                Some(n) => Some(n as u64),
                None => None,
            },
            None => None,
        }
        &&& cc.resources->0.cpus == r.cpus
    })
    &&& (cc.healthcheck is Some <==> c.healthcheck is Some)
    &&& (c.healthcheck matches Some(h) ==> {
        let t = cc.healthcheck->0;
        &&& t.test@.len() == 2
        &&& t.test@[0]@ == "CMD-SHELL"@
        &&& t.test@[1]@ == h.cmd@
        &&& t.interval == h.interval
        &&& t.timeout == h.timeout
        &&& t.retries == h.retries
        &&& t.start_period == h.start_period
    })
    &&& cc.stop_timeout == match c.stop {
        Some(s) => Some(s.timeout),
        None => None,
    }
    &&& (cc.network is Some <==> c.network is Some)
    &&& (cc.network is Some ==> cc.network->0@ == crate::config::config::spec_network_name(c))
    &&& cc.network_aliases@.len() == 1
    &&& cc.network_aliases@[0]@ == c.service@
}

/// Whether each memory size that `c` sets fits in 64 bits.
pub open spec fn memory_sizes_fit(c: Config) -> bool {
    c.resources matches Some(r) ==> (r.memory matches Some(m) ==> memory_fits(m@))
}

/// The runtime's form of a configured health check: the command run by the
/// container's shell.
fn runtime_healthcheck(h: &HealthcheckConfig) -> (r: RuntimeHealthcheck)
    ensures
        r.test@.len() == 2,
        r.test@[0]@ == "CMD-SHELL"@,
        r.test@[1]@ == h.cmd@,
        r.interval == h.interval,
        r.timeout == h.timeout,
        r.retries == h.retries,
        r.start_period == h.start_period,
{
    let mut test: Vec<String> = Vec::new();
    test.push(own("CMD-SHELL"));
    test.push(h.cmd.clone());
    RuntimeHealthcheck {
        test,
        interval: h.interval,
        timeout: h.timeout,
        retries: h.retries,
        start_period: h.start_period,
    }
}

/// The runtime's form of configured resource limits.
fn resource_limits(r: &ResourcesConfig) -> (l: ResourceLimits)
    requires
        r.memory matches Some(m) ==> memory_fits(m@),
    ensures
        l.memory == match r.memory {
            Some(m) => match memory_product(m@) {
                Some(n) => Some(n as u64),
                None => None,
            },
            None => None,
        },
        l.cpus == r.cpus,
{
    let memory = match &r.memory {
        Some(m) => parse_memory_string(m.as_str()),
        None => None,
    };
    ResourceLimits { memory, cpus: r.cpus.duplicate() }
}

impl Deployment<ImagePulled> {
    /// The container to create: named for its slot, labelled with the service,
    /// `peleka.managed` and the slot, with the configured ports and volumes that
    /// parse, the environment resolved in `environment`, and the service's name
    /// as its network alias. It fails when an environment variable that a value
    /// needs is unset and has no default.
    pub fn build_container_config(&self, environment: &StrMap<String>) -> (r: Result<ContainerConfig, DeployError>)
        requires
            memory_sizes_fit(self.spec_config()),
        ensures
            r is Ok <==> forall|k: Seq<char>| #[trigger]
                self.spec_config().env@.contains_key(k) ==> resolve_value(self.spec_config().env@[k], environment@) is Some,
            r is Ok ==> container_config_for(r->Ok_0, self.spec_config(), self.spec_old() is Some, environment@),
            r is Err ==> r->Err_0@ is ConfigError && exists|k: Seq<char>| #[trigger]
                self.spec_config().env@.contains_key(k) && resolve_value(self.spec_config().env@[k], environment@) is None
                    && (self.spec_config().env@[k] matches crate::config::EnvValue::FromEnv { var, .. }
                    && r->Err_0@->ConfigError_message@ == "missing required environment variable: "@ + var@),
    {
        let env = match resolve_env_map(&self.config.env, environment) {
            Ok(env) => env,
            Err(e) => {
                return Err(DeployError::config_error(e.to_string()));
            },
        };
        let slot = if self.old_container.is_some() {
            "green"
        } else {
            "blue"
        };
        proof {
            reveal_strlit("green");
            reveal_strlit("blue");
            reveal_strlit("peleka.service");
            reveal_strlit("peleka.managed");
            reveal_strlit("peleka.slot");
            assert("peleka.service"@[7] != "peleka.managed"@[7]);
            assert("peleka.service"@.len() != "peleka.slot"@.len());
            assert("peleka.managed"@.len() != "peleka.slot"@.len());
        }
        let mut labels = self.config.labels.duplicate();
        labels.insert(own("peleka.service"), self.config.service.to_string());
        labels.insert(own("peleka.managed"), own("true"));
        labels.insert(own("peleka.slot"), own(slot));
        let healthcheck = match &self.config.healthcheck {
            Some(h) => Some(runtime_healthcheck(h)),
            None => None,
        };
        let resources = match &self.config.resources {
            Some(res) => Some(resource_limits(res)),
            None => None,
        };
        let stop_timeout = match &self.config.stop {
            Some(st) => Some(st.timeout),
            None => None,
        };
        let network = match &self.config.network {
            Some(_) => Some(own(self.config.network_name())),
            None => None,
        };
        let mut network_aliases: Vec<NetworkAlias> = Vec::new();
        network_aliases.push(self.config.service.as_alias());
        let cc = ContainerConfig {
            name: self.container_name(),
            image: self.config.image.duplicate(),
            env,
            labels,
            ports: parse_port_mappings(&self.config.ports),
            volumes: parse_volume_mounts(&self.config.volumes),
            command: dup_opt_vec(&self.config.command),
            entrypoint: None,
            working_dir: None,
            user: None,
            restart_policy: RestartPolicyConfig::from_policy(&self.config.restart),
            resources,
            healthcheck,
            stop_timeout,
            network,
            network_aliases,
        };
        assert(cc.labels@.dom() =~= self.config.labels@.dom().insert("peleka.service"@).insert(
            "peleka.managed"@,
        ).insert("peleka.slot"@));
        Ok(cc)
    }

    /// The step after creating and starting the container. When the start
    /// failed, the created container is to be removed, and the deployment ends.
    pub fn start_container(
        self,
        created: Result<ContainerId, ContainerError>,
        started: Option<Result<(), ContainerError>>,
    ) -> (r: Result<Deployment<ContainerStarted>, DeployError>)
        requires
            created is Ok <==> started is Some,
        ensures
            match (created, started) {
                (Err(e), _) => r is Err && r->Err_0@ == (DeployErrorDetail::ContainerCreateFailed { source: e }),
                (Ok(id), Some(Ok(()))) => r is Ok && r->Ok_0.spec_state().container() == id
                    && r->Ok_0.spec_config() == self.spec_config() && r->Ok_0.spec_old() == self.spec_old(),
                (Ok(_), Some(Err(e))) => r is Err && r->Err_0@ is ContainerStartFailedMsg,
                _ => false,
            },
    {
        match created {
            Err(e) => Err(DeployError::from_detail(DeployErrorDetail::ContainerCreateFailed { source: e })),
            Ok(id) => match started {
                Some(Ok(())) => Ok(Deployment { config: self.config, old_container: self.old_container, state: ContainerStarted::holding(id) }),
                Some(Err(e)) => Err(DeployError::container_start_failed(e.to_string())),
                None => {
                    assert(false);
                    Err(DeployError::no_old_container())
                },
            },
        }
    }
}

impl Deployment<ContainerStarted> {
    /// The new container.
    pub fn new_container(&self) -> (r: &ContainerId)
        ensures
            *r == self.spec_state().container(),
    {
        self.state.container_id()
    }

    /// Without a configured health check there is nothing to wait for.
    pub fn skip_health_check(self) -> (r: Deployment<HealthChecked>)
        ensures
            r.spec_config() == self.spec_config(),
            r.spec_old() == self.spec_old(),
            r.spec_state().container() == self.spec_state().container(),
    {
        Deployment { config: self.config, old_container: self.old_container, state: HealthChecked::holding(self.state.into_container()) }
    }

    /// The health check passed.
    pub fn healthy(self) -> (r: Deployment<HealthChecked>)
        ensures
            r.spec_config() == self.spec_config(),
            r.spec_old() == self.spec_old(),
            r.spec_state().container() == self.spec_state().container(),
    {
        Deployment { config: self.config, old_container: self.old_container, state: HealthChecked::holding(self.state.into_container()) }
    }

    /// Rolls back: the new container was stopped (a failure there is only
    /// reported) and removed; `removed` is what the removal gave.
    pub fn rollback(self, removed: Result<(), ContainerError>) -> (r: Result<Deployment<Initialized>, DeployError>)
        ensures
            match removed {
                Ok(()) => r is Ok && r->Ok_0.spec_config() == self.spec_config() && r->Ok_0.spec_old() == self.spec_old(),
                Err(e) => r is Err && r->Err_0@ == (DeployErrorDetail::ContainerRemoveFailed { source: e }),
            },
    {
        match removed.context_container_remove() {
            Ok(()) => Ok(Deployment { config: self.config, old_container: self.old_container, state: Initialized }),
            Err(e) => Err(e),
        }
    }
}

impl Deployment<HealthChecked> {
    pub fn new_container(&self) -> (r: &ContainerId)
        ensures
            *r == self.spec_state().container(),
    {
        self.state.container_id()
    }

    /// Switches traffic to the new container: the old one was disconnected from
    /// the network (a failure there is tolerated), and the new one connected under
    /// the service alias. A connection refused because the container is already
    /// connected counts as done.
    pub fn cutover(self, connected: Result<(), NetworkError>) -> (r: Result<Deployment<CutOver>, DeployError>)
        ensures
            match connected {
                Ok(()) => r is Ok,
                Err(e) => (r is Ok <==> already_connected_text(network_error_text(e)))
                    && (r is Err ==> r->Err_0@ == (DeployErrorDetail::NetworkFailedMsg { message: r->Err_0@->NetworkFailedMsg_message })
                        && r->Err_0@->NetworkFailedMsg_message@ == network_error_text(e)),
            },
            r is Ok ==> r->Ok_0.spec_config() == self.spec_config() && r->Ok_0.spec_old() == self.spec_old()
                && r->Ok_0.spec_state().container() == self.spec_state().container(),
    {
        match connected {
            Ok(()) => {},
            Err(e) => {
                let text = e.to_string();
                if !is_already_connected(text.as_str()) {
                    return Err(DeployError::network_failed(text));
                }
            },
        }
        Ok(Deployment { config: self.config, old_container: self.old_container, state: CutOver::holding(self.state.into_container()) })
    }

    /// Rolls back: the new container was stopped and removed; `removed` is what
    /// the removal gave.
    pub fn rollback(self, removed: Result<(), ContainerError>) -> (r: Result<Deployment<Initialized>, DeployError>)
        ensures
            match removed {
                Ok(()) => r is Ok && r->Ok_0.spec_config() == self.spec_config() && r->Ok_0.spec_old() == self.spec_old(),
                Err(e) => r is Err && r->Err_0@ == (DeployErrorDetail::ContainerRemoveFailed { source: e }),
            },
    {
        match removed.context_container_remove() {
            Ok(()) => Ok(Deployment { config: self.config, old_container: self.old_container, state: Initialized }),
            Err(e) => Err(e),
        }
    }
}

/// Whether `text` reports a container already on the network.
pub fn is_already_connected(text: &str) -> (r: bool)
    ensures
        r == already_connected_text(text@),
{
    let lower = crate::text::to_ascii_lower(text);
    str_contains(lower.as_str(), "already connected") || str_contains(lower.as_str(), "already exists")
}

impl Deployment<CutOver> {
    pub fn new_container(&self) -> (r: &ContainerId)
        ensures
            *r == self.spec_state().container(),
    {
        self.state.container_id()
    }

    /// How long in-flight requests may finish before the old container stops:
    /// the configured grace period, or thirty seconds.
    pub fn grace_period(&self) -> (r: Duration)
        ensures
            self.spec_config().cleanup is Some ==> r == self.spec_config().cleanup->0.grace_period,
            self.spec_config().cleanup is None ==> is_whole_secs(r, 30),
    {
        match &self.config.cleanup {
            Some(c) => c.grace_period,
            None => secs(30),
        }
    }

    /// The stop timeout for the old container.
    pub fn stop_timeout(&self) -> (r: Duration)
        ensures
            self.spec_config().stop is Some ==> r == self.spec_config().stop->0.timeout,
            self.spec_config().stop is None ==> is_whole_secs(r, 30),
    {
        self.config.stop_timeout()
    }

    /// The step after stopping the old container (kept, stopped, for a later
    /// manual rollback); there is no outcome when there was no old container.
    pub fn cleanup(self, stopped: Option<Result<(), ContainerError>>) -> (r: Result<Deployment<Completed>, DeployError>)
        requires
            stopped is Some <==> self.spec_old() is Some,
        ensures
            match stopped {
                None => r is Ok,
                Some(Ok(())) => r is Ok,
                Some(Err(e)) => r is Err && r->Err_0@ == (DeployErrorDetail::ContainerStopFailed { source: e }),
            },
            r is Ok ==> r->Ok_0.spec_config() == self.spec_config() && r->Ok_0.spec_old() == self.spec_old()
                && r->Ok_0.spec_state().container() == self.spec_state().container(),
    {
        match stopped {
            Some(Err(e)) => Err(DeployError::from_detail(DeployErrorDetail::ContainerStopFailed { source: e })),
            _ => Ok(Deployment { config: self.config, old_container: self.old_container, state: Completed::holding(self.state.into_container()) }),
        }
    }
}

impl Deployment<Completed> {
    pub fn new_container(&self) -> (r: &ContainerId)
        ensures
            *r == self.spec_state().container(),
    {
        self.state.container_id()
    }

    /// The container now serving the service.
    pub fn deployed_container(&self) -> (r: &ContainerId)
        ensures
            *r == self.spec_state().container(),
    {
        self.state.container_id()
    }

    /// Ends the deployment, giving back its configuration.
    pub fn finish(self) -> (r: Config)
        ensures
            r == self.spec_config(),
    {
        self.config
    }
}

impl Deployment<ImagePulled> {
    /// What follows a failed start of the new container `created`: it is
    /// removed by force, so that none is left behind; the removal's own failure
    /// is passed over.
    pub fn failed_start_actions(&self, created: &ContainerId) -> (r: Vec<ActionStep>)
        ensures
            steps_view(r@) == seq![(ActionView::Remove(created@, true), false)],
    {
        let mut v: Vec<ActionStep> = Vec::new();
        v.push(remove_step(created, false));
        assert(steps_view(v@) =~= seq![(ActionView::Remove(created@, true), false)]);
        v
    }
}

impl Deployment<ContainerStarted> {
    /// Rolling back: the new container is stopped with the stop timeout (a
    /// failure is passed over), then removed by force; the removal's outcome is
    /// what `rollback` takes.
    pub fn rollback_actions(&self) -> (r: Vec<ActionStep>)
        ensures
            steps_view(r@).len() == 2,
            steps_view(r@)[0] matches (ActionView::Stop(c, t), false) && c == self.spec_state().container()@
                && stop_timeout_of(self.spec_config(), t),
            steps_view(r@)[1] == (ActionView::Remove(self.spec_state().container()@, true), true),
    {
        let t = self.config.stop_timeout();
        let id = self.state.container_id();
        let mut v: Vec<ActionStep> = Vec::new();
        v.push(stop_step(id, t, false));
        v.push(remove_step(id, true));
        assert(steps_view(v@)[0] == (action_view(v@[0].action), v@[0].must_succeed));
        assert(steps_view(v@)[1] == (action_view(v@[1].action), v@[1].must_succeed));
        v
    }
}

impl Deployment<HealthChecked> {
    /// Rolling back: the new container is stopped with the stop timeout (a
    /// failure is passed over), then removed by force; the removal's outcome is
    /// what `rollback` takes.
    pub fn rollback_actions(&self) -> (r: Vec<ActionStep>)
        ensures
            steps_view(r@).len() == 2,
            steps_view(r@)[0] matches (ActionView::Stop(c, t), false) && c == self.spec_state().container()@
                && stop_timeout_of(self.spec_config(), t),
            steps_view(r@)[1] == (ActionView::Remove(self.spec_state().container()@, true), true),
    {
        let t = self.config.stop_timeout();
        let id = self.state.container_id();
        let mut v: Vec<ActionStep> = Vec::new();
        v.push(stop_step(id, t, false));
        v.push(remove_step(id, true));
        assert(steps_view(v@)[0] == (action_view(v@[0].action), v@[0].must_succeed));
        assert(steps_view(v@)[1] == (action_view(v@[1].action), v@[1].must_succeed));
        v
    }

    /// Switching traffic on `network`: the old container, if any, is
    /// disconnected first (a failure is passed over), then the new one is
    /// connected under the service alias; that connection's outcome is what
    /// `cutover` takes.
    pub fn cutover_actions(&self, network: &NetworkId) -> (r: Vec<ActionStep>)
        ensures
            steps_view(r@) == match self.spec_old() {
                Some(o) => seq![
                    (ActionView::Disconnect(o@, network@), false),
                    (ActionView::Connect(self.spec_state().container()@, network@, seq![self.spec_config().service@]), true),
                ],
                None => seq![
                    (ActionView::Connect(self.spec_state().container()@, network@, seq![self.spec_config().service@]), true),
                ],
            },
    {
        let alias = self.service_alias();
        let id = self.state.container_id();
        let mut v: Vec<ActionStep> = Vec::new();
        match &self.old_container {
            Some(o) => {
                v.push(disconnect_step(o, network));
            },
            None => {},
        }
        v.push(connect_step(id, network, &alias));
        assert(steps_view(v@) =~= match self.spec_old() {
            Some(o) => seq![
                (ActionView::Disconnect(o@, network@), false),
                (ActionView::Connect(self.spec_state().container()@, network@, seq![self.spec_config().service@]), true),
            ],
            None => seq![
                (ActionView::Connect(self.spec_state().container()@, network@, seq![self.spec_config().service@]), true),
            ],
        });
        v
    }
}

impl Deployment<CutOver> {
    /// Retiring the old container, if any: wait the grace period (when it is
    /// not zero) so that requests in flight finish, then stop the old container
    /// with the stop timeout; it is not removed, so that a manual rollback can
    /// start it again. The stop's outcome is what `cleanup` takes.
    pub fn cleanup_actions(&self) -> (r: Vec<ActionStep>)
        ensures
            match self.spec_old() {
                None => r@.len() == 0,
                Some(o) => {
                    let v = steps_view(r@);
                    &&& v.len() == 1 || v.len() == 2
                    &&& v.last() matches (ActionView::Stop(c, t), true) && c == o@ && stop_timeout_of(self.spec_config(), t)
                    &&& v.len() == 2 ==> (v[0] matches (ActionView::Wait(g), false) && grace_period_of(self.spec_config(), g)
                        && !zero_duration(g))
                    &&& v.len() == 1 ==> (self.spec_config().cleanup matches Some(cl) && zero_duration(cl.grace_period))
                },
            },
    {
        let mut v: Vec<ActionStep> = Vec::new();
        match &self.old_container {
            Some(o) => {
                let grace = self.grace_period();
                if !crate::time::is_zero(grace) {
                    v.push(ActionStep { action: RuntimeAction::Wait(grace), must_succeed: false });
                }
                v.push(stop_step(o, self.stop_timeout(), true));
                assert(steps_view(v@)[0] == (action_view(v@[0].action), v@[0].must_succeed));
                assert(steps_view(v@).last() == (action_view(v@.last().action), v@.last().must_succeed));
            },
            None => {},
        }
        v
    }
}

} // verus!

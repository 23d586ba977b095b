//! The configuration of one service: image, servers, container settings, and
//! named destinations that override parts of it.
use crate::config::env_value::EnvValue;
use crate::config::healthcheck::HealthcheckConfig;
use crate::config::restart_policy::RestartPolicy;
use crate::config::server::ServerConfig;
use crate::config::servers::{server_at, server_list, servers_duplicate, servers_len, servers_single};
use crate::config::stop::StopConfig;
use crate::error::Error;
use crate::strmap::{dup_opt_vec, dup_vec, Duplicate, StrMap};
use crate::text::{contains, dec_string, join_path, own, path_join, str_contains, str_eq};
use crate::types::image_ref::parse_image_ref;
use crate::types::service_name::valid_service_name;
use crate::time::{is_whole_secs, secs};
use crate::types::{ImageRef, ServiceName};
use nonempty::NonEmpty;
use std::time::Duration;
use vstd::prelude::*;

verus! {

/// The configuration file's name.
pub const CONFIG_FILENAME: &'static str = "peleka.yml";

/// The alternative configuration file name.
pub const CONFIG_FILENAME_ALT: &'static str = "peleka.yaml";

/// The configuration file inside the project's `.peleka` directory.
pub const CONFIG_FILENAME_DIR: &'static str = ".peleka/config.yml";

/// How updates are rolled out.
#[derive(Debug, Clone, Copy, PartialEq, Eq, Structural)]
pub enum StrategyConfig {
    /// Start the new container, check it, switch traffic, stop the old one.
    BlueGreen,
    /// Stop the old container first, then start the new one.
    Recreate,
}

/// Whether the image is pulled before each deployment.
#[derive(Debug, Clone, Copy, PartialEq, Eq, Structural)]
pub enum PullPolicy {
    /// Always pull from the registry.
    Always,
    /// Never pull; use the image present on the server.
    Never,
}

impl Default for PullPolicy {
    fn default() -> (r: Self)
        ensures
            r == PullPolicy::Always,
    {
        PullPolicy::Always
    }
}

/// Resource limits as written in the configuration.
#[derive(Debug)]
pub struct ResourcesConfig {
    pub memory: Option<String>,
    pub cpus: Option<String>,
}

impl Duplicate for ResourcesConfig {
    fn duplicate(&self) -> (r: Self) {
        ResourcesConfig { memory: self.memory.duplicate(), cpus: self.cpus.duplicate() }
    }
}

/// The network the service joins.
#[derive(Debug)]
pub struct NetworkConfig {
    pub name: String,
    pub aliases: Vec<String>,
}

/// `peleka` unless configured.
pub fn default_network_name() -> (r: String)
    ensures
        r@ == "peleka"@,
{
    own("peleka")
}

/// How long the old container keeps serving after cutover.
#[derive(Debug)]
pub struct CleanupConfig {
    pub grace_period: Duration,
}

/// Thirty seconds unless configured.
pub fn default_grace_period() -> (r: Duration)
    ensures
        is_whole_secs(r, 30),
{
    secs(30)
}

/// Two minutes unless configured.
pub fn default_health_timeout() -> (r: Duration)
    ensures
        is_whole_secs(r, 120),
{
    secs(120)
}

/// The container's log driver and its options.
#[derive(Debug)]
pub struct LoggingConfig {
    pub driver: String,
    pub options: StrMap<String>,
}

/// `json-file` unless configured.
pub fn default_log_driver() -> (r: String)
    ensures
        r@ == "json-file"@,
{
    own("json-file")
}

/// Overrides for one named destination.
#[derive(Debug)]
pub struct Destination {
    pub servers: Option<NonEmpty<ServerConfig>>,
    pub env: StrMap<EnvValue>,
    pub labels: StrMap<String>,
    pub ports: Option<Vec<String>>,
    pub volumes: Option<Vec<String>>,
    pub healthcheck: Option<HealthcheckConfig>,
}

/// The configuration of one service.
#[derive(Debug)]
pub struct Config {
    pub service: ServiceName,
    pub image: ImageRef,
    pub servers: NonEmpty<ServerConfig>,
    pub ports: Vec<String>,
    pub volumes: Vec<String>,
    pub env: StrMap<EnvValue>,
    pub labels: StrMap<String>,
    pub command: Option<Vec<String>>,
    pub healthcheck: Option<HealthcheckConfig>,
    pub health_timeout: Duration,
    pub image_pull_timeout: Option<Duration>,
    pub resources: Option<ResourcesConfig>,
    pub network: Option<NetworkConfig>,
    pub restart: RestartPolicy,
    pub strategy: Option<StrategyConfig>,
    pub pull_policy: PullPolicy,
    pub stop: Option<StopConfig>,
    pub cleanup: Option<CleanupConfig>,
    pub logging: Option<LoggingConfig>,
    pub destinations: StrMap<Destination>,
}

/// Optional vectors with the same elements.
pub open spec fn same_opt_vec<T>(a: Option<Vec<T>>, b: Option<Vec<T>>) -> bool {
    (a is Some <==> b is Some) && (a is Some ==> a->0@ == b->0@)
}

/// Two destinations with the same settings.
pub open spec fn same_destination(a: Destination, b: Destination) -> bool {
    &&& (a.servers is Some <==> b.servers is Some)
    &&& (a.servers is Some ==> server_list(a.servers->0) == server_list(b.servers->0))
    &&& a.env@ == b.env@
    &&& a.labels@ == b.labels@
    &&& same_opt_vec(a.ports, b.ports)
    &&& same_opt_vec(a.volumes, b.volumes)
    &&& a.healthcheck == b.healthcheck
}

/// The destination a merged configuration was made for: its settings win over
/// the base configuration's, field by field.
pub open spec fn merged_with(m: Config, base: Config, d: Destination) -> bool {
    &&& m.service == base.service
    &&& m.image == base.image
    &&& server_list(m.servers) == match d.servers {
        Some(s) => server_list(s),
        None => server_list(base.servers),
    }
    &&& m.ports@ == match d.ports {
        Some(p) => p@,
        None => base.ports@,
    }
    &&& m.volumes@ == match d.volumes {
        Some(v) => v@,
        None => base.volumes@,
    }
    &&& m.env@ == base.env@.union_prefer_right(d.env@)
    &&& m.labels@ == base.labels@.union_prefer_right(d.labels@)
    &&& m.healthcheck == match d.healthcheck {
        Some(h) => Some(h),
        None => base.healthcheck,
    }
    &&& same_opt_vec(m.command, base.command)
    &&& m.health_timeout == base.health_timeout
    &&& m.image_pull_timeout == base.image_pull_timeout
    &&& m.resources == base.resources
    &&& m.network is Some == base.network is Some
    &&& (m.network is Some ==> m.network->0.name == base.network->0.name
        && m.network->0.aliases@ == base.network->0.aliases@)
    &&& m.restart == base.restart
    &&& m.strategy == base.strategy
    &&& m.pull_policy == base.pull_policy
    &&& m.stop == base.stop
    &&& m.cleanup == base.cleanup
    &&& m.logging is Some == base.logging is Some
    &&& (m.logging is Some ==> m.logging->0.driver == base.logging->0.driver
        && m.logging->0.options@ == base.logging->0.options@)
    &&& m.destinations@.dom() == base.destinations@.dom()
    &&& forall|k: Seq<char>| #[trigger] m.destinations@.contains_key(k) ==> same_destination(
        m.destinations@[k],
        base.destinations@[k],
    )
}

/// The network name a configuration uses.
pub open spec fn spec_network_name(c: Config) -> Seq<char> {
    match c.network {
        Some(n) => n.name@,
        None => "peleka"@,
    }
}

/// The warnings about placeholders left from the template.
pub open spec fn placeholder_warnings(c: Config) -> Seq<Seq<char>> {
    let image = crate::types::image_ref::display_image_ref(c.image@);
    let first = if c.service@ == "my-app"@ {
        seq!["service name 'my-app' appears to be a placeholder"@]
    } else {
        Seq::empty()
    };
    let second = if contains(image, "my-registry"@) || contains(image, "my-app"@) {
        seq!["image '"@ + image + "' appears to contain placeholder values"@]
    } else {
        Seq::empty()
    };
    first + second
}

/// The text of the configuration file that `peleka init` writes.
pub open spec fn template_yaml(c: Config) -> Seq<char> {
    let s = server_list(c.servers)[0];
    let user = match s.user {
        Some(u) => u@,
        None => "deploy"@,
    };
    "service: "@ + c.service@ + "\nimage: "@ + crate::types::image_ref::display_image_ref(c.image@)
        + "\nservers:\n  - host: "@ + s.host@ + "\n    port: "@ + crate::text::dec(s.port as nat)
        + "\n    user: "@ + user + "\n    # SSH host key verification (default: false for security)\n    # Set to true to enable Trust-On-First-Use, or pre-populate ~/.ssh/known_hosts\n    # trust_first_connection: true\n"@
}

/// The configuration file text for `config`, as `peleka init` writes it.
pub fn generate_template_yaml(config: &Config) -> (r: String)
    ensures
        r@ == template_yaml(*config),
{
    let count = servers_len(&config.servers);
    assert(count >= 1);
    let first = server_at(&config.servers, 0);
    let mut s = own("service: ");
    s.append(config.service.as_str());
    s.append("\nimage: ");
    let image = config.image.to_string();
    s.append(image.as_str());
    s.append("\nservers:\n  - host: ");
    s.append(first.host.as_str());
    s.append("\n    port: ");
    let port = dec_string(first.port as u64);
    s.append(port.as_str());
    s.append("\n    user: ");
    match &first.user {
        Some(u) => s.append(u.as_str()),
        None => s.append("deploy"),
    }
    s.append(
        "\n    # SSH host key verification (default: false for security)\n    # Set to true to enable Trust-On-First-Use, or pre-populate ~/.ssh/known_hosts\n    # trust_first_connection: true\n",
    );
    assert(s@ =~= template_yaml(*config));
    s
}

impl Config {
    /// The configuration for destination `name`: servers, ports, volumes and
    /// health check are replaced when the destination sets them, env and labels
    /// are merged with the destination's entries winning. An unknown destination
    /// is an error.
    pub fn for_destination(&self, name: &str) -> (r: Result<Config, Error>)
        ensures
            r is Err <==> !self.destinations@.contains_key(name@),
            r is Err ==> (r->Err_0 matches Error::UnknownDestination(n) && n@ == name@),
            r is Ok ==> merged_with(r->Ok_0, *self, self.destinations@[name@]),
    {
        let dest = match self.destinations.get(name) {
            Some(d) => d,
            None => {
                return Err(Error::UnknownDestination(own(name)));
            },
        };
        let servers = match &dest.servers {
            Some(s) => servers_duplicate(s),
            None => servers_duplicate(&self.servers),
        };
        let mut env = self.env.duplicate();
        env.extend_from(&dest.env);
        let mut labels = self.labels.duplicate();
        labels.extend_from(&dest.labels);
        let ports = match &dest.ports {
            Some(p) => dup_vec(p),
            None => dup_vec(&self.ports),
        };
        let volumes = match &dest.volumes {
            Some(v) => dup_vec(v),
            None => dup_vec(&self.volumes),
        };
        let healthcheck = match &dest.healthcheck {
            Some(h) => Some(h.duplicate()),
            None => self.healthcheck.duplicate(),
        };
        Ok(
            Config {
                service: self.service.duplicate(),
                image: self.image.duplicate(),
                servers,
                ports,
                volumes,
                env,
                labels,
                command: dup_opt_vec(&self.command),
                healthcheck,
                health_timeout: self.health_timeout,
                image_pull_timeout: self.image_pull_timeout,
                resources: self.resources.duplicate(),
                network: match &self.network {
                    Some(n) => Some(NetworkConfig { name: n.name.clone(), aliases: dup_vec(&n.aliases) }),
                    None => None,
                },
                restart: self.restart,
                strategy: self.strategy,
                pull_policy: self.pull_policy,
                stop: self.stop.duplicate(),
                cleanup: match &self.cleanup {
                    Some(c) => Some(CleanupConfig { grace_period: c.grace_period }),
                    None => None,
                },
                logging: match &self.logging {
                    Some(l) => Some(
                        LoggingConfig { driver: l.driver.clone(), options: l.options.duplicate() },
                    ),
                    None => None,
                },
                destinations: self.copy_destinations(),
            },
        )
    }

    /// A copy of the destinations, each with the same settings.
    fn copy_destinations(&self) -> (r: StrMap<Destination>)
        ensures
            r@.dom() == self.destinations@.dom(),
            forall|k: Seq<char>| #[trigger] r@.contains_key(k) ==> same_destination(
                r@[k],
                self.destinations@[k],
            ),
    {
        self.destinations.lemma_seqs();
        let mut out: StrMap<Destination> = StrMap::new();
        let mut i: usize = 0;
        while i < self.destinations.len()
            invariant
                i <= self.destinations.key_seq().len(),
                self.destinations.key_seq().len() == self.destinations.value_seq().len(),
                forall|k: Seq<char>| #[trigger]
                    self.destinations@.contains_key(k) <==> self.destinations.key_seq().contains(k),
                forall|k: Seq<char>| #[trigger]
                    out@.contains_key(k) <==> self.destinations.key_seq().take(i as int).contains(k),
                forall|k: Seq<char>| #[trigger] out@.contains_key(k) ==> same_destination(
                    out@[k],
                    self.destinations@[k],
                ),
                forall|j: int|
                    0 <= j < self.destinations.key_seq().len() ==> #[trigger] self.destinations@[
                        self.destinations.key_seq()[j]] == self.destinations.value_seq()[j],
            decreases self.destinations.key_seq().len() - i,
        {
            let d = self.destinations.value_at(i);
            let k = self.destinations.key_at(i).clone();
            let copy = Destination {
                servers: match &d.servers {
                    Some(s) => Some(servers_duplicate(s)),
                    None => None,
                },
                env: d.env.duplicate(),
                labels: d.labels.duplicate(),
                ports: dup_opt_vec(&d.ports),
                volumes: dup_opt_vec(&d.volumes),
                healthcheck: d.healthcheck.duplicate(),
            };
            let ghost prev = out@;
            assert(self.destinations@[self.destinations.key_seq()[i as int]] == *d);
            assert(same_destination(copy, *d));
            out.insert(k, copy);
            proof {
                let ks = self.destinations.key_seq();
                assert(ks.take(i + 1) =~= ks.take(i as int).push(ks[i as int]));
                assert forall|key: Seq<char>| #[trigger]
                    out@.contains_key(key) <==> ks.take(i + 1).contains(key) by {
                    if ks.take(i + 1).contains(key) {
                        let t = ks.take(i + 1);
                        let j = choose|j: int| 0 <= j < t.len() && t[j] == key;
                        if j < i {
                            assert(ks.take(i as int)[j] == key);
                        }
                    }
                    if prev.contains_key(key) {
                        let t = ks.take(i as int);
                        let j = choose|j: int| 0 <= j < t.len() && t[j] == key;
                        assert(ks.take(i + 1)[j] == key);
                    }
                    if key == ks[i as int] {
                        assert(ks.take(i + 1)[i as int] == key);
                    }
                }
            }
            i = i + 1;
        }
        assert(self.destinations.key_seq().take(i as int) =~= self.destinations.key_seq());
        assert(out@.dom() =~= self.destinations@.dom());
        out
    }

    /// Applies destination `dest` when one is named; otherwise the
    /// configuration is returned unchanged.
    pub fn with_optional_destination(self, dest: Option<&str>) -> (r: Result<Config, Error>)
        ensures
            dest is None ==> r == Ok::<Config, Error>(self),
            dest is Some ==> (r is Err <==> !self.destinations@.contains_key(dest->0@)),
            dest is Some && r is Ok ==> merged_with(
                r->Ok_0,
                self,
                self.destinations@[dest->0@],
            ),
    {
        match dest {
            Some(name) => self.for_destination(name),
            None => Ok(self),
        }
    }

    /// The network name: the configured one, or `peleka`.
    pub fn network_name(&self) -> (r: &str)
        ensures
            r@ == spec_network_name(*self),
    {
        match &self.network {
            Some(n) => n.name.as_str(),
            None => "peleka",
        }
    }

    /// The container stop timeout: the configured one, or thirty seconds.
    pub fn stop_timeout(&self) -> (r: Duration)
        ensures
            self.stop is Some ==> r == self.stop->0.timeout,
            self.stop is None ==> is_whole_secs(r, 30),
    {
        match &self.stop {
            Some(s) => s.timeout,
            None => secs(30),
        }
    }

    /// Whether some port publishes a host port, which rules out running two
    /// containers side by side.
    pub fn has_host_port_bindings(&self) -> (r: bool)
        ensures
            r == exists|i: int|
                0 <= i < self.ports@.len() && (crate::deploy::container::port_mapping_view(
                    #[trigger] self.ports@[i]@,
                ) matches Some((Some(_), _, _))),
    {
        let mut i: usize = 0;
        while i < self.ports.len()
            invariant
                i <= self.ports@.len(),
                forall|j: int|
                    0 <= j < i ==> !(crate::deploy::container::port_mapping_view(
                        #[trigger] self.ports@[j]@,
                    ) matches Some((Some(_), _, _))),
            decreases self.ports@.len() - i,
        {
            match crate::deploy::container::parse_port_mapping(self.ports[i].as_str()) {
                Some(m) => {
                    if m.host_port.is_some() {
                        return true;
                    }
                },
                None => {},
            }
            i = i + 1;
        }
        false
    }

    /// Refuses a configuration that still names the template's placeholder
    /// server, and lists warnings for the template's placeholder service name and
    /// image.
    pub fn validate_placeholders(&self) -> (r: Result<Vec<String>, Error>)
        ensures
            r is Err <==> exists|i: int|
                0 <= i < server_list(self.servers).len() && (#[trigger] server_list(
                    self.servers,
                )[i]).host@ == "server.example.com"@,
            r is Err ==> (r->Err_0 matches Error::InvalidConfig(m) && m@
                == "server host 'server.example.com' is a placeholder - please configure a real server"@),
            r is Ok ==> r->Ok_0@.map_values(|w: String| w@) == placeholder_warnings(*self),
    {
        let n = servers_len(&self.servers);
        let mut i: usize = 0;
        while i < n
            invariant
                n == server_list(self.servers).len(),
                i <= n,
                forall|j: int|
                    0 <= j < i ==> (#[trigger] server_list(self.servers)[j]).host@
                        != "server.example.com"@,
            decreases n - i,
        {
            let server = server_at(&self.servers, i);
            if str_eq(server.host.as_str(), "server.example.com") {
                return Err(
                    Error::InvalidConfig(
                        own(
                            "server host 'server.example.com' is a placeholder - please configure a real server",
                        ),
                    ),
                );
            }
            i = i + 1;
        }
        let mut warnings: Vec<String> = Vec::new();
        if str_eq(self.service.as_str(), "my-app") {
            warnings.push(own("service name 'my-app' appears to be a placeholder"));
        }
        let image_str = self.image.to_string();
        if str_contains(image_str.as_str(), "my-registry") || str_contains(
            image_str.as_str(),
            "my-app",
        ) {
            let mut w = own("image '");
            w.append(image_str.as_str());
            w.append("' appears to contain placeholder values");
            warnings.push(w);
        }
        assert(warnings@.map_values(|w: String| w@) =~= placeholder_warnings(*self));
        Ok(warnings)
    }

    /// The starting point that `peleka init` writes out: placeholders to be
    /// replaced by the user.
    pub fn template() -> (r: Config)
        ensures
            r.service@ == "my-app"@,
            r.image@.registry is None,
            r.image@.name == "my-registry/my-app"@,
            r.image@.tag == Some("latest"@),
            r.image@.digest is None,
            server_list(r.servers).len() == 1,
            server_list(r.servers)[0].host@ == "server.example.com"@,
            server_list(r.servers)[0].port == 22,
            server_list(r.servers)[0].user matches Some(u) && u@ == "deploy"@,
            server_list(r.servers)[0].trust_first_connection,
            r.ports@.len() == 0 && r.volumes@.len() == 0,
            r.env@.len() == 0 && r.labels@.len() == 0,
            r.command is None && r.healthcheck is None,
            is_whole_secs(r.health_timeout, 120),
            r.image_pull_timeout is None,
            r.resources is None && r.network is None,
            r.restart == RestartPolicy::UnlessStopped,
            r.strategy is None,
            r.pull_policy == PullPolicy::Always,
            r.stop is None && r.cleanup is None && r.logging is None,
            r.destinations@.len() == 0,
    {
        proof {
            reveal_strlit("my-app");
            assert(crate::types::service_name::valid_service_name("my-app"@)) by {
                assert forall|i: int| 0 <= i < "my-app"@.len() implies crate::types::service_name::is_name_char(
                    #[trigger] "my-app"@[i],
                ) by {}
            }
        }
        let service = ServiceName::from_valid(own("my-app"));
        let image = ImageRef::from_parts(
            None,
            own("my-registry/my-app"),
            Some(own("latest")),
            None,
        );
        Config {
            service,
            image,
            servers: servers_single(
                ServerConfig {
                    host: own("server.example.com"),
                    port: 22,
                    user: Some(own("deploy")),
                    runtime: None,
                    socket: None,
                    trust_first_connection: true,
                },
            ),
            ports: Vec::new(),
            volumes: Vec::new(),
            env: StrMap::new(),
            labels: StrMap::new(),
            command: None,
            healthcheck: None,
            health_timeout: default_health_timeout(),
            image_pull_timeout: None,
            resources: None,
            network: None,
            restart: RestartPolicy::UnlessStopped,
            strategy: None,
            pull_policy: PullPolicy::Always,
            stop: None,
            cleanup: None,
            logging: None,
            destinations: StrMap::new(),
        }
    }
}

/// Where a project's configuration is looked for in `dir`, in order:
/// `peleka.yml`, `peleka.yaml`, `.peleka/config.yml`.
pub fn config_candidates(dir: &str) -> (r: Vec<String>)
    ensures
        r@.len() == 3,
        r@[0]@ == join_path(dir@, "peleka.yml"@),
        r@[1]@ == join_path(dir@, "peleka.yaml"@),
        r@[2]@ == join_path(dir@, ".peleka/config.yml"@),
{
    let mut v: Vec<String> = Vec::new();
    v.push(path_join(dir, CONFIG_FILENAME));
    v.push(path_join(dir, CONFIG_FILENAME_ALT));
    v.push(path_join(dir, CONFIG_FILENAME_DIR));
    v
}

/// The configuration `peleka init` writes: the template, with the service and
/// the image given on the command line, if any. A service name or image that
/// does not parse is an invalid configuration.
pub fn init_template(service: Option<&str>, image: Option<&str>) -> (r: Result<Config, Error>)
    ensures
        r is Ok <==> (service matches Some(s) ==> valid_service_name(s@)) && (image matches Some(
            i,
        ) ==> parse_image_ref(i@) is Ok),
        r matches Err(e) ==> e is InvalidConfig,
        r matches Ok(c) ==> (match service {
            Some(s) => c.service@ == s@,
            None => c.service@ == "my-app"@,
        }) && (match image {
            Some(i) => c.image@ == parse_image_ref(i@)->Ok_0,
            None => c.image@.name == "my-registry/my-app"@ && c.image@.tag == Some("latest"@)
                && c.image@.registry is None && c.image@.digest is None,
        }),
{
    let mut config = Config::template();
    match service {
        Some(s) => match ServiceName::new(s) {
            Ok(n) => {
                config.service = n;
            },
            Err(e) => {
                return Err(Error::InvalidConfig(e.to_string()));
            },
        },
        None => {},
    }
    assert(service matches Some(s) ==> valid_service_name(s@));
    match image {
        Some(i) => match ImageRef::parse(i) {
            Ok(img) => {
                config.image = img;
            },
            Err(e) => {
                return Err(Error::InvalidConfig(e.to_string()));
            },
        },
        None => {},
    }
    Ok(config)
}

} // verus!

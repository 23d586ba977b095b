//! Choosing how a deployment replaces the running container.
use crate::config::{Config, StrategyConfig};
use crate::deploy::container::port_mapping_view;
use vstd::prelude::*;

verus! {

/// How a deployment replaces the running container.
#[derive(Debug, Clone, Copy, PartialEq, Eq, Structural)]
pub enum DeployStrategy {
    /// Start the new container, check it, switch traffic, then stop the old one:
    /// no downtime.
    BlueGreen,
    /// Stop the old container first, then start the new one: needed where both
    /// cannot run at once, as when a host port is published.
    Recreate,
}

/// Whether some configured port publishes a port on the host.
pub open spec fn binds_host_port(c: Config) -> bool {
    exists|i: int|
        0 <= i < c.ports@.len() && (port_mapping_view(#[trigger] c.ports@[i]@) matches Some(
            (Some(_), _, _),
        ))
}

/// The strategy for `c`: the configured one, else recreate where a host port
/// is published, else blue-green.
pub open spec fn spec_strategy(c: Config) -> DeployStrategy {
    match c.strategy {
        Some(StrategyConfig::BlueGreen) => DeployStrategy::BlueGreen,
        Some(StrategyConfig::Recreate) => DeployStrategy::Recreate,
        None => if binds_host_port(c) {
            DeployStrategy::Recreate
        } else {
            DeployStrategy::BlueGreen
        },
    }
}

impl DeployStrategy {
    /// The strategy for `config`, and why, when it was not chosen by the
    /// configuration and is not the default: an explicit choice wins, then host
    /// port bindings force recreate, else blue-green.
    pub fn for_config(config: &Config) -> (r: (Self, Option<&'static str>))
        ensures
            r.0 == spec_strategy(*config),
            r.1 is Some <==> (config.strategy is None && binds_host_port(*config)),
            r.1 matches Some(reason) ==> reason@ == "host port bindings prevent blue-green deployment"@,
    {
        match config.strategy {
            Some(StrategyConfig::BlueGreen) => (DeployStrategy::BlueGreen, None),
            Some(StrategyConfig::Recreate) => (DeployStrategy::Recreate, None),
            None => if config.has_host_port_bindings() {
                (DeployStrategy::Recreate, Some("host port bindings prevent blue-green deployment"))
            } else {
                (DeployStrategy::BlueGreen, None)
            },
        }
    }
}

/// A strategy set in the configuration is the one used, whatever the ports.
pub proof fn lemma_explicit_strategy_wins(c: Config)
    requires
        c.strategy is Some,
    ensures
        spec_strategy(c) == (match c.strategy->0 {
            StrategyConfig::BlueGreen => DeployStrategy::BlueGreen,
            StrategyConfig::Recreate => DeployStrategy::Recreate,
        }),
{
}

/// Without a configured strategy, blue-green is chosen exactly when no host
/// port is published.
pub proof fn lemma_blue_green_without_host_ports(c: Config)
    requires
        c.strategy is None,
    ensures
        spec_strategy(c) == DeployStrategy::BlueGreen <==> !binds_host_port(c),
{
}

} // verus!

//! Node configuration derived from user settings.
//!
//! The node service is configured from the settings screen's values; the
//! record here is the plain snapshot handed to it.  Translating the snapshot
//! into process arguments belongs to the node-service collaborator, not to
//! this crate.

use vstd::prelude::*;

verus! {

/// Which network the node should join.
#[derive(Clone, Copy, Debug, PartialEq, Eq, Structural)]
pub enum Network {
    Mainnet,
    Testnet10,
    Testnet11,
}

/// How much memory the node may use, as a multiplier in hundredths: `Scaled(150)`
/// means one and a half times the baseline.
#[derive(Clone, Copy, Debug, PartialEq, Eq, Structural)]
pub enum NodeMemoryScale {
    Default,
    Scaled(u32),
}

/// The node-related values a user can change on the settings screen.
#[derive(Clone, Debug)]
pub struct NodeSettings {
    pub network: Network,
    pub enable_upnp: bool,
    pub enable_grpc: bool,
    pub grpc_network_interface: String,
    pub kaspad_daemon_args_enable: bool,
    pub kaspad_daemon_args: String,
    pub memory_scale: NodeMemoryScale,
}

/// The configuration snapshot the node service is started with.
#[derive(Clone, Debug)]
pub struct Config {
    pub network: Network,
    pub enable_upnp: bool,
    pub enable_grpc: bool,
    pub grpc_network_interface: String,
    pub kaspad_daemon_args_enable: bool,
    pub kaspad_daemon_args: String,
    pub memory_scale: NodeMemoryScale,
}

impl From<NodeSettings> for Config {
    /// A configuration snapshot carries the settings over field by field.
    fn from(node_settings: NodeSettings) -> (r: Config) {
        Config {
            network: node_settings.network,
            enable_upnp: node_settings.enable_upnp,
            enable_grpc: node_settings.enable_grpc,
            grpc_network_interface: node_settings.grpc_network_interface,
            kaspad_daemon_args_enable: node_settings.kaspad_daemon_args_enable,
            kaspad_daemon_args: node_settings.kaspad_daemon_args,
            memory_scale: node_settings.memory_scale,
        }
    }
}

impl vstd::std_specs::convert::FromSpecImpl<NodeSettings> for Config {
    open spec fn obeys_from_spec() -> bool {
        true
    }

    open spec fn from_spec(node_settings: NodeSettings) -> Config {
        Config {
            network: node_settings.network,
            enable_upnp: node_settings.enable_upnp,
            enable_grpc: node_settings.enable_grpc,
            grpc_network_interface: node_settings.grpc_network_interface,
            kaspad_daemon_args_enable: node_settings.kaspad_daemon_args_enable,
            kaspad_daemon_args: node_settings.kaspad_daemon_args,
            memory_scale: node_settings.memory_scale,
        }
    }
}

} // verus!

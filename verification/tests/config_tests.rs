use kaspa_ng::config::{Config, Network, NodeMemoryScale, NodeSettings};
use kaspa_ng::once_slot::OnceSlot;

#[test]
fn config_copies_every_setting() {
    let settings = NodeSettings {
        network: Network::Testnet10,
        enable_upnp: false,
        enable_grpc: true,
        grpc_network_interface: String::from("127.0.0.1:16110"),
        kaspad_daemon_args_enable: true,
        kaspad_daemon_args: String::from("--loglevel=debug"),
        memory_scale: NodeMemoryScale::Scaled(150),
    };
    let config = Config::from(settings);
    assert_eq!(config.network, Network::Testnet10);
    assert!(!config.enable_upnp);
    assert!(config.enable_grpc);
    assert_eq!(config.grpc_network_interface, "127.0.0.1:16110");
    assert!(config.kaspad_daemon_args_enable);
    assert_eq!(config.kaspad_daemon_args, "--loglevel=debug");
    assert_eq!(config.memory_scale, NodeMemoryScale::Scaled(150));
}

#[test]
fn config_default_memory_scale() {
    let settings = NodeSettings {
        network: Network::Mainnet,
        enable_upnp: true,
        enable_grpc: false,
        grpc_network_interface: String::new(),
        kaspad_daemon_args_enable: false,
        kaspad_daemon_args: String::new(),
        memory_scale: NodeMemoryScale::Default,
    };
    let config = Config::from(settings);
    assert_eq!(config.network, Network::Mainnet);
    assert_eq!(config.memory_scale, NodeMemoryScale::Default);
}

#[test]
fn once_slot_initializes_exactly_once() {
    let mut slot: OnceSlot<u32> = OnceSlot::new();
    assert!(!slot.is_initialized());
    assert_eq!(slot.get(), None);
    assert_eq!(slot.init(5), Ok(()));
    assert!(slot.is_initialized());
    assert_eq!(slot.get(), Some(&5));
    // A second initialization is refused and hands the value back.
    assert_eq!(slot.init(9), Err(9));
    assert_eq!(slot.get(), Some(&5));
}

#[test]
fn once_slot_reads_do_not_clear() {
    let mut slot: OnceSlot<String> = OnceSlot::new();
    slot.init(String::from("server")).unwrap();
    assert_eq!(slot.get(), Some(&String::from("server")));
    assert_eq!(slot.get(), Some(&String::from("server")));
}

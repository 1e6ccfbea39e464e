//! Decision logic of a microVM sandbox host: layered image configuration,
//! memory snapshots, sandbox networking, VM launch and the block-device daemon.
pub mod text;
pub mod paths;
pub mod failure;
pub mod overlaybd_config;
pub mod overlaybd_rules;
pub mod dirty_memory;
pub mod snapshot_layers;
pub mod snapshot_capture;
pub mod ipv4;
pub mod network_slot;
pub mod network_setup;
pub mod env_vars;
pub mod launch_config;
pub mod kernel_setting;
pub mod launch_checks;
pub mod instance;
pub mod instance_api;
pub mod daemon_client;
pub mod io_ring;
pub mod text_laws;
pub mod path_laws;
pub mod config_laws;
pub mod refusal_laws;
pub mod memory_laws;
pub mod layer_laws;
pub mod capture_laws;
pub mod network_laws;
pub mod launch_laws;
pub mod instance_laws;
pub mod daemon_laws;

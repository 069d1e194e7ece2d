//! Data-transfer values exchanged with the daemon.

pub mod endpoint_ipam_config;
pub mod network_details;

pub use endpoint_ipam_config::EndpointIpamConfig;
pub use network_details::NetworkDetails;

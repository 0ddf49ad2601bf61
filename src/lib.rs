//! Wakes the services of a host when a Wake-on-LAN magic packet for its own
//! hardware address arrives, and plans the host's orderly shutdown.
pub mod activation;
pub mod config;
pub mod hardware_address;
pub mod listener;
pub mod magic_packet;
pub mod shutdown;
pub mod text;

pub use config::default_delay;

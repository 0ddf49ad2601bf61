use vstd::prelude::*;

verus! {

/// Settings of the shutdown sequence.
pub struct ShutdownConfig {
    /// Minutes between scheduling the shutdown and the machine going down.
    pub delay_minutes: u32,
    /// Stop the running containers before the services.
    pub docker_stop: bool,
    /// Withdraw the exported file system shares after the services stop.
    pub unexport_nfs: bool,
}

/// What the daemon reads once at startup.
pub struct Config {
    /// The network interface whose hardware address a magic packet must carry.
    pub interface: String,
    /// The UDP port to listen on, on all interfaces.
    pub port: u16,
    /// The services to start on a wake, and to stop on shutdown, in this order.
    pub services: Vec<String>,
    pub shutdown: ShutdownConfig,
}

/// Minutes between scheduling the shutdown and the machine going down, when the
/// shutdown settings do not name a delay.
pub fn default_delay() -> (r: u32)
    ensures
        r == 5,
{
    5
}

} // verus!

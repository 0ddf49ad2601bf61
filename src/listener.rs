use vstd::prelude::*;

use crate::activation::{BatchModel, ServiceBatch};
use crate::magic_packet::{is_magic_packet, validate};

verus! {

/// The size of the buffer that one datagram is received into. Only its first
/// twelve bytes are ever inspected.
pub const RECEIVE_BUFFER_LEN: usize = 1024;

/// The decisions of the wake loop: which datagrams wake the host, and what is
/// started when one does.
pub struct WakeListener {
    address: [u8; 6],
    services: Vec<String>,
}

impl WakeListener {
    /// The hardware address that a magic packet must carry.
    pub closed spec fn spec_address(&self) -> Seq<u8> {
        self.address@
    }

    /// The services started on each wake, in order.
    pub closed spec fn spec_services(&self) -> Seq<Seq<char>> {
        self.services@.map_values(|s: String| s@)
    }

    pub fn new(address: [u8; 6], services: Vec<String>) -> (r: WakeListener)
        ensures
            r.spec_address() == address@,
            r.spec_services() == services@.map_values(|s: String| s@),
    {
        WakeListener { address, services }
    }

    pub fn address(&self) -> (r: [u8; 6])
        ensures
            r@ == self.spec_address(),
    {
        self.address
    }

    /// Handles one received datagram: a magic packet for this host starts a
    /// batch over every configured service, in order; anything else is
    /// dropped.
    pub fn handle_datagram(&self, datagram: &[u8]) -> (r: Option<ServiceBatch>)
        ensures
            r is Some <==> is_magic_packet(datagram@, self.spec_address()),
            r matches Some(b) ==> b@ == BatchModel::start(self.spec_services()),
    {
        if validate(datagram, &self.address) {
            Some(ServiceBatch::new(self.services.clone()))
        } else {
            None
        }
    }
}

} // verus!

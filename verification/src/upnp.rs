//! Bookkeeping for gateway port mappings: which mappings to request for the
//! BitTorrent and routing-table ports, and which were granted and must be
//! removed again at shutdown.
//!
//! Gateway discovery and the mapping calls themselves are the runtime's
//! work; this module pins what is asked for and what is cleaned up.

use vstd::prelude::*;

verus! {

/// The transport protocol of one mapping.
#[derive(Debug, Clone, Copy, PartialEq, Eq, Structural)]
pub enum PortProtocol {
    Tcp,
    Udp,
}

/// One mapping to request from the gateway.
pub struct MappingRequest {
    pub protocol: PortProtocol,
    pub port: u16,
    pub lease_secs: u32,
    pub description: String,
}

/// The two mappings the application asks for: the BitTorrent port over TCP
/// and the routing-table port over UDP, each leased for an hour.
pub fn plan_mappings(bt_port: u16, dht_port: u16) -> (r: Vec<MappingRequest>)
    ensures
        r@.len() == 2,
        r@[0].protocol == PortProtocol::Tcp,
        r@[0].port == bt_port,
        r@[0].lease_secs == 3600,
        r@[0].description@ == "Motrix BT"@,
        r@[1].protocol == PortProtocol::Udp,
        r@[1].port == dht_port,
        r@[1].lease_secs == 3600,
        r@[1].description@ == "Motrix DHT"@,
{
    let mut bt_desc = String::new();
    bt_desc.append("Motrix BT");
    let mut dht_desc = String::new();
    dht_desc.append("Motrix DHT");
    vec![
        MappingRequest {
            protocol: PortProtocol::Tcp,
            port: bt_port,
            lease_secs: 3600,
            description: bt_desc,
        },
        MappingRequest {
            protocol: PortProtocol::Udp,
            port: dht_port,
            lease_secs: 3600,
            description: dht_desc,
        },
    ]
}

/// One granted mapping, remembered for removal.
#[derive(Debug, Clone, Copy, PartialEq, Eq, Structural)]
pub struct MappedPort {
    pub port: u16,
    pub protocol: PortProtocol,
}

/// The mappings the gateway granted and still holds for us.
pub struct MappedPorts {
    pub entries: Vec<MappedPort>,
}

impl MappedPorts {
    /// No mappings granted yet.
    pub fn new() -> (r: Self)
        ensures
            r.entries@.len() == 0,
    {
        MappedPorts { entries: Vec::new() }
    }

    /// Remembers one granted mapping.
    pub fn record(&mut self, port: u16, protocol: PortProtocol)
        ensures
            final(self).entries@ == old(self).entries@.push(
                (MappedPort { port, protocol }),
            ),
    {
        self.entries.push(MappedPort { port, protocol });
    }

    /// Hands out everything recorded, exactly once: the caller removes each
    /// mapping, and the record is empty afterwards, so a second cleanup
    /// removes nothing.
    pub fn take_all(&mut self) -> (r: Vec<MappedPort>)
        ensures
            r == old(self).entries,
            final(self).entries@.len() == 0,
    {
        let mut taken = Vec::new();
        core::mem::swap(&mut taken, &mut self.entries);
        taken
    }
}

} // verus!

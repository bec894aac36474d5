//! Addresses of the remote services, and what the wallet reads of the
//! leader's node descriptor.

use vstd::prelude::*;

verus! {

/// The port on which the token-grant service listens.
pub const DRONE_PORT: u16 = 9900;

/// The port of the leader that is assumed when no node descriptor is given.
pub const DEFAULT_LEADER_PORT: u16 = 8000;

/// An internet address: the four bytes of version 4 or the eight segments of
/// version 6.
#[derive(Clone, Copy, Debug, PartialEq, Eq)]
pub enum IpAddress {
    V4([u8; 4]),
    V6([u16; 8]),
}

/// An internet address and a port.
#[derive(Clone, Copy, Debug, PartialEq, Eq)]
pub struct SocketAddress {
    pub ip: IpAddress,
    pub port: u16,
}

impl SocketAddress {
    /// The address `ip` with the port `port`.
    pub fn new(ip: IpAddress, port: u16) -> (addr: SocketAddress)
        ensures
            addr == (SocketAddress { ip, port }),
    {
        SocketAddress { ip, port }
    }

    /// Changes the port and leaves the address as it is.
    pub fn set_port(&mut self, port: u16)
        ensures
            *final(self) == (SocketAddress { ip: old(self).ip, port }),
    {
        self.port = port;
    }

    /// Whether this is the unspecified address of version 4, `0.0.0.0`.
    pub open spec fn is_unspecified_v4(self) -> bool {
        self.ip matches IpAddress::V4(octets) && octets@ == seq![0u8, 0u8, 0u8, 0u8]
    }
}

/// The address at which a leader is assumed when no node descriptor is
/// given: every interface of this machine, port [`DEFAULT_LEADER_PORT`].
pub fn default_leader_addr() -> (addr: SocketAddress)
    ensures
        addr.is_unspecified_v4(),
        addr.port == DEFAULT_LEADER_PORT,
{
    let octets = [0u8; 4];
    assert(octets@ =~= seq![0u8, 0u8, 0u8, 0u8]);
    SocketAddress { ip: IpAddress::V4(octets), port: DEFAULT_LEADER_PORT }
}

/// Where a node takes requests: `rpu` answers queries, `tpu` takes
/// transactions.
#[derive(Clone, Copy, Debug, PartialEq, Eq)]
pub struct ContactInfo {
    pub rpu: SocketAddress,
    pub tpu: SocketAddress,
}

/// What the wallet reads of a node descriptor.
#[derive(Clone, Copy, Debug, PartialEq, Eq)]
pub struct NodeInfo {
    pub contact_info: ContactInfo,
}

/// The address of the token-grant service that belongs to `leader`: the
/// address at which the leader takes transactions, with the port
/// [`DRONE_PORT`].
pub open spec fn drone_addr_of(leader: NodeInfo) -> SocketAddress {
    SocketAddress { ip: leader.contact_info.tpu.ip, port: DRONE_PORT }
}

/// The address of the token-grant service that belongs to `leader`.
pub fn drone_addr(leader: &NodeInfo) -> (addr: SocketAddress)
    ensures
        addr == drone_addr_of(*leader),
{
    let mut addr = leader.contact_info.tpu;
    addr.set_port(DRONE_PORT);
    addr
}

} // verus!

//! How the session with the leader is set up.

use vstd::prelude::*;
use crate::endpoint::{IpAddress, NodeInfo, SocketAddress};

verus! {

/// How long a read on the query socket waits for an answer, in milliseconds.
pub const REQUESTS_READ_TIMEOUT_MILLIS: u64 = 1000;

/// The two sockets of a session. Queries and transactions travel over
/// sockets of their own, each bound to a port that the system picks. Only
/// reads on the query socket give up after a time.
#[derive(Clone, Copy, Debug, PartialEq, Eq)]
pub struct ClientSetup {
    /// Where queries are sent.
    pub requests_addr: SocketAddress,
    /// The local address of the query socket.
    pub requests_bind: SocketAddress,
    /// After how many milliseconds a read on the query socket gives up.
    pub requests_read_timeout_millis: Option<u64>,
    /// Where transactions are sent.
    pub transactions_addr: SocketAddress,
    /// The local address of the transaction socket.
    pub transactions_bind: SocketAddress,
    /// After how many milliseconds a read on the transaction socket gives
    /// up.
    pub transactions_read_timeout_millis: Option<u64>,
}

/// Any address of this machine, with a port that the system picks.
pub fn ephemeral_addr() -> (addr: SocketAddress)
    ensures
        addr.is_unspecified_v4(),
        addr.port == 0,
{
    let octets = [0u8; 4];
    assert(octets@ =~= seq![0u8, 0u8, 0u8, 0u8]);
    SocketAddress { ip: IpAddress::V4(octets), port: 0 }
}

/// The setup of a session with the node `r`.
pub fn mk_client(r: &NodeInfo) -> (setup: ClientSetup)
    ensures
        setup.requests_addr == r.contact_info.rpu,
        setup.transactions_addr == r.contact_info.tpu,
        setup.requests_bind.is_unspecified_v4(),
        setup.requests_bind.port == 0,
        setup.transactions_bind.is_unspecified_v4(),
        setup.transactions_bind.port == 0,
        setup.requests_read_timeout_millis == Some(REQUESTS_READ_TIMEOUT_MILLIS),
        setup.transactions_read_timeout_millis == None::<u64>,
{
    ClientSetup {
        requests_addr: r.contact_info.rpu,
        requests_bind: ephemeral_addr(),
        requests_read_timeout_millis: Some(REQUESTS_READ_TIMEOUT_MILLIS),
        transactions_addr: r.contact_info.tpu,
        transactions_bind: ephemeral_addr(),
        transactions_read_timeout_millis: None,
    }
}

} // verus!

//! A server's view of its term and of the cluster's leader.
use vstd::prelude::*;

verus! {

/// Whether a server leads or follows.
#[derive(Clone, Copy, Debug, PartialEq, Eq, Structural)]
pub enum ServerState {
    Leader,
    Follower,
}

impl Default for ServerState {
    fn default() -> (s: ServerState)
        ensures
            s == ServerState::Follower,
    {
        ServerState::Follower
    }
}

/// An IP address, version 4 or 6, as its number.
#[derive(Clone, Copy, Debug, PartialEq, Eq, Structural)]
pub enum IpAddress {
    V4(u32),
    V6(u128),
}

/// An IP address and a port.
#[derive(Clone, Copy, Debug, PartialEq, Eq, Structural)]
pub struct SocketAddress {
    pub ip: IpAddress,
    pub port: u16,
}

/// A server's number and the address at which it listens.
#[derive(Clone, Copy, Debug, PartialEq, Eq, Structural)]
pub struct ServerId {
    pub id: u32,
    pub address: SocketAddress,
}

/// The address `[::1]:50051`: the IPv6 loopback address, port 50051.
pub open spec fn default_address() -> SocketAddress {
    SocketAddress { ip: IpAddress::V6(1), port: 50051 }
}

/// A server's term, its identity, whether it leads, and the leader it knows of.
#[derive(Debug)]
pub struct TermState {
    pub current_term: u64,
    pub server_id: ServerId,
    pub server_state: ServerState,
    pub leader: Option<ServerId>,
}

impl TermState {
    /// Whether `self` is the state of a server that has just started: term 0,
    /// server 0 at `[::1]:50051`, a follower that knows of no leader.
    pub open spec fn is_initial(self) -> bool {
        &&& self.current_term == 0
        &&& self.server_id == ServerId { id: 0, address: default_address() }
        &&& self.server_state == ServerState::Follower
        &&& self.leader is None
    }

    /// The state of a server that has just started.
    pub fn new() -> (t: TermState)
        ensures
            t.is_initial(),
    {
        TermState::default()
    }
}

impl Default for TermState {
    fn default() -> (t: TermState)
        ensures
            t.is_initial(),
    {
        TermState {
            current_term: 0,
            server_id: ServerId {
                id: 0,
                address: SocketAddress { ip: IpAddress::V6(1), port: 50051 },
            },
            server_state: ServerState::Follower,
            leader: None,
        }
    }
}

} // verus!

//! The cluster's configuration.
use vstd::prelude::*;
use rand::Rng;

verus! {

/// One server of the cluster.
#[derive(Clone, Debug, PartialEq, Eq)]
pub struct Peer {
    /// unique identifier number for this server.
    pub id: u64,
    /// Some string that can be parsed into a SocketAddr
    pub address: String,
    /// Some string that can be passed into tonic Channel builder
    pub uri: String,
}

/// The cluster and its timing.
#[derive(Clone, Debug, PartialEq, Eq)]
pub struct Config {
    /// List of peer servers, comes from the config file.
    pub servers: Vec<Peer>,
    /// Minimum number of milliseconds to wait for a heartbeat before triggering an election.
    pub election_timeout_min_ms: u32,
    /// Maximum number of milliseconds to wait for a heartbeat before triggering an election.
    pub election_timeout_max_ms: u32,
    /// Number of milliseconds between each heartbeat from the leader
    pub heartbeat_interval_ms: u32,
}

/// Calls `rand::Rng::gen_range` on `rand::thread_rng()` with the range
/// `low..high`. Its source samples uniformly from `[low, high)`, and panics on
/// an empty range, which `requires` leaves out; the value drawn is left free.
#[verifier::external_body]
fn random_in_range(low: u64, high: u64) -> (r: u64)
    requires
        low < high,
    ensures
        low <= r < high,
{
    rand::thread_rng().gen_range(low..high)
}

impl Config {
    /// The first server of the cluster with identifier `id`, if there is one.
    pub fn find_server(&self, id: u64) -> (found: Option<&Peer>)
        ensures
            match found {
                Some(p) => exists|i: int|
                    0 <= i < self.servers@.len() && self.servers@[i] == *p && p.id == id
                        && forall|j: int| 0 <= j < i ==> self.servers@[j].id != id,
                None => forall|j: int| 0 <= j < self.servers@.len() ==> self.servers@[j].id != id,
            },
    {
        let n = self.servers.len();
        let mut i: usize = 0;
        while i < n
            invariant
                n == self.servers@.len(),
                i <= n,
                forall|j: int| 0 <= j < i ==> self.servers@[j].id != id,
            decreases n - i,
        {
            if self.servers[i].id == id {
                return Some(&self.servers[i]);
            }
            i = i + 1;
        }
        None
    }

    /// How long a server waits for a heartbeat before it stands for election,
    /// drawn at random from the configured range.
    pub fn election_timeout_ms(&self) -> (ms: u64)
        requires
            self.election_timeout_min_ms < self.election_timeout_max_ms,
        ensures
            self.election_timeout_min_ms <= ms < self.election_timeout_max_ms,
    {
        random_in_range(self.election_timeout_min_ms as u64, self.election_timeout_max_ms as u64)
    }
}

} // verus!

//! The keeper of a server's state: it answers the commands that the request
//! handlers, the election and the heartbeat send it.
use vstd::prelude::*;
use tonic::transport::Uri;

use crate::client_tools::{parsed_uri, peer_uri, uri_is_valid};
use crate::config::Peer;
use crate::messages::{
    AppendEntriesReply, AppendEntriesRequest, RequestVoteReply, RequestVoteRequest, RpcError,
    SetRequest,
};
use crate::scow_impl::ServerState;

verus! {

/// What the keeper of the state is asked to do.
#[derive(Debug)]
pub enum StateCommand {
    GetServerState,
    SetServerState(ServerState),
    Heartbeat,
    RequestVote,
    DistributeWrites(Vec<SetRequest>),
}

/// The keeper's answer to a command.
#[derive(Debug)]
pub enum StateCommandResult {
    StateResponse(ServerState),
    HeartbeatResponse(Vec<Result<AppendEntriesReply, RpcError>>),
    RequestVoteResponse(Vec<Result<RequestVoteReply, RpcError>>),
    StateSuccess,
}

/// What the keeper does with a command: answer at once, or first send a
/// request to every other server and answer with their replies.
#[derive(Debug)]
pub enum StateAction {
    Reply(StateCommandResult),
    BroadcastAppendEntries(AppendEntriesRequest),
    BroadcastRequestVote(RequestVoteRequest),
}

/// Another server of the cluster, with the URI at which it is reached.
#[derive(Debug)]
pub struct PeerTarget {
    pub id: u64,
    pub uri: Uri,
}

/// The servers among `peers` that a server `my_id` talks to: all others whose
/// URI parses, in their order.
pub open spec fn reachable_peers(peers: Seq<Peer>, my_id: u64) -> Seq<Peer>
    decreases peers.len(),
{
    if peers.len() == 0 {
        Seq::empty()
    } else {
        let rest = reachable_peers(peers.drop_last(), my_id);
        let p = peers.last();
        if p.id != my_id && uri_is_valid(p.uri@) {
            rest.push(p)
        } else {
            rest
        }
    }
}

/// The identifiers of the servers among `peers` that a server `my_id` talks
/// to, in their order.
pub open spec fn reachable_peer_ids(peers: Seq<Peer>, my_id: u64) -> Seq<u64> {
    reachable_peers(peers, my_id).map_values(|p: Peer| p.id)
}

/// Whether `targets` are the servers `reached`, each aimed at the URI that its
/// text parses to.
pub open spec fn aims_at(targets: Seq<PeerTarget>, reached: Seq<Peer>) -> bool {
    &&& targets.len() == reached.len()
    &&& forall|i: int|
        0 <= i < targets.len() ==> #[trigger] targets[i].id == reached[i].id && targets[i].uri
            == parsed_uri(reached[i].uri@)
}

/// The servers that a server `my_id` talks to are exactly those of `peers`
/// that are not itself, judged by identifier wherever they stand in the list,
/// and whose URI parses, in their order: none of them is the server itself,
/// and each such peer is among them.
pub proof fn law_reachable_peers_are_the_others(peers: Seq<Peer>, my_id: u64)
    ensures
        reachable_peers(peers, my_id) == peers.filter(
            |p: Peer| p.id != my_id && uri_is_valid(p.uri@),
        ),
        forall|i: int|
            0 <= i < reachable_peers(peers, my_id).len() ==> #[trigger] reachable_peers(
                peers,
                my_id,
            )[i].id != my_id && uri_is_valid(reachable_peers(peers, my_id)[i].uri@),
        forall|i: int|
            0 <= i < peers.len() && #[trigger] peers[i].id != my_id && uri_is_valid(peers[i].uri@)
                ==> reachable_peers(peers, my_id).contains(peers[i]),
    decreases peers.len(),
{
    reveal(Seq::filter);
    let pred = |p: Peer| p.id != my_id && uri_is_valid(p.uri@);
    if peers.len() > 0 {
        law_reachable_peers_are_the_others(peers.drop_last(), my_id);
    }
    assert(reachable_peers(peers, my_id) == peers.filter(pred));
    broadcast use vstd::seq_lib::group_filter_ensures;
    assert(forall|i: int| 0 <= i < peers.filter(pred).len() ==> pred(peers.filter(pred)[i]));
}

/// Whether `r` is the heartbeat of a leader in state `s` that carries
/// `writes`. The log positions it names are fixed placeholders.
pub open spec fn is_heartbeat_of(r: AppendEntriesRequest, s: ServerState, writes: Seq<SetRequest>) -> bool {
    &&& r.leader_term == s.current_term
    &&& r.leader_id == s.id
    &&& r.prev_log_index == 33333
    &&& r.prev_log_term == 44444
    &&& r.leader_commit == 55555
    &&& r.entries@ == writes
}

/// The vote request of a candidate in state `s`. The log position it names
/// is a fixed placeholder.
pub open spec fn vote_request_of(s: ServerState) -> RequestVoteRequest {
    RequestVoteRequest {
        term: s.current_term,
        candidate_id: s.id,
        last_log_index: 9999,
        last_log_term: 8888,
    }
}

/// The state after the keeper in state `s` handles `cmd`.
pub open spec fn state_after(s: ServerState, cmd: StateCommand) -> ServerState {
    match cmd {
        StateCommand::SetServerState(n) => n,
        _ => s,
    }
}

/// The answer that the keeper in state `s` gives to `cmd` at once, if it
/// sends no request first.
pub open spec fn immediate_reply(s: ServerState, cmd: StateCommand) -> Option<StateCommandResult> {
    match cmd {
        StateCommand::GetServerState => Some(StateCommandResult::StateResponse(s)),
        StateCommand::SetServerState(_) => Some(StateCommandResult::StateSuccess),
        _ => None,
    }
}

/// A server's state and the other servers it talks to.
pub struct StateHandler {
    server_state: ServerState,
    peers: Vec<PeerTarget>,
}

impl StateHandler {
    /// The state that the keeper holds.
    pub closed spec fn state(&self) -> ServerState {
        self.server_state
    }

    /// The other servers that the keeper talks to.
    pub closed spec fn targets(&self) -> Seq<PeerTarget> {
        self.peers@
    }

    /// The identifiers of the other servers that the keeper talks to.
    pub open spec fn peer_ids(&self) -> Seq<u64> {
        self.targets().map_values(|t: PeerTarget| t.id)
    }

    /// The keeper of server `my_id` in the cluster `peers`: it holds a fresh
    /// state and talks to every other server whose URI parses, at that URI.
    pub fn new(peers: &[Peer], my_id: u64) -> (h: StateHandler)
        ensures
            h.state().is_fresh(my_id),
            aims_at(h.targets(), reachable_peers(peers@, my_id)),
            forall|i: int| 0 <= i < h.targets().len() ==> #[trigger] h.targets()[i].id != my_id,
            h.peer_ids() == reachable_peer_ids(peers@, my_id),
    {
        let mut targets: Vec<PeerTarget> = Vec::new();
        let n = peers.len();
        let mut i: usize = 0;
        while i < n
            invariant
                n == peers@.len(),
                i <= n,
                aims_at(targets@, reachable_peers(peers@.take(i as int), my_id)),
            decreases n - i,
        {
            let p = &peers[i];
            assert(peers@.take(i + 1).drop_last() =~= peers@.take(i as int));
            assert(peers@.take(i + 1).last() == peers@[i as int]);
            if p.id != my_id {
                match peer_uri(p) {
                    Ok(uri) => {
                        targets.push(PeerTarget { id: p.id, uri });
                    },
                    Err(_) => {},
                }
            }
            i = i + 1;
        }
        assert(peers@.take(n as int) =~= peers@);
        let h = StateHandler { server_state: ServerState::new(my_id), peers: targets };
        proof {
            law_reachable_peers_are_the_others(peers@, my_id);
        }
        assert(h.peer_ids() =~= reachable_peer_ids(peers@, my_id));
        h
    }

    /// The state that the keeper holds.
    pub fn server_state(&self) -> (s: ServerState)
        ensures
            s == self.state(),
    {
        self.server_state
    }

    /// The other servers that the keeper talks to.
    pub fn peers(&self) -> (p: &Vec<PeerTarget>)
        ensures
            p@ == self.targets(),
    {
        &self.peers
    }

    /// Replaces the state that the keeper holds.
    pub fn set_server_state(&mut self, new_state: ServerState)
        ensures
            final(self).state() == new_state,
            final(self).targets() == old(self).targets(),
    {
        self.server_state = new_state;
    }

    /// The heartbeat that this server sends, carrying `writes`.
    pub fn heartbeat_request(&self, writes: Vec<SetRequest>) -> (r: AppendEntriesRequest)
        ensures
            is_heartbeat_of(r, self.state(), writes@),
    {
        AppendEntriesRequest {
            leader_term: self.server_state.current_term,
            leader_id: self.server_state.id,
            prev_log_index: 33333,
            prev_log_term: 44444,
            leader_commit: 55555,
            entries: writes,
        }
    }

    /// The vote request that this server sends.
    pub fn request_vote_request(&self) -> (r: RequestVoteRequest)
        ensures
            r == vote_request_of(self.state()),
    {
        RequestVoteRequest {
            term: self.server_state.current_term,
            candidate_id: self.server_state.id,
            last_log_index: 9999,
            last_log_term: 8888,
        }
    }

    /// Handles `cmd`: a read or a write of the state is answered at once; a
    /// heartbeat, a vote request or writes to pass on become a request to
    /// every other server.
    pub fn handle_command(&mut self, cmd: StateCommand) -> (action: StateAction)
        ensures
            final(self).state() == state_after(old(self).state(), cmd),
            final(self).targets() == old(self).targets(),
            immediate_reply(old(self).state(), cmd) matches Some(r) ==> action == StateAction::Reply(r),
            cmd is Heartbeat ==> (action matches StateAction::BroadcastAppendEntries(r)
                && is_heartbeat_of(r, old(self).state(), Seq::empty())),
            cmd matches StateCommand::DistributeWrites(w) ==> (action matches StateAction::BroadcastAppendEntries(r)
                && is_heartbeat_of(r, old(self).state(), w@)),
            cmd is RequestVote ==> action == StateAction::BroadcastRequestVote(vote_request_of(old(self).state())),
    {
        match cmd {
            StateCommand::GetServerState => {
                StateAction::Reply(StateCommandResult::StateResponse(self.server_state))
            },
            StateCommand::SetServerState(s) => {
                self.set_server_state(s);
                StateAction::Reply(StateCommandResult::StateSuccess)
            },
            StateCommand::Heartbeat => {
                let empty_writes: Vec<SetRequest> = Vec::new();
                StateAction::BroadcastAppendEntries(self.heartbeat_request(empty_writes))
            },
            StateCommand::RequestVote => {
                StateAction::BroadcastRequestVote(self.request_vote_request())
            },
            StateCommand::DistributeWrites(writes) => {
                StateAction::BroadcastAppendEntries(self.heartbeat_request(writes))
            },
        }
    }
}

/// A read of the state right after a write of it gives back what was written.
pub proof fn law_state_reads_back(s: ServerState, written: ServerState)
    ensures
        immediate_reply(
            state_after(s, StateCommand::SetServerState(written)),
            StateCommand::GetServerState,
        ) == Some(StateCommandResult::StateResponse(written)),
{
}

} // verus!

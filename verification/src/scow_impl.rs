//! The state of a server and its answers to the requests that it serves.
use vstd::prelude::*;
use tokio::time::Instant;

use crate::clock::instant_now;
use crate::db::{apply_writes, lookup, Db};
use crate::messages::{
    AppendEntriesReply, AppendEntriesRequest, GetReply, GetRequest, RequestVoteReply,
    RequestVoteRequest, RpcCode, RpcError, SetReply, SetRequest, StatusReply,
};



verus! {

/// The part that a server plays in the cluster.
#[derive(Clone, Copy, Debug, PartialEq, Eq, Structural)]
pub enum Role {
    Follower,
    Leader,
    Candidate,
}

impl Default for Role {
    fn default() -> (r: Role)
        ensures
            r == Role::Follower,
    {
        Role::Follower
    }
}

/// What a leader keeps about replication.
#[derive(Clone, Copy, Debug)]
pub struct LeaderState {
    /// for each server, index of the next log entry to send to that server (initialized to leader last log index + 1)
    next_index: u64,
    /// for each server, index of highest log entry known to be replicated on server (initialized to 0, increases monotonically)
    match_index: u64,
}

impl LeaderState {
    /// The index of the next log entry to send.
    pub closed spec fn next_index(self) -> u64 {
        self.next_index
    }

    /// The index of the highest log entry known to be replicated.
    pub closed spec fn match_index(self) -> u64 {
        self.match_index
    }

    /// The leader state of a server whose log ends at `last_log_index` and
    /// that has just won an election: the next entry to send is the one after
    /// the leader's last, and nothing is known to be replicated.
    pub closed spec fn starting_at(last_log_index: u64) -> LeaderState {
        LeaderState { next_index: (last_log_index + 1) as u64, match_index: 0 }
    }

    /// The leader state of a server whose log ends at `last_log_index` and
    /// that has just won an election.
    pub fn new(last_log_index: u64) -> (ls: LeaderState)
        requires
            last_log_index < u64::MAX,
        ensures
            ls == LeaderState::starting_at(last_log_index),
            ls.next_index() == last_log_index + 1,
            ls.match_index() == 0,
    {
        LeaderState { next_index: last_log_index + 1, match_index: 0 }
    }
}

/// Everything a server knows of its own place in the cluster.
#[derive(Clone, Copy, Debug)]
pub struct ServerState {
    pub id: u64,
    pub role: Role,
    pub current_term: u64,
    pub voted_for: Option<u64>,
    pub last_heartbeat: Instant,
    pub last_log_index: u64,
    pub leader_state: Option<LeaderState>,
}

impl ServerState {
    /// Whether `self` is the state of server `id` that has just started: a
    /// follower in term 0 with an empty log that has voted for no one.
    pub open spec fn is_fresh(self, id: u64) -> bool {
        &&& self.id == id
        &&& self.role == Role::Follower
        &&& self.current_term == 0
        &&& self.voted_for is None
        &&& self.last_log_index == 0
        &&& self.leader_state is None
    }

    /// A follower in term 0 that has voted for no one, last heard from at
    /// `now`.
    pub fn new_at(id: u64, now: Instant) -> (s: ServerState)
        ensures
            s.is_fresh(id),
            s.last_heartbeat == now,
    {
        ServerState {
            id,
            role: Role::Follower,
            current_term: 0,
            voted_for: None,
            last_heartbeat: now,
            last_log_index: 0,
            leader_state: None,
        }
    }

    /// A follower in term 0 that has voted for no one, heard from now: `new_at`
    /// with the clock's reading, which is not stated.
    pub fn new(id: u64) -> (s: ServerState)
        ensures
            s.is_fresh(id),
    {
        ServerState::new_at(id, instant_now())
    }
}

/// The state after a vote request from `candidate_id` in `candidate_term`,
/// whose log ends at `candidate_last_index`, and whether the vote is granted.
/// The vote goes to a candidate of a later term whose log is at least as long,
/// if this server has voted for no one else; every refusal forgets the vote.
pub open spec fn vote_decision(
    s: ServerState,
    candidate_term: u64,
    candidate_id: u64,
    candidate_last_index: u64,
) -> (ServerState, bool) {
    if candidate_term <= s.current_term {
        (ServerState { voted_for: None, ..s }, false)
    } else if (s.voted_for is None || s.voted_for == Some(candidate_id))
        && candidate_last_index >= s.last_log_index {
        (ServerState { voted_for: Some(candidate_id), ..s }, true)
    } else {
        (ServerState { voted_for: None, ..s }, false)
    }
}

/// Whether a heartbeat of a leader in `leader_term` is accepted by a server
/// in state `s`: it is, unless the leader is in an earlier term.
pub open spec fn heartbeat_accepted(s: ServerState, leader_term: u64) -> bool {
    leader_term >= s.current_term
}

/// The state after a heartbeat of a leader in `leader_term`, heard at `now`:
/// an accepted heartbeat makes the server a follower in the leader's term.
pub open spec fn heard_from_leader(s: ServerState, leader_term: u64, now: Instant) -> ServerState {
    if heartbeat_accepted(s, leader_term) {
        ServerState { role: Role::Follower, current_term: leader_term, last_heartbeat: now, ..s }
    } else {
        ServerState { last_heartbeat: now, ..s }
    }
}

/// The message of the status reply.
pub open spec fn status_ok() -> Seq<char> {
    "Status: OK"@
}

/// The message of the error for a key that is not stored.
pub open spec fn key_not_found() -> Seq<char> {
    "key not found"@
}

/// The message of the error for a write sent to a server that does not lead.
pub open spec fn not_leader() -> Seq<char> {
    "This server is not the leader."@
}

/// The service that a server offers to clients and to the other servers,
/// over its local store.
pub struct MyScowKeyValue {
    db: Db,
}

impl View for MyScowKeyValue {
    type V = Map<Seq<char>, Seq<char>>;

    /// The contents of the local store.
    closed spec fn view(&self) -> Map<Seq<char>, Seq<char>> {
        self.db@
    }
}

impl MyScowKeyValue {
    /// A service over an empty store.
    pub fn new() -> (kv: MyScowKeyValue)
        ensures
            kv@ == Map::<Seq<char>, Seq<char>>::empty(),
    {
        MyScowKeyValue { db: Db::new() }
    }

    /// The answer to a status request.
    pub fn status(&self) -> (reply: StatusReply)
        ensures
            reply.status@ == status_ok(),
    {
        proof {
            reveal_strlit("Status: OK");
        }
        StatusReply { status: "Status: OK".to_owned() }
    }

    /// The value stored under the key asked for, or a not-found error.
    pub fn get(&self, request: &GetRequest) -> (reply: Result<GetReply, RpcError>)
        ensures
            match lookup(self@, request.key@) {
                Some(v) => reply matches Ok(r) && r.value@ == v,
                None => reply matches Err(e) && e.code == RpcCode::NotFound
                    && e.message@ == key_not_found(),
            },
    {
        match self.db.get(request.key.as_str()) {
            Some(s) => Ok(GetReply { value: s }),
            None => Err(RpcError { code: RpcCode::NotFound, message: "key not found".to_owned() }),
        }
    }

    /// A client's write, on a server in state `state`. Only a leader takes
    /// it: it stores the value and hands back the reply and the writes to
    /// pass on to the other servers. Any other server refuses it.
    pub fn set(&mut self, state: &ServerState, request: SetRequest) -> (reply: Result<
        (SetReply, Vec<SetRequest>),
        RpcError,
    >)
        ensures
            state.role == Role::Leader ==> {
                &&& reply matches Ok((r, writes)) && r.success && writes@ == seq![request]
                &&& final(self)@ == old(self)@.insert(request.key@, request.value@)
            },
            state.role != Role::Leader ==> {
                &&& reply matches Err(e) && e.code == RpcCode::FailedPrecondition
                    && e.message@ == not_leader()
                &&& final(self)@ == old(self)@
            },
    {
        if state.role != Role::Leader {
            Err(
                RpcError {
                    code: RpcCode::FailedPrecondition,
                    message: "This server is not the leader.".to_owned(),
                },
            )
        } else {
            self.db.set(request.key.as_str(), request.value.as_str());
            let mut writes: Vec<SetRequest> = Vec::new();
            writes.push(request);
            assert(writes@ =~= seq![request]);
            Ok((SetReply { success: true }, writes))
        }
    }

    /// A leader's heartbeat, on a server in state `state`, heard at `now`:
    /// the new state and the reply. The writes that the heartbeat carries are
    /// stored in their order, whether or not the heartbeat is accepted.
    pub fn append_entries_at(
        &mut self,
        state: ServerState,
        request: AppendEntriesRequest,
        now: Instant,
    ) -> (res: (ServerState, AppendEntriesReply))
        ensures
            res.0 == heard_from_leader(state, request.leader_term, now),
            res.1.term == res.0.current_term,
            res.1.success == heartbeat_accepted(state, request.leader_term),
            final(self)@ == apply_writes(old(self)@, request.entries@),
    {
        let mut new_state = state;
        new_state.last_heartbeat = now;
        let reply = if request.leader_term >= new_state.current_term {
            new_state.role = Role::Follower;
            new_state.current_term = request.leader_term;
            AppendEntriesReply { term: new_state.current_term, success: true }
        } else {
            AppendEntriesReply { term: new_state.current_term, success: false }
        };
        self.db.apply(&request.entries);
        (new_state, reply)
    }

    /// A leader's heartbeat, on a server in state `state`: `append_entries_at`
    /// with the clock's reading, which is not stated.
    pub fn append_entries(&mut self, state: ServerState, request: AppendEntriesRequest) -> (res: (
        ServerState,
        AppendEntriesReply,
    ))
        ensures
            res.0 == heard_from_leader(state, request.leader_term, res.0.last_heartbeat),
            res.1.term == res.0.current_term,
            res.1.success == heartbeat_accepted(state, request.leader_term),
            final(self)@ == apply_writes(old(self)@, request.entries@),
    {
        let now = instant_now();
        self.append_entries_at(state, request, now)
    }

    /// A candidate's vote request, on a server in state `state`: the new
    /// state and the reply, which carries this server's term.
    pub fn request_vote(&self, state: ServerState, request: &RequestVoteRequest) -> (res: (
        ServerState,
        RequestVoteReply,
    ))
        ensures
            (res.0, res.1.vote_granted) == vote_decision(
                state,
                request.term,
                request.candidate_id,
                request.last_log_index,
            ),
            res.1.term == state.current_term,
    {
        let (new_state, term, granted) = self.server_request_vote(
            state,
            request.term,
            request.candidate_id,
            request.last_log_index,
        );
        (new_state, RequestVoteReply { term, vote_granted: granted })
    }

    /// The decision on a vote request from `candidate_id` in `candidate_term`
    /// whose log ends at `candidate_last_index`: the new state, this server's
    /// term and whether the vote is granted.
    pub fn server_request_vote(
        &self,
        state: ServerState,
        candidate_term: u64,
        candidate_id: u64,
        candidate_last_index: u64,
    ) -> (res: (ServerState, u64, bool))
        ensures
            (res.0, res.2) == vote_decision(
                state,
                candidate_term,
                candidate_id,
                candidate_last_index,
            ),
            res.1 == state.current_term,
    {
        let mut state = state;
        let mut vote = false;
        let free_to_vote = match state.voted_for {
            None => true,
            Some(v) => v == candidate_id,
        };
        if candidate_term <= state.current_term {
            state.voted_for = None;
        } else if free_to_vote && candidate_last_index >= state.last_log_index {
            state.voted_for = Some(candidate_id);
            vote = true;
        } else {
            state.voted_for = None;
        }
        (state, state.current_term, vote)
    }
}

/// A vote is granted only to a candidate of a later term whose log is at
/// least as long, and the server then records that it voted for it; the
/// server's term stays as it was.
pub proof fn law_vote_grant_conditions(
    s: ServerState,
    candidate_term: u64,
    candidate_id: u64,
    candidate_last_index: u64,
)
    ensures
        ({
            let (next, granted) = vote_decision(s, candidate_term, candidate_id, candidate_last_index);
            &&& granted ==> candidate_term > s.current_term && candidate_last_index >= s.last_log_index
            &&& granted ==> next.voted_for == Some(candidate_id)
            &&& !granted ==> next.voted_for is None
            &&& next.current_term == s.current_term
        }),
{
}

/// Once a server has granted its vote to one candidate, a request from any
/// other candidate that comes next is refused.
pub proof fn law_vote_goes_to_one_candidate(
    s: ServerState,
    term_a: u64,
    id_a: u64,
    index_a: u64,
    term_b: u64,
    id_b: u64,
    index_b: u64,
)
    requires
        vote_decision(s, term_a, id_a, index_a).1,
        id_b != id_a,
    ensures
        !vote_decision(vote_decision(s, term_a, id_a, index_a).0, term_b, id_b, index_b).1,
{
}

/// A heartbeat never lowers a server's term; an accepted one leaves it a
/// follower in the leader's term, and a refused one keeps its role and term.
pub proof fn law_heartbeat_term(s: ServerState, leader_term: u64, now: Instant)
    ensures
        heard_from_leader(s, leader_term, now).current_term >= s.current_term,
        heartbeat_accepted(s, leader_term) ==> heard_from_leader(s, leader_term, now).role
            == Role::Follower && heard_from_leader(s, leader_term, now).current_term
            == leader_term,
        !heartbeat_accepted(s, leader_term) ==> heard_from_leader(s, leader_term, now).role
            == s.role && heard_from_leader(s, leader_term, now).current_term == s.current_term,
{
}

} // verus!

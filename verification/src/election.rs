//! The decisions of an election round.
use vstd::prelude::*;

use crate::clock::nanos_since;
use crate::config::Config;
use crate::messages::{RequestVoteReply, RpcError};
use crate::scow_impl::{heard_from_leader, vote_decision, LeaderState, Role, ServerState};
use tokio::time::Instant;

verus! {

/// Whether a wait of `elapsed_nanos` nanoseconds is longer than a period of
/// `period_ms` milliseconds.
pub open spec fn exceeds_period(elapsed_nanos: u128, period_ms: u64) -> bool {
    elapsed_nanos > period_ms * 1_000_000
}

/// Whether a wait of `elapsed_nanos` nanoseconds is longer than a period of
/// `period_ms` milliseconds.
pub fn elapsed_exceeds(elapsed_nanos: u128, period_ms: u64) -> (longer: bool)
    ensures
        longer == exceeds_period(elapsed_nanos, period_ms),
{
    elapsed_nanos > (period_ms as u128) * 1_000_000
}

/// Whether no heartbeat has reached the server in state `state` for longer
/// than `period_ms` milliseconds, and the time in nanoseconds that the clock
/// gives since `state.last_heartbeat`. The answer is that time held against
/// the period; the time itself depends on the moment of the call.
pub fn heartbeat_timed_out(state: &ServerState, period_ms: u64) -> (res: (bool, u128))
    ensures
        res.0 == exceeds_period(res.1, period_ms),
{
    let elapsed = nanos_since(&state.last_heartbeat);
    (elapsed_exceeds(elapsed, period_ms), elapsed)
}

/// Whether a server in state `s` stands for election when its heartbeat has
/// timed out or not: followers and candidates do, leaders do not.
pub open spec fn stands_for_election(s: ServerState, timed_out: bool) -> bool {
    timed_out && (s.role == Role::Follower || s.role == Role::Candidate)
}

/// The state of a server in state `s` that stands for election: a candidate
/// in the next term that has voted for no one.
pub open spec fn candidate_state(s: ServerState) -> ServerState {
    ServerState {
        current_term: (s.current_term + 1) as u64,
        role: Role::Candidate,
        voted_for: None,
        ..s
    }
}

/// The start of an election round: the state to commit before votes are
/// requested, or `None` where the server does not stand.
pub fn begin_election(state: ServerState, timed_out: bool) -> (next: Option<ServerState>)
    requires
        stands_for_election(state, timed_out) ==> state.current_term < u64::MAX,
    ensures
        next == (if stands_for_election(state, timed_out) {
            Some(candidate_state(state))
        } else {
            None
        }),
{
    let stands = match state.role {
        Role::Follower => true,
        Role::Candidate => true,
        Role::Leader => false,
    };
    if stands && timed_out {
        let mut s = state;
        s.current_term = s.current_term + 1;
        s.role = Role::Candidate;
        s.voted_for = None;
        Some(s)
    } else {
        None
    }
}

/// The number of granted votes among `replies`; failed requests count as
/// refusals.
pub open spec fn granted_count(replies: Seq<Result<RequestVoteReply, RpcError>>) -> nat
    decreases replies.len(),
{
    if replies.len() == 0 {
        0
    } else {
        granted_count(replies.drop_last()) + (if replies.last() matches Ok(r) && r.vote_granted {
            1nat
        } else {
            0nat
        })
    }
}

/// The number of votes that wins an election among `n` servers.
pub open spec fn threshold(n: nat) -> nat {
    n / 2 + 1
}

/// The number of votes that wins an election in the configured cluster.
pub fn vote_threshold(config: &Config) -> (t: usize)
    ensures
        t == threshold(config.servers@.len()),
{
    config.servers.len() / 2 + 1
}

/// The votes a candidate holds after `replies`: its own and those granted.
pub fn count_votes(replies: &Vec<Result<RequestVoteReply, RpcError>>) -> (votes: usize)
    requires
        replies@.len() < usize::MAX,
    ensures
        votes == 1 + granted_count(replies@),
{
    let n = replies.len();
    let mut votes: usize = 1;
    let mut i: usize = 0;
    while i < n
        invariant
            n == replies@.len(),
            n < usize::MAX,
            i <= n,
            votes == 1 + granted_count(replies@.take(i as int)),
            granted_count(replies@.take(i as int)) <= i,
        decreases n - i,
    {
        assert(replies@.take(i + 1).drop_last() =~= replies@.take(i as int));
        match &replies[i] {
            Ok(r) => {
                if r.vote_granted {
                    votes = votes + 1;
                }
            },
            Err(_) => {},
        }
        i = i + 1;
    }
    assert(replies@.take(n as int) =~= replies@);
    votes
}

/// The state of a candidate in state `s` that has won the election.
pub open spec fn leader_state_after_win(s: ServerState) -> ServerState {
    ServerState {
        voted_for: Some(s.id),
        role: Role::Leader,
        leader_state: Some(LeaderState::starting_at(s.last_log_index)),
        ..s
    }
}

/// The end of an election round for the candidate in state `state`, given
/// the replies to its vote requests: the leader's state to commit if its own
/// vote and those granted reach the threshold of the configured cluster, and
/// `None` if they do not.
pub fn conclude_election(
    state: ServerState,
    config: &Config,
    replies: &Vec<Result<RequestVoteReply, RpcError>>,
) -> (next: Option<ServerState>)
    requires
        replies@.len() < usize::MAX,
        1 + granted_count(replies@) >= threshold(config.servers@.len()) ==> state.last_log_index
            < u64::MAX,
    ensures
        next == (if 1 + granted_count(replies@) >= threshold(config.servers@.len()) {
            Some(leader_state_after_win(state))
        } else {
            None
        }),
{
    let needed = vote_threshold(config);
    let mut s = state;
    s.voted_for = Some(s.id);
    let votes = count_votes(replies);
    if votes >= needed {
        s.role = Role::Leader;
        s.leader_state = Some(LeaderState::new(s.last_log_index));
        Some(s)
    } else {
        None
    }
}

/// Where an election round stands.
#[derive(Debug)]
pub enum ElectionRound {
    /// No round is under way.
    Idle,
    /// The candidate's state is being committed.
    Standing(ServerState),
    /// The candidate's votes are being requested.
    Polling(ServerState),
    /// The winner's state is being committed.
    Finishing,
}

/// What the election loop has seen since its last step.
#[derive(Debug)]
pub enum ElectionEvent {
    /// The timer fired: the server's state, and whether its heartbeat timed out.
    Tick(ServerState, bool),
    /// The state last handed over has been committed (or the attempt ended).
    Committed,
    /// The replies to the vote requests.
    Votes(Vec<Result<RequestVoteReply, RpcError>>),
}

/// What the election loop does next.
#[derive(Debug)]
pub enum ElectionAction {
    /// Nothing until the timer fires again.
    Wait,
    /// Commit this state.
    Commit(ServerState),
    /// Ask the other servers for their votes.
    RequestVotes,
}

/// The next stage of an election round at `round` after `event`, in a
/// cluster of `n` servers, and what to do: a server that stands commits its
/// candidate state, then asks for votes, then commits the winner's state if
/// it won; anything out of turn ends the round.
pub open spec fn election_step_spec(round: ElectionRound, event: ElectionEvent, n: nat) -> (
    ElectionRound,
    ElectionAction,
) {
    match round {
        ElectionRound::Idle => match event {
            ElectionEvent::Tick(s, timed_out) => if stands_for_election(s, timed_out) {
                (
                    ElectionRound::Standing(candidate_state(s)),
                    ElectionAction::Commit(candidate_state(s)),
                )
            } else {
                (ElectionRound::Idle, ElectionAction::Wait)
            },
            _ => (ElectionRound::Idle, ElectionAction::Wait),
        },
        ElectionRound::Standing(c) => match event {
            ElectionEvent::Committed => (ElectionRound::Polling(c), ElectionAction::RequestVotes),
            _ => (ElectionRound::Idle, ElectionAction::Wait),
        },
        ElectionRound::Polling(c) => match event {
            ElectionEvent::Votes(v) => if 1 + granted_count(v@) >= threshold(n) {
                (ElectionRound::Finishing, ElectionAction::Commit(leader_state_after_win(c)))
            } else {
                (ElectionRound::Idle, ElectionAction::Wait)
            },
            _ => (ElectionRound::Idle, ElectionAction::Wait),
        },
        ElectionRound::Finishing => (ElectionRound::Idle, ElectionAction::Wait),
    }
}

/// Whether a step from `round` on `event` in a cluster of `n` servers stays
/// within the machine's integers: the term of a server that stands, the
/// number of replies, and the log index of a winner each have a successor.
pub open spec fn election_step_fits(round: ElectionRound, event: ElectionEvent, n: nat) -> bool {
    match round {
        ElectionRound::Idle => match event {
            ElectionEvent::Tick(s, timed_out) => stands_for_election(s, timed_out)
                ==> s.current_term < u64::MAX,
            _ => true,
        },
        ElectionRound::Polling(c) => match event {
            ElectionEvent::Votes(v) => v@.len() < usize::MAX && (1 + granted_count(v@)
                >= threshold(n) ==> c.last_log_index < u64::MAX),
            _ => true,
        },
        _ => true,
    }
}

/// One step of an election round, in the configured cluster.
pub fn election_step(round: ElectionRound, event: ElectionEvent, config: &Config) -> (res: (
    ElectionRound,
    ElectionAction,
))
    requires
        election_step_fits(round, event, config.servers@.len()),
    ensures
        res == election_step_spec(round, event, config.servers@.len()),
{
    match round {
        ElectionRound::Idle => match event {
            ElectionEvent::Tick(s, timed_out) => match begin_election(s, timed_out) {
                Some(c) => (ElectionRound::Standing(c), ElectionAction::Commit(c)),
                None => (ElectionRound::Idle, ElectionAction::Wait),
            },
            _ => (ElectionRound::Idle, ElectionAction::Wait),
        },
        ElectionRound::Standing(c) => match event {
            ElectionEvent::Committed => (ElectionRound::Polling(c), ElectionAction::RequestVotes),
            _ => (ElectionRound::Idle, ElectionAction::Wait),
        },
        ElectionRound::Polling(c) => match event {
            ElectionEvent::Votes(v) => match conclude_election(c, config, &v) {
                Some(l) => (ElectionRound::Finishing, ElectionAction::Commit(l)),
                None => (ElectionRound::Idle, ElectionAction::Wait),
            },
            _ => (ElectionRound::Idle, ElectionAction::Wait),
        },
        ElectionRound::Finishing => (ElectionRound::Idle, ElectionAction::Wait),
    }
}

/// The leader's state that `action` commits, if it commits one.
pub open spec fn committed_leader(action: ElectionAction) -> Option<ServerState> {
    match action {
        ElectionAction::Commit(x) => if x.role == Role::Leader {
            Some(x)
        } else {
            None
        },
        _ => None,
    }
}

/// An election round commits a leader's state only when it is polling and
/// the votes it has just collected, with the candidate's own, reach the
/// threshold; and the state it commits then is that candidate's as winner.
pub proof fn law_leader_only_after_majority(round: ElectionRound, event: ElectionEvent, n: nat)
    ensures
        ({
            let committed = committed_leader(election_step_spec(round, event, n).1);
            committed is Some ==> (round matches ElectionRound::Polling(c) && (
            event matches ElectionEvent::Votes(v) && 1 + granted_count(v@) >= threshold(n)
                && committed == Some(leader_state_after_win(c))))
        }),
{
}

/// The votes counted among `replies` are exactly the replies that came back
/// and grant the vote, whatever term they carry: a failed request or a
/// refusal adds nothing, so replies that are all refusals or failures count
/// for nothing, and the count never exceeds the number of replies.
pub proof fn law_granted_count_counts_grants(replies: Seq<Result<RequestVoteReply, RpcError>>)
    ensures
        granted_count(replies) == replies.filter(
            |r: Result<RequestVoteReply, RpcError>| r matches Ok(v) && v.vote_granted,
        ).len(),
        (forall|i: int| 0 <= i < replies.len() ==> !(#[trigger] replies[i] matches Ok(v)
            && v.vote_granted)) ==> granted_count(replies) == 0,
        (forall|i: int| 0 <= i < replies.len() ==> (#[trigger] replies[i] matches Ok(v)
            && v.vote_granted)) ==> granted_count(replies) == replies.len(),
        granted_count(replies) <= replies.len(),
    decreases replies.len(),
{
    reveal(Seq::filter);
    if replies.len() > 0 {
        let init = replies.drop_last();
        law_granted_count_counts_grants(init);
        assert forall|i: int| 0 <= i < init.len() implies init[i] == replies[i] by {}
        let last = replies.len() - 1;
        assert(replies.last() == replies[last]);
    }
}

/// The threshold is the smallest majority of the cluster: twice it is more
/// than the number of servers, and one vote fewer is not a majority.
pub proof fn law_threshold_is_smallest_majority(n: nat)
    ensures
        2 * threshold(n) > n,
        threshold(n) >= 1,
        2 * (threshold(n) - 1) <= n,
{
}

/// A wait counts as longer than a period of `period_ms` milliseconds exactly
/// when it passes `period_ms` million nanoseconds: the same period in
/// nanoseconds is not enough, one nanosecond more is, and a longer wait or a
/// shorter period never turns a timeout back.
pub proof fn law_period_is_in_milliseconds(elapsed_nanos: u128, later_nanos: u128, period_ms: u64, shorter_ms: u64)
    ensures
        !exceeds_period((period_ms * 1_000_000) as u128, period_ms),
        exceeds_period((period_ms * 1_000_000 + 1) as u128, period_ms),
        exceeds_period(elapsed_nanos, period_ms) && elapsed_nanos <= later_nanos ==> exceeds_period(
            later_nanos,
            period_ms,
        ),
        exceeds_period(elapsed_nanos, period_ms) && shorter_ms <= period_ms ==> exceeds_period(
            elapsed_nanos,
            shorter_ms,
        ),
{
    assert(period_ms * 1_000_000 + 1 < 0x1_0000_0000_0000_0000_0000_0000_0000_0000) by (nonlinear_arith)
        requires
            period_ms < 0x1_0000_0000_0000_0000,
    ;
    assert(shorter_ms <= period_ms ==> shorter_ms * 1_000_000 <= period_ms * 1_000_000) by (nonlinear_arith);
}

/// Any two sets of servers that each hold enough votes to win share a
/// server: two candidates can win the same election only with the vote of a
/// common server.
pub proof fn law_majorities_overlap(servers: Set<u64>, a: Set<u64>, b: Set<u64>)
    requires
        servers.finite(),
        a.subset_of(servers),
        b.subset_of(servers),
        a.len() >= threshold(servers.len()),
        b.len() >= threshold(servers.len()),
    ensures
        exists|x: u64| a.contains(x) && b.contains(x),
{
    vstd::set_lib::lemma_len_subset(a, servers);
    vstd::set_lib::lemma_len_subset(b, servers);
    vstd::set_lib::lemma_set_intersect_union_lens(a, b);
    assert((a + b).subset_of(servers));
    vstd::set_lib::lemma_len_subset(a + b, servers);
    assert(a.intersect(b).len() > 0);
    if forall|x: u64| !(a.contains(x) && b.contains(x)) {
        assert(a.intersect(b) =~= Set::<u64>::empty());
    }
}

/// No step of the protocol lowers a server's term: a vote request keeps it,
/// a heartbeat keeps or raises it, standing for election raises it by one and
/// winning keeps it.
pub proof fn law_terms_never_decrease(
    s: ServerState,
    candidate_term: u64,
    candidate_id: u64,
    candidate_last_index: u64,
    leader_term: u64,
    now: Instant,
)
    ensures
        vote_decision(s, candidate_term, candidate_id, candidate_last_index).0.current_term
            == s.current_term,
        heard_from_leader(s, leader_term, now).current_term >= s.current_term,
        s.current_term < u64::MAX ==> candidate_state(s).current_term == s.current_term + 1,
        leader_state_after_win(s).current_term == s.current_term,
{
}

/// A leader never stands for election, whatever its clock says.
pub proof fn law_leaders_do_not_stand(s: ServerState, timed_out: bool)
    requires
        s.role == Role::Leader,
    ensures
        !stands_for_election(s, timed_out),
{
}

} // verus!

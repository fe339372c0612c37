use scow::client_tools::{peer_uri, ClientError};
use scow::config::{Config, Peer};
use scow::consensus::{IpAddress, ServerState as TermRole, SocketAddress, TermState};
use scow::db::Db;
use scow::election::{
    begin_election, conclude_election, count_votes, elapsed_exceeds, election_step,
    heartbeat_timed_out, vote_threshold, ElectionAction, ElectionEvent, ElectionRound,
};
use scow::heartbeat::should_send_heartbeat;
use scow::messages::{
    AppendEntriesRequest, GetRequest, RequestVoteReply, RequestVoteRequest, RpcCode, RpcError,
    SetRequest,
};
use scow::scow_impl::{LeaderState, MyScowKeyValue, Role, ServerState};
use scow::state_handler::{StateAction, StateCommand, StateCommandResult, StateHandler};

fn write(key: &str, value: &str) -> SetRequest {
    SetRequest { key: key.to_string(), value: value.to_string() }
}

fn peer(id: u64, uri: &str) -> Peer {
    Peer { id, address: format!("[::1]:{}", 50050 + id), uri: uri.to_string() }
}

fn cluster(n: u64) -> Config {
    Config {
        servers: (1..=n).map(|i| peer(i, &format!("http://[::1]:{}", 50050 + i))).collect(),
        election_timeout_min_ms: 150,
        election_timeout_max_ms: 300,
        heartbeat_interval_ms: 50,
    }
}

fn leader(id: u64) -> ServerState {
    let mut s = ServerState::new(id);
    s.role = Role::Leader;
    s
}

#[test]
fn db_starts_empty() {
    let db = Db::new();
    assert_eq!(db.get("abc"), None);
}

#[test]
fn db_reads_back_a_write() {
    let mut db = Db::new();
    db.set("abc", "abc value");
    assert_eq!(db.get("abc"), Some("abc value".to_string()));
    assert_eq!(db.get("abd"), None);
}

#[test]
fn db_overwrite_keeps_other_keys() {
    let mut db = Db::new();
    db.set("a", "1");
    db.set("b", "2");
    db.set("a", "3");
    assert_eq!(db.get("a"), Some("3".to_string()));
    assert_eq!(db.get("b"), Some("2".to_string()));
}

#[test]
fn db_batch_last_write_wins() {
    let mut db = Db::new();
    db.set("c", "kept");
    db.apply(&vec![write("a", "1"), write("b", "2"), write("a", "3")]);
    assert_eq!(db.get("a"), Some("3".to_string()));
    assert_eq!(db.get("b"), Some("2".to_string()));
    assert_eq!(db.get("c"), Some("kept".to_string()));
}

#[test]
fn status_is_ok() {
    let kv = MyScowKeyValue::new();
    assert_eq!(kv.status().status, "Status: OK");
}

#[test]
fn get_of_missing_key_is_not_found() {
    let kv = MyScowKeyValue::new();
    let r = kv.get(&GetRequest { key: "abc".to_string() });
    assert_eq!(
        r,
        Err(RpcError { code: RpcCode::NotFound, message: "key not found".to_string() })
    );
}

#[test]
fn follower_refuses_writes() {
    let mut kv = MyScowKeyValue::new();
    let s = ServerState::new(1);
    let r = kv.set(&s, write("abc", "abc value"));
    assert_eq!(
        r,
        Err(RpcError {
            code: RpcCode::FailedPrecondition,
            message: "This server is not the leader.".to_string()
        })
    );
    assert!(kv.get(&GetRequest { key: "abc".to_string() }).is_err());
}

#[test]
fn candidate_refuses_writes() {
    let mut kv = MyScowKeyValue::new();
    let mut s = ServerState::new(1);
    s.role = Role::Candidate;
    let r = kv.set(&s, write("abc", "abc value"));
    assert_eq!(r.unwrap_err().code, RpcCode::FailedPrecondition);
}

#[test]
fn leader_stores_and_passes_on_writes() {
    let mut kv = MyScowKeyValue::new();
    let (reply, writes) = kv.set(&leader(1), write("abc", "abc value")).unwrap();
    assert!(reply.success);
    assert_eq!(writes, vec![write("abc", "abc value")]);
    let got = kv.get(&GetRequest { key: "abc".to_string() }).unwrap();
    assert_eq!(got.value, "abc value");
}

#[test]
fn follower_stores_forwarded_writes() {
    let mut leader_kv = MyScowKeyValue::new();
    let (_, writes) = leader_kv.set(&leader(1), write("k", "v")).unwrap();
    let handler = {
        let mut h = StateHandler::new(&[], 1);
        h.set_server_state(leader(1));
        h
    };
    let request = handler.heartbeat_request(writes);
    let mut follower_kv = MyScowKeyValue::new();
    let (state, reply) = follower_kv.append_entries(ServerState::new(2), request);
    assert!(reply.success);
    assert_eq!(state.role, Role::Follower);
    assert_eq!(follower_kv.get(&GetRequest { key: "k".to_string() }).unwrap().value, "v");
}

fn heartbeat_of(term: u64, entries: Vec<SetRequest>) -> AppendEntriesRequest {
    AppendEntriesRequest {
        leader_term: term,
        leader_id: 9,
        prev_log_index: 0,
        prev_log_term: 0,
        leader_commit: 0,
        entries,
    }
}

#[test]
fn heartbeat_from_later_term_is_accepted() {
    let mut kv = MyScowKeyValue::new();
    let mut s = ServerState::new(1);
    s.role = Role::Candidate;
    s.current_term = 3;
    s.voted_for = Some(1);
    let (next, reply) = kv.append_entries(s, heartbeat_of(5, vec![]));
    assert_eq!(next.role, Role::Follower);
    assert_eq!(next.current_term, 5);
    assert_eq!(next.voted_for, Some(1));
    assert_eq!(reply.term, 5);
    assert!(reply.success);
}

#[test]
fn heartbeat_from_same_term_is_accepted() {
    let mut kv = MyScowKeyValue::new();
    let mut s = leader(1);
    s.current_term = 4;
    let (next, reply) = kv.append_entries(s, heartbeat_of(4, vec![]));
    assert_eq!(next.role, Role::Follower);
    assert_eq!(reply.term, 4);
    assert!(reply.success);
}

#[test]
fn heartbeat_from_earlier_term_is_refused_but_entries_are_stored() {
    let mut kv = MyScowKeyValue::new();
    let mut s = leader(1);
    s.current_term = 7;
    let (next, reply) = kv.append_entries(s, heartbeat_of(2, vec![write("x", "y")]));
    assert_eq!(next.role, Role::Leader);
    assert_eq!(next.current_term, 7);
    assert_eq!(reply.term, 7);
    assert!(!reply.success);
    assert_eq!(kv.get(&GetRequest { key: "x".to_string() }).unwrap().value, "y");
}

#[test]
fn heartbeat_refreshes_the_clock() {
    let mut kv = MyScowKeyValue::new();
    let s = ServerState::new(1);
    let before = s.last_heartbeat;
    let (next, _) = kv.append_entries(s, heartbeat_of(0, vec![]));
    assert!(next.last_heartbeat >= before);
}

#[test]
fn vote_for_later_term_is_granted() {
    let kv = MyScowKeyValue::new();
    let (next, term, granted) = kv.server_request_vote(ServerState::new(1), 1, 7, 0);
    assert!(granted);
    assert_eq!(term, 0);
    assert_eq!(next.voted_for, Some(7));
    assert_eq!(next.current_term, 0);
}

#[test]
fn vote_for_same_or_earlier_term_is_refused() {
    let kv = MyScowKeyValue::new();
    let mut s = ServerState::new(1);
    s.current_term = 4;
    s.voted_for = Some(7);
    let (next, term, granted) = kv.server_request_vote(s, 4, 7, 100);
    assert!(!granted);
    assert_eq!(term, 4);
    assert_eq!(next.voted_for, None);
    let (_, _, granted) = kv.server_request_vote(s, 3, 7, 100);
    assert!(!granted);
}

#[test]
fn vote_for_shorter_log_is_refused() {
    let kv = MyScowKeyValue::new();
    let mut s = ServerState::new(1);
    s.last_log_index = 10;
    let (next, _, granted) = kv.server_request_vote(s, 1, 7, 9);
    assert!(!granted);
    assert_eq!(next.voted_for, None);
    let (_, _, granted) = kv.server_request_vote(s, 1, 7, 10);
    assert!(granted);
}

#[test]
fn vote_goes_to_one_candidate_at_a_time() {
    let kv = MyScowKeyValue::new();
    let (s1, _, granted_a) = kv.server_request_vote(ServerState::new(1), 1, 7, 0);
    assert!(granted_a);
    let (s2, _, again_a) = kv.server_request_vote(s1, 1, 7, 0);
    assert!(again_a);
    assert_eq!(s2.voted_for, Some(7));
    let (s3, _, granted_b) = kv.server_request_vote(s2, 1, 8, 0);
    assert!(!granted_b);
    assert_eq!(s3.voted_for, None);
}

#[test]
fn request_vote_reply_carries_own_term() {
    let kv = MyScowKeyValue::new();
    let mut s = ServerState::new(1);
    s.current_term = 2;
    let req = RequestVoteRequest { term: 10, candidate_id: 11, last_log_index: 12, last_log_term: 13 };
    let (next, reply) = kv.request_vote(s, &req);
    assert!(reply.vote_granted);
    assert_eq!(reply.term, 2);
    assert_eq!(next.voted_for, Some(11));
}

#[test]
fn fresh_state_is_a_follower_in_term_zero() {
    let s = ServerState::new(42);
    assert_eq!(s.id, 42);
    assert_eq!(s.role, Role::Follower);
    assert_eq!(s.current_term, 0);
    assert_eq!(s.voted_for, None);
    assert_eq!(s.last_log_index, 0);
    assert!(s.leader_state.is_none());
}

#[test]
fn default_role_is_follower() {
    assert_eq!(Role::default(), Role::Follower);
}

#[test]
fn new_leader_state_starts_at_zero() {
    let ls = LeaderState::new(0);
    assert_eq!(format!("{:?}", ls), "LeaderState { next_index: 1, match_index: 0 }");
    let ls = LeaderState::new(41);
    assert_eq!(format!("{:?}", ls), "LeaderState { next_index: 42, match_index: 0 }");
}

#[test]
fn follower_whose_heartbeat_timed_out_stands() {
    let mut s = ServerState::new(3);
    s.current_term = 4;
    s.voted_for = Some(2);
    let c = begin_election(s, true).unwrap();
    assert_eq!(c.current_term, 5);
    assert_eq!(c.role, Role::Candidate);
    assert_eq!(c.voted_for, None);
    assert_eq!(c.id, 3);
}

#[test]
fn candidate_whose_heartbeat_timed_out_stands_again() {
    let mut s = ServerState::new(3);
    s.role = Role::Candidate;
    s.current_term = 1;
    let c = begin_election(s, true).unwrap();
    assert_eq!(c.current_term, 2);
}

#[test]
fn no_election_without_timeout_or_as_leader() {
    assert!(begin_election(ServerState::new(3), false).is_none());
    assert!(begin_election(leader(3), true).is_none());
}

#[test]
fn threshold_is_a_majority() {
    assert_eq!(vote_threshold(&cluster(1)), 1);
    assert_eq!(vote_threshold(&cluster(3)), 2);
    assert_eq!(vote_threshold(&cluster(4)), 3);
    assert_eq!(vote_threshold(&cluster(5)), 3);
}

fn granted(g: bool) -> Result<RequestVoteReply, RpcError> {
    Ok(RequestVoteReply { term: 0, vote_granted: g })
}

fn unreachable_peer() -> Result<RequestVoteReply, RpcError> {
    Err(RpcError { code: RpcCode::Unavailable, message: "down".to_string() })
}

#[test]
fn votes_count_self_and_grants() {
    assert_eq!(count_votes(&vec![]), 1);
    assert_eq!(count_votes(&vec![granted(true), granted(false), unreachable_peer(), granted(true)]), 3);
}

#[test]
fn majority_makes_a_leader() {
    let mut c = ServerState::new(2);
    c.role = Role::Candidate;
    c.current_term = 6;
    let won = conclude_election(c, &cluster(3), &vec![granted(true), granted(false)]).unwrap();
    assert_eq!(won.role, Role::Leader);
    assert_eq!(won.voted_for, Some(2));
    assert_eq!(won.current_term, 6);
    assert_eq!(format!("{:?}", won.leader_state.unwrap()), "LeaderState { next_index: 1, match_index: 0 }");
}

#[test]
fn minority_does_not_make_a_leader() {
    let mut c = ServerState::new(2);
    c.role = Role::Candidate;
    let lost = conclude_election(c, &cluster(5), &vec![granted(true), granted(false), unreachable_peer(), granted(false)]);
    assert!(lost.is_none());
}

#[test]
fn heartbeat_not_timed_out_within_a_long_period() {
    let s = ServerState::new(1);
    let (timed_out, elapsed) = heartbeat_timed_out(&s, 3_600_000);
    assert!(!timed_out);
    assert_eq!(timed_out, elapsed_exceeds(elapsed, 3_600_000));
    let (timed_out, elapsed) = heartbeat_timed_out(&s, 0);
    assert_eq!(timed_out, elapsed > 0);
}

#[test]
fn only_leaders_send_heartbeats() {
    assert!(should_send_heartbeat(&leader(1)));
    assert!(!should_send_heartbeat(&ServerState::new(1)));
    let mut c = ServerState::new(1);
    c.role = Role::Candidate;
    assert!(!should_send_heartbeat(&c));
}

#[test]
fn election_timeout_within_range() {
    let config = cluster(3);
    let mut seen = std::collections::BTreeSet::new();
    for _ in 0..200 {
        let ms = config.election_timeout_ms();
        assert!((150..300).contains(&ms));
        seen.insert(ms);
    }
    assert!(seen.len() > 1);
    let narrow = Config { election_timeout_min_ms: 7, election_timeout_max_ms: 8, ..cluster(1) };
    assert_eq!(narrow.election_timeout_ms(), 7);
}

#[test]
fn find_server_by_id() {
    let config = cluster(3);
    assert_eq!(config.find_server(2).unwrap().uri, "http://[::1]:50052");
    assert!(config.find_server(4).is_none());
    let mut dup = cluster(2);
    dup.servers.push(peer(2, "http://other:1"));
    assert_eq!(dup.find_server(2).unwrap().uri, "http://[::1]:50052");
}

#[test]
fn peer_uri_parses_valid_uris_only() {
    let ok = peer_uri(&peer(1, "http://[::1]:50051")).unwrap();
    assert_eq!(ok.to_string(), "http://[::1]:50051/");
    assert_eq!(peer_uri(&peer(1, "")).unwrap_err(), ClientError::InvalidUri);
    assert_eq!(peer_uri(&peer(1, "http://exa mple")).unwrap_err(), ClientError::InvalidUri);
}

#[test]
fn state_handler_talks_to_other_valid_peers() {
    let peers = vec![
        peer(1, "http://[::1]:50051"),
        peer(2, "http://[::1]:50052"),
        peer(3, "not a uri"),
        peer(4, "http://[::1]:50054"),
    ];
    let h = StateHandler::new(&peers, 2);
    let ids: Vec<u64> = h.peers().iter().map(|t| t.id).collect();
    assert_eq!(ids, vec![1, 4]);
    assert_eq!(h.peers()[1].uri.to_string(), "http://[::1]:50054/");
    let s = h.server_state();
    assert_eq!(s.id, 2);
    assert_eq!(s.role, Role::Follower);
}

#[test]
fn state_reads_back_after_write() {
    let mut h = StateHandler::new(&[], 5);
    let mut s = ServerState::new(5);
    s.current_term = 9;
    s.role = Role::Candidate;
    match h.handle_command(StateCommand::SetServerState(s)) {
        StateAction::Reply(StateCommandResult::StateSuccess) => {}
        other => panic!("unexpected {:?}", other),
    }
    match h.handle_command(StateCommand::GetServerState) {
        StateAction::Reply(StateCommandResult::StateResponse(got)) => {
            assert_eq!(got.current_term, 9);
            assert_eq!(got.role, Role::Candidate);
        }
        other => panic!("unexpected {:?}", other),
    }
}

#[test]
fn heartbeat_command_becomes_empty_append_entries() {
    let mut h = StateHandler::new(&[], 5);
    let mut s = leader(5);
    s.current_term = 3;
    h.set_server_state(s);
    match h.handle_command(StateCommand::Heartbeat) {
        StateAction::BroadcastAppendEntries(r) => {
            assert_eq!(r.leader_term, 3);
            assert_eq!(r.leader_id, 5);
            assert_eq!(r.prev_log_index, 33333);
            assert_eq!(r.prev_log_term, 44444);
            assert_eq!(r.leader_commit, 55555);
            assert!(r.entries.is_empty());
        }
        other => panic!("unexpected {:?}", other),
    }
}

#[test]
fn distribute_writes_command_carries_writes() {
    let mut h = StateHandler::new(&[], 5);
    match h.handle_command(StateCommand::DistributeWrites(vec![write("a", "b")])) {
        StateAction::BroadcastAppendEntries(r) => {
            assert_eq!(r.entries, vec![write("a", "b")]);
            assert_eq!(r.leader_term, 0);
        }
        other => panic!("unexpected {:?}", other),
    }
}

#[test]
fn request_vote_command_becomes_vote_request() {
    let mut h = StateHandler::new(&[], 5);
    let mut s = ServerState::new(5);
    s.current_term = 8;
    h.set_server_state(s);
    match h.handle_command(StateCommand::RequestVote) {
        StateAction::BroadcastRequestVote(r) => {
            assert_eq!(
                r,
                RequestVoteRequest { term: 8, candidate_id: 5, last_log_index: 9999, last_log_term: 8888 }
            );
        }
        other => panic!("unexpected {:?}", other),
    }
}

#[test]
fn term_state_starts_as_follower_on_localhost() {
    let t = TermState::new();
    assert_eq!(t.current_term, 0);
    assert_eq!(t.server_id.id, 0);
    assert_eq!(t.server_id.address, SocketAddress { ip: IpAddress::V6(1), port: 50051 });
    assert_eq!(t.server_state, TermRole::Follower);
    assert!(t.leader.is_none());
    assert_eq!(TermRole::default(), TermRole::Follower);
}

#[test]
fn elapsed_exceeds_compares_nanoseconds_with_milliseconds() {
    assert!(!elapsed_exceeds(0, 0));
    assert!(elapsed_exceeds(1, 0));
    assert!(!elapsed_exceeds(150_000_000, 150));
    assert!(elapsed_exceeds(150_000_001, 150));
    assert!(!elapsed_exceeds(149_999_999, 150));
}

#[test]
fn new_at_records_the_given_time() {
    let t = tokio::time::Instant::now();
    let s = ServerState::new_at(4, t);
    assert_eq!(s.last_heartbeat, t);
    assert_eq!(s.id, 4);
    assert_eq!(s.role, Role::Follower);
    assert_eq!(s.current_term, 0);
}

#[test]
fn append_entries_at_records_the_time_heard() {
    let mut kv = MyScowKeyValue::new();
    let t = tokio::time::Instant::now() + std::time::Duration::from_secs(5);
    let mut s = ServerState::new(1);
    s.current_term = 7;
    let (next, reply) = kv.append_entries_at(s, heartbeat_of(2, vec![]), t);
    assert_eq!(next.last_heartbeat, t);
    assert!(!reply.success);
    let (next, reply) = kv.append_entries_at(s, heartbeat_of(8, vec![]), t);
    assert_eq!(next.last_heartbeat, t);
    assert_eq!(next.current_term, 8);
    assert!(reply.success);
}

#[test]
fn election_round_commits_candidate_then_polls_then_commits_winner() {
    let config = cluster(3);
    let mut s = ServerState::new(2);
    s.current_term = 4;
    s.last_log_index = 6;
    let (round, action) = election_step(ElectionRound::Idle, ElectionEvent::Tick(s, true), &config);
    let candidate = match action {
        ElectionAction::Commit(c) => c,
        other => panic!("unexpected {:?}", other),
    };
    assert_eq!(candidate.current_term, 5);
    assert_eq!(candidate.role, Role::Candidate);
    let (round, action) = election_step(round, ElectionEvent::Committed, &config);
    assert!(matches!(action, ElectionAction::RequestVotes));
    let (round, action) = election_step(round, ElectionEvent::Votes(vec![granted(true), granted(false)]), &config);
    match action {
        ElectionAction::Commit(l) => {
            assert_eq!(l.role, Role::Leader);
            assert_eq!(l.current_term, 5);
            assert_eq!(l.voted_for, Some(2));
            assert_eq!(format!("{:?}", l.leader_state.unwrap()), "LeaderState { next_index: 7, match_index: 0 }");
        }
        other => panic!("unexpected {:?}", other),
    }
    assert!(matches!(round, ElectionRound::Finishing));
    let (round, action) = election_step(round, ElectionEvent::Committed, &config);
    assert!(matches!(round, ElectionRound::Idle));
    assert!(matches!(action, ElectionAction::Wait));
}

#[test]
fn election_round_lost_or_not_started() {
    let config = cluster(5);
    let (round, action) = election_step(ElectionRound::Idle, ElectionEvent::Tick(ServerState::new(1), false), &config);
    assert!(matches!(round, ElectionRound::Idle) && matches!(action, ElectionAction::Wait));
    let (round, action) = election_step(ElectionRound::Idle, ElectionEvent::Tick(leader(1), true), &config);
    assert!(matches!(round, ElectionRound::Idle) && matches!(action, ElectionAction::Wait));
    let (round, _) = election_step(ElectionRound::Idle, ElectionEvent::Tick(ServerState::new(1), true), &config);
    let (round, _) = election_step(round, ElectionEvent::Committed, &config);
    let (round, action) = election_step(round, ElectionEvent::Votes(vec![granted(true), granted(false), unreachable_peer(), granted(false)]), &config);
    assert!(matches!(round, ElectionRound::Idle) && matches!(action, ElectionAction::Wait));
    let (round, action) = election_step(ElectionRound::Polling(ServerState::new(1)), ElectionEvent::Committed, &config);
    assert!(matches!(round, ElectionRound::Idle) && matches!(action, ElectionAction::Wait));
}

#[test]
fn state_handler_aims_each_target_at_its_own_uri() {
    let peers = vec![
        peer(1, "http://[::1]:50051"),
        peer(2, "http://[::1]:50052"),
        peer(3, "http://[::1]:50053"),
    ];
    let h = StateHandler::new(&peers, 9);
    let uris: Vec<String> = h.peers().iter().map(|t| t.uri.to_string()).collect();
    assert_eq!(uris, vec!["http://[::1]:50051/", "http://[::1]:50052/", "http://[::1]:50053/"]);
}

//! The messages that the servers and clients exchange.
use vstd::prelude::*;

verus! {

/// Asks a server whether it is up.
#[derive(Clone, Debug, PartialEq, Eq, Default)]
pub struct StatusRequest {}

/// A server's answer to a status request.
#[derive(Clone, Debug, PartialEq, Eq, Default)]
pub struct StatusReply {
    pub status: String,
}

/// Asks for the value stored under a key.
#[derive(Clone, Debug, PartialEq, Eq, Default)]
pub struct GetRequest {
    pub key: String,
}

/// The value stored under the key that was asked for.
#[derive(Clone, Debug, PartialEq, Eq, Default)]
pub struct GetReply {
    pub value: String,
}

/// Stores a value under a key; also the unit of replication between servers.
#[derive(Clone, Debug, PartialEq, Eq, Default)]
pub struct SetRequest {
    pub key: String,
    pub value: String,
}

/// A server's answer to a write.
#[derive(Clone, Debug, PartialEq, Eq, Default)]
pub struct SetReply {
    pub success: bool,
}

/// A leader's heartbeat, which may carry writes for the follower to apply.
#[derive(Clone, Debug, PartialEq, Eq, Default)]
pub struct AppendEntriesRequest {
    pub leader_term: u64,
    pub leader_id: u64,
    pub prev_log_index: u64,
    pub prev_log_term: u64,
    pub leader_commit: u64,
    pub entries: Vec<SetRequest>,
}

/// A follower's answer to a heartbeat.
#[derive(Clone, Debug, PartialEq, Eq, Default)]
pub struct AppendEntriesReply {
    pub term: u64,
    pub success: bool,
}

/// A candidate's request for a vote.
#[derive(Clone, Debug, PartialEq, Eq, Default)]
pub struct RequestVoteRequest {
    pub term: u64,
    pub candidate_id: u64,
    pub last_log_index: u64,
    pub last_log_term: u64,
}

/// A server's answer to a vote request.
#[derive(Clone, Debug, PartialEq, Eq, Default)]
pub struct RequestVoteReply {
    pub term: u64,
    pub vote_granted: bool,
}

/// The status codes that a remote call can fail with.
#[derive(Clone, Copy, Debug, PartialEq, Eq)]
pub enum RpcCode {
    Success,
    Cancelled,
    Unknown,
    InvalidArgument,
    DeadlineExceeded,
    NotFound,
    AlreadyExists,
    PermissionDenied,
    ResourceExhausted,
    FailedPrecondition,
    Aborted,
    OutOfRange,
    Unimplemented,
    Internal,
    Unavailable,
    DataLoss,
    Unauthenticated,
}

/// Why a remote call failed: a status code and a message.
#[derive(Clone, Debug, PartialEq, Eq)]
pub struct RpcError {
    pub code: RpcCode,
    pub message: String,
}

} // verus!

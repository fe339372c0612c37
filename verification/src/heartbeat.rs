//! The decision of a heartbeat round.
use vstd::prelude::*;

use crate::scow_impl::{Role, ServerState};

verus! {

/// Whether a server in state `state` sends heartbeats: only a leader does.
pub fn should_send_heartbeat(state: &ServerState) -> (send: bool)
    ensures
        send == (state.role == Role::Leader),
{
    state.role == Role::Leader
}

} // verus!

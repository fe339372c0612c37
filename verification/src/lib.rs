//! A small replicated key-value server in the style of Raft: the decisions a
//! node takes on each request, vote and election round, and its local store.

pub mod db;
pub mod messages;
pub mod clock;
pub mod scow_impl;
pub mod client_tools;
pub mod config;
pub mod election;
pub mod heartbeat;
pub mod state_handler;
pub mod consensus;

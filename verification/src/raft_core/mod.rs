//! The core of a Raft node: its queues, its handlers and the actions that they ask for.

pub mod action;
pub mod calls;
pub mod command_laws;
pub mod commands;
pub mod dispatch;
pub mod election_laws;
pub mod establish;
pub mod handlers;
pub mod heartbeat;
pub mod laws;
pub mod membership_handlers;
pub mod notification;
pub mod pending_reads;
pub mod raft_msg;
pub mod read_laws;
pub mod reads;
pub mod replication;
pub mod responders;
pub mod runtime;
pub mod state;
pub mod targets;
pub mod write_laws;

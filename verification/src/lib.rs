//! Verified decision logic of a Raft node whose peers talk over Zenoh.
//!
//! The library holds the rules of the node as functions on plain values: votes and log ids,
//! membership changes, the handlers of the Raft core, the watch channel, the in-memory store,
//! metrics, message texts, endpoint strings and RPC routes.  What needs a clock, a socket or a
//! task is done by the caller, who hands the outcome back as a value.

pub mod async_runtime;
pub mod base;
pub mod batch;
pub mod display;
pub mod entry;
pub mod errors;
pub mod log_id;
pub mod membership;
pub mod message;
pub mod metrics;
pub mod network;
pub mod node;
pub mod raft_core;
pub mod send_bounds;
pub mod seqs;
pub mod sets;
pub mod storage;
pub mod strs;
pub mod summary;
pub mod templates;
pub mod testing;
pub mod text;
pub mod time;
pub mod type_config;
pub mod variant_names;
pub mod vote;

use std::fmt::{Debug, Display};
use vstd::prelude::*;
use crate::base::{OptionalSend, OptionalSync};

verus! {

/// The data of an application request.
pub trait AppData: OptionalSend + OptionalSync + Debug + Display + 'static {

}

impl<T> AppData for T where T: OptionalSend + OptionalSync + Debug + Display + 'static {

}

/// The data of an application response.
pub trait AppDataResponse: OptionalSend + OptionalSync + 'static {

}

impl<T> AppDataResponse for T where T: OptionalSend + OptionalSync + 'static {

}

} // verus!

//! The types that an application chooses.

use std::marker::PhantomData;
use vstd::prelude::*;
use crate::base::{OptionalSend, OptionalSync};
use crate::entry::{EntryPayload, RaftPayload};
use crate::errors::{ErrorSource, MessageError};
use crate::log_id::{LeaderId, LogId};
use crate::metrics::SerdeInstant;
use crate::node::Node;
use crate::time::Instant;
use crate::{AppData, AppDataResponse};

verus! {

/// The types that an application chooses.
///
/// Node ids and terms are `u64`; a leader is known by its term and its node.
pub trait RaftTypeConfig: OptionalSend + OptionalSync + Sized + 'static {
    /// Request data passed to the state machine.
    type D: AppData;

    /// Response data returned by the state machine.
    type R: AppDataResponse;

    /// What a membership tells of a node.
    type Node: Node + OptionalSend + OptionalSync + 'static;

    /// The payload of a log entry.
    type Payload: RaftPayload<D = Self::D, Node = Self::Node>;

    /// The error that a storage error wraps.
    type ErrorSource: ErrorSource;
}

/// The readings of the clock that a node works with.
pub trait InstantConfig {
    /// A reading of the monotonic clock.
    type Instant;

    /// A reading that metrics carry.
    type SerdeInstant;
}

impl<C: ?Sized> InstantConfig for C {
    type Instant = Instant;

    type SerdeInstant = SerdeInstant<Instant>;
}

/// The types of a node that stores numbers, with a free choice of what is known of a node.
#[derive(Debug)]
pub struct UTConfig<N = ()> {
    _p: PhantomData<N>,
}

impl<N> Default for UTConfig<N> {
    fn default() -> (r: Self) {
        UTConfig { _p: PhantomData }
    }
}

impl<N> Clone for UTConfig<N> {
    fn clone(&self) -> (r: Self)
        ensures
            r == *self,
    {
        *self
    }
}

impl<N> Copy for UTConfig<N> {

}

impl<N: Node + OptionalSend + OptionalSync + 'static> RaftTypeConfig for UTConfig<N> {
    type D = u64;

    type R = ();

    type Node = N;

    type Payload = EntryPayload<u64, N>;

    type ErrorSource = MessageError;
}

/// A log id of its numbers.
pub fn log_id(term: u64, node_id: u64, index: u64) -> (r: LogId)
    ensures
        r == (LogId { leader_id: LeaderId { term, node_id }, index }),
{
    LogId { leader_id: LeaderId { term, node_id }, index }
}

} // verus!

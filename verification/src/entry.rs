//! Log entries and their payloads.

use vstd::prelude::*;
use crate::AppData;
use crate::base::{OptionalSend, OptionalSync};
use crate::log_id::{LeaderId, LogId};
use crate::membership::{Membership, MembershipView};
use crate::node::Node;

verus! {

/// How the payload of a log entry is made and read.
pub trait RaftPayload: OptionalSend + OptionalSync + Sized + 'static {
    /// Application data stored in the payload.
    type D: AppData;

    /// What a membership tells of a node.
    type Node: Node;

    /// The blank payload.
    spec fn blank_spec() -> Self;

    /// The payload with its application data replaced.
    spec fn with_normal_spec(self, data: Self::D) -> Self;

    /// The payload with its membership replaced.
    spec fn with_membership_spec(self, membership: Membership<Self::Node>) -> Self;

    /// The membership that the payload holds.
    spec fn membership_spec(&self) -> Option<MembershipView<Self::Node>>;

    /// A membership that was put into a payload is read back.
    proof fn membership_is_read_back(payload: Self, membership: Membership<Self::Node>)
        ensures
            payload.with_membership_spec(membership).membership_spec() == Some(membership@),
    ;

    /// Create a blank payload.
    fn blank() -> (r: Self)
        ensures
            r == Self::blank_spec(),
    ;

    /// Replace the application data in this payload.
    fn with_normal(self, data: Self::D) -> (r: Self)
        ensures
            r == self.with_normal_spec(data),
    ;

    /// Replace the membership in this payload.  Other fields may be kept.
    fn with_membership(self, membership: Membership<Self::Node>) -> (r: Self)
        ensures
            r == self.with_membership_spec(membership),
    ;

    /// The membership that this payload holds.
    fn get_membership(&self) -> (r: Option<Membership<Self::Node>>)
        ensures
            match r {
                Some(m) => self.membership_spec() == Some(m@),
                None => self.membership_spec() is None,
            },
    ;

    /// Create a payload of application data.
    fn normal(data: Self::D) -> (r: Self)
        ensures
            r == Self::blank_spec().with_normal_spec(data),
    {
        let payload = Self::blank();
        payload.with_normal(data)
    }

    /// Create a payload of a membership.
    fn membership(membership: Membership<Self::Node>) -> (r: Self)
        ensures
            r == Self::blank_spec().with_membership_spec(membership),
    {
        let payload = Self::blank();
        payload.with_membership(membership)
    }
}

/// The payload that an entry holds unless the application has its own.
#[derive(Debug)]
pub enum EntryPayload<D, N> {
    /// An entry that holds nothing.
    Blank,
    /// Application data.
    Normal(D),
    /// A change of the members of the cluster.
    Membership(Membership<N>),
}

impl<D: AppData, N: Node + OptionalSend + OptionalSync + 'static> RaftPayload for EntryPayload<D, N> {
    type D = D;

    type Node = N;

    open spec fn blank_spec() -> Self {
        EntryPayload::Blank
    }

    open spec fn with_normal_spec(self, data: D) -> Self {
        EntryPayload::Normal(data)
    }

    open spec fn with_membership_spec(self, membership: Membership<N>) -> Self {
        EntryPayload::Membership(membership)
    }

    open spec fn membership_spec(&self) -> Option<MembershipView<N>> {
        match self {
            EntryPayload::Membership(m) => Some(m@),
            _ => None,
        }
    }

    proof fn membership_is_read_back(payload: Self, membership: Membership<N>) {
    }

    fn blank() -> (r: Self) {
        EntryPayload::Blank
    }

    fn with_normal(self, data: D) -> (r: Self) {
        EntryPayload::Normal(data)
    }

    fn with_membership(self, membership: Membership<N>) -> (r: Self) {
        EntryPayload::Membership(membership)
    }

    fn get_membership(&self) -> (r: Option<Membership<N>>) {
        match self {
            EntryPayload::Membership(m) => Some(m.duplicate()),
            _ => None,
        }
    }
}

/// How a log entry is made and read.
pub trait RaftEntry: Sized {
    /// The payload stored in log entries.
    type Payload: RaftPayload;

    /// The log id of the entry.
    spec fn log_id_spec(&self) -> LogId;

    /// The payload of the entry.
    spec fn payload_spec(&self) -> Self::Payload;

    /// Create a new log entry of a log id and a payload.
    fn new(log_id: LogId, payload: Self::Payload) -> (r: Self)
        ensures
            r.log_id_spec() == log_id,
            r.payload_spec() == payload,
    ;

    /// The leader that proposed the entry, and the index of the entry.
    fn log_id_parts(&self) -> (r: (LeaderId, u64))
        ensures
            r == (self.log_id_spec().leader_id, self.log_id_spec().index),
    ;

    /// Set the log id of this entry.
    fn set_log_id(&mut self, new: LogId)
        ensures
            final(self).log_id_spec() == new,
            final(self).payload_spec() == old(self).payload_spec(),
    ;

    /// The membership that this entry holds.
    fn get_membership(&self) -> (r: Option<Membership<<Self::Payload as RaftPayload>::Node>>)
        ensures
            match r {
                Some(m) => self.payload_spec().membership_spec() == Some(m@),
                None => self.payload_spec().membership_spec() is None,
            },
    ;

    /// Create a new blank log entry.
    fn new_blank(log_id: LogId) -> (r: Self)
        ensures
            r.log_id_spec() == log_id,
            r.payload_spec() == Self::Payload::blank_spec(),
    {
        Self::new(log_id, Self::Payload::blank())
    }

    /// Create a new log entry of application data.
    fn new_normal(log_id: LogId, data: <Self::Payload as RaftPayload>::D) -> (r: Self)
        ensures
            r.log_id_spec() == log_id,
            r.payload_spec() == Self::Payload::blank_spec().with_normal_spec(data),
    {
        Self::new(log_id, Self::Payload::normal(data))
    }

    /// Create a new membership log entry, whose membership is read back.
    fn new_membership(
        log_id: LogId,
        m: Membership<<Self::Payload as RaftPayload>::Node>,
    ) -> (r: Self)
        ensures
            r.log_id_spec() == log_id,
            r.payload_spec() == Self::Payload::blank_spec().with_membership_spec(m),
            r.payload_spec().membership_spec() == Some(m@),
    {
        proof {
            Self::Payload::membership_is_read_back(Self::Payload::blank_spec(), m);
        }
        Self::new(log_id, Self::Payload::membership(m))
    }

    /// The log id of this entry.
    fn log_id(&self) -> (r: LogId)
        ensures
            r == self.log_id_spec(),
    {
        let (leader_id, index) = self.log_id_parts();
        LogId::new(leader_id, index)
    }

    /// The index of this entry.
    fn index(&self) -> (r: u64)
        ensures
            r == self.log_id_spec().index,
    {
        self.log_id_parts().1
    }
}

/// A log entry.
#[derive(Debug)]
pub struct Entry<P> {
    pub log_id: LogId,
    pub payload: P,
}

impl<P: RaftPayload> RaftEntry for Entry<P> {
    type Payload = P;

    open spec fn log_id_spec(&self) -> LogId {
        self.log_id
    }

    open spec fn payload_spec(&self) -> P {
        self.payload
    }

    fn new(log_id: LogId, payload: P) -> (r: Self) {
        Entry { log_id, payload }
    }

    fn log_id_parts(&self) -> (r: (LeaderId, u64)) {
        (self.log_id.leader_id, self.log_id.index)
    }

    fn set_log_id(&mut self, new: LogId) {
        self.log_id = new;
    }

    fn get_membership(&self) -> (r: Option<Membership<P::Node>>) {
        self.payload.get_membership()
    }
}

/// A payload holds what was put into it last: application data, or a membership, which is read back
/// as it was; data is no membership.
pub proof fn payloads_hold_what_was_put_in<D: AppData, N: Node + OptionalSend + OptionalSync + 'static>(
    p: EntryPayload<D, N>,
    data: D,
    membership: Membership<N>,
)
    ensures
        p.with_normal_spec(data) == EntryPayload::<D, N>::Normal(data),
        p.with_normal_spec(data).membership_spec() is None,
        p.with_membership_spec(membership).membership_spec() == Some(membership@),
        <EntryPayload<D, N> as RaftPayload>::blank_spec() is Blank,
        <EntryPayload<D, N> as RaftPayload>::blank_spec().membership_spec() is None,
{
}

} // verus!

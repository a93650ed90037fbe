//! Snapshots and what identifies them.

use vstd::prelude::*;
use vstd::string::*;
use crate::log_id::LogId;
use crate::log_id;
use crate::membership::{Membership, MembershipView};
use crate::node::Node;

verus! {

/// A membership and the log id of the entry that holds it.
#[derive(Debug)]
pub struct StoredMembership<N> {
    pub log_id: Option<LogId>,
    pub membership: Membership<N>,
}

/// A stored membership as mathematics.
#[verifier::ext_equal]
pub struct StoredMembershipView<N> {
    pub log_id: Option<LogId>,
    pub membership: MembershipView<N>,
}

impl<N> View for StoredMembership<N> {
    type V = StoredMembershipView<N>;

    open spec fn view(&self) -> StoredMembershipView<N> {
        StoredMembershipView { log_id: self.log_id, membership: self.membership@ }
    }
}

impl<N: Node> StoredMembership<N> {
    /// A stored membership of its parts.
    pub fn new(log_id: Option<LogId>, membership: Membership<N>) -> (r: StoredMembership<N>)
        ensures
            r == (StoredMembership { log_id, membership }),
    {
        StoredMembership { log_id, membership }
    }

    /// The membership before any entry holds one.
    pub open spec fn empty_view() -> StoredMembershipView<N> {
        StoredMembershipView { log_id: None, membership: Membership::<N>::empty_view() }
    }

    /// The membership before any entry holds one.
    pub fn empty() -> (r: StoredMembership<N>)
        ensures
            r@ == Self::empty_view(),
    {
        StoredMembership { log_id: None, membership: Membership::empty() }
    }

    /// Whether two stored memberships are the same.
    pub fn same(&self, other: &StoredMembership<N>) -> (r: bool)
        ensures
            r == (self@ == other@),
    {
        self.log_id == other.log_id && self.membership.same(&other.membership)
    }

    /// A copy.
    pub fn duplicate(&self) -> (r: StoredMembership<N>)
        ensures
            r@ == self@,
    {
        StoredMembership { log_id: self.log_id, membership: self.membership.duplicate() }
    }
}

/// What identifies a snapshot: the position that it covers.
#[derive(Clone, Debug, PartialEq, Eq)]
pub struct SnapshotSignature {
    /// The last log entry that the snapshot covers.
    pub last_log_id: Option<LogId>,
    /// The log id of the last membership that was applied.
    pub last_membership_log_id: Option<Box<LogId>>,
}

impl SnapshotSignature {
    /// The signature with its fields, as a programmer would write it.
    pub open spec fn text(self) -> Seq<char> {
        "SnapshotSignature { last_log_id: "@ + log_id::opt_debug_spec(self.last_log_id)
            + ", last_membership_log_id: "@ + (match self.last_membership_log_id {
            Some(b) => log_id::opt_debug_spec(Some(*b)),
            None => log_id::opt_debug_spec(None),
        }) + " }"@
    }

    /// The signature with its fields, as a programmer would write it.
    pub fn to_string(&self) -> (r: String)
        ensures
            r@ == self.text(),
    {
        let a = log_id::opt_debug_text(&self.last_log_id);
        let b = match &self.last_membership_log_id {
            Some(b) => log_id::opt_debug_text(&Some(**b)),
            None => log_id::opt_debug_text(&None),
        };
        "SnapshotSignature { last_log_id: ".to_owned().concat(a.as_str()).concat(
            ", last_membership_log_id: ",
        ).concat(b.as_str()).concat(" }")
    }
}

/// What is known of a snapshot without its data.
#[derive(Debug)]
pub struct SnapshotMeta<N> {
    /// The last log entry that the snapshot covers.
    pub last_log_id: Option<LogId>,
    /// The last membership that was applied.
    pub last_membership: StoredMembership<N>,
}

/// What is known of a snapshot, as mathematics.
#[verifier::ext_equal]
pub struct SnapshotMetaView<N> {
    pub last_log_id: Option<LogId>,
    pub last_membership: StoredMembershipView<N>,
}

impl<N> View for SnapshotMeta<N> {
    type V = SnapshotMetaView<N>;

    open spec fn view(&self) -> SnapshotMetaView<N> {
        SnapshotMetaView {
            last_log_id: self.last_log_id,
            last_membership: self.last_membership@,
        }
    }
}

impl<N: Node> Default for SnapshotMeta<N> {
    /// The metadata of a snapshot that covers nothing.
    fn default() -> (r: SnapshotMeta<N>)
        ensures
            r.last_log_id is None,
            r.last_membership@ == StoredMembership::<N>::empty_view(),
    {
        SnapshotMeta { last_log_id: None, last_membership: StoredMembership::empty() }
    }
}

impl<N: Node> SnapshotMeta<N> {
    /// What identifies the snapshot.
    pub fn signature(&self) -> (r: SnapshotSignature)
        ensures
            r.last_log_id == self.last_log_id,
            match r.last_membership_log_id {
                Some(b) => self.last_membership.log_id == Some(*b),
                None => self.last_membership.log_id is None,
            },
    {
        SnapshotSignature {
            last_log_id: self.last_log_id,
            last_membership_log_id: match self.last_membership.log_id {
                Some(x) => Some(Box::new(x)),
                None => None,
            },
        }
    }

    /// The last log entry that the snapshot covers.
    pub fn last_log_id(&self) -> (r: Option<&LogId>)
        ensures
            match r {
                Some(x) => self.last_log_id == Some(*x),
                None => self.last_log_id is None,
            },
    {
        match &self.last_log_id {
            Some(x) => Some(x),
            None => None,
        }
    }

    /// A copy.
    pub fn duplicate(&self) -> (r: SnapshotMeta<N>)
        ensures
            r@ == self@,
    {
        SnapshotMeta {
            last_log_id: self.last_log_id,
            last_membership: self.last_membership.duplicate(),
        }
    }

    /// `{last_log:<log id>, last_membership: <membership>}`, where `membership_text` is the text
    /// of the last membership.
    pub open spec fn text(self, membership_text: Seq<char>) -> Seq<char> {
        "{last_log:"@ + log_id::opt_log_id_spec(self.last_log_id) + ", last_membership: "@
            + membership_text + "}"@
    }

    /// `{last_log:<log id>, last_membership: <membership>}`, where `membership_text` is the text
    /// of the last membership.
    pub fn to_string_with(&self, membership_text: &str) -> (r: String)
        ensures
            r@ == self.text(membership_text@),
    {
        let l = log_id::opt_log_id_text(&self.last_log_id);
        "{last_log:".to_owned().concat(l.as_str()).concat(", last_membership: ").concat(
            membership_text,
        ).concat("}")
    }
}

/// A snapshot: its metadata and its data.
#[derive(Debug)]
pub struct Snapshot<N, SD> {
    /// What is known of the snapshot.
    pub meta: SnapshotMeta<N>,
    /// The data, or a handle to it.
    pub snapshot: SD,
}

impl<N: Node, SD> Snapshot<N, SD> {
    /// `Snapshot{meta: <metadata>}`, where `membership_text` is the text of the last membership.
    pub open spec fn text(self, membership_text: Seq<char>) -> Seq<char> {
        "Snapshot{meta: "@ + self.meta.text(membership_text) + "}"@
    }

    /// `Snapshot{meta: <metadata>}`, where `membership_text` is the text of the last membership.
    pub fn to_string_with(&self, membership_text: &str) -> (r: String)
        ensures
            r@ == self.text(membership_text@),
    {
        let m = self.meta.to_string_with(membership_text);
        "Snapshot{meta: ".to_owned().concat(m.as_str()).concat("}")
    }
}

/// The metadata of a snapshot as it is stored and sent.
///
/// The last slot is reserved: it is written empty, and what it holds is ignored when the record is
/// read.  So a record has the same number of fields whoever wrote it, and notations that tell fields
/// by their position only can be read in both directions.
#[derive(Debug)]
pub struct SnapshotMetaRecord<N> {
    pub last_log_id: Option<LogId>,
    pub last_membership: StoredMembership<N>,
    pub snapshot_id: String,
}

impl<N: Node> SnapshotMeta<N> {
    /// Whether a record is what is written for the metadata.
    pub open spec fn is_written(self, record: SnapshotMetaRecord<N>) -> bool {
        &&& record.last_log_id == self.last_log_id
        &&& record.last_membership == self.last_membership
        &&& record.snapshot_id@ == Seq::<char>::empty()
    }

    /// The metadata that a record is read as.
    pub open spec fn read_spec(record: SnapshotMetaRecord<N>) -> SnapshotMeta<N> {
        SnapshotMeta {
            last_log_id: record.last_log_id,
            last_membership: record.last_membership,
        }
    }

    /// The record of the metadata.
    pub fn into_record(self) -> (r: SnapshotMetaRecord<N>)
        ensures
            self.is_written(r),
    {
        SnapshotMetaRecord {
            last_log_id: self.last_log_id,
            last_membership: self.last_membership,
            snapshot_id: String::new(),
        }
    }

    /// The metadata of a record.
    pub fn from_record(record: SnapshotMetaRecord<N>) -> (r: SnapshotMeta<N>)
        ensures
            r == Self::read_spec(record),
    {
        SnapshotMeta {
            last_log_id: record.last_log_id,
            last_membership: record.last_membership,
        }
    }
}

/// What is written is read back, and a record is read the same whatever its reserved slot holds.
pub proof fn meta_records_are_interchangeable<N: Node>(
    meta: SnapshotMeta<N>,
    written: SnapshotMetaRecord<N>,
    other: SnapshotMetaRecord<N>,
)
    requires
        meta.is_written(written),
        other == (SnapshotMetaRecord { snapshot_id: other.snapshot_id, ..written }),
    ensures
        SnapshotMeta::read_spec(written) == meta,
        SnapshotMeta::read_spec(other) == meta,
{
}

/// What identifies a snapshot as it is sent; the last slot is reserved as that of a
/// [`SnapshotMetaRecord`] is.
#[derive(Clone, Debug, PartialEq, Eq)]
pub struct SnapshotSignatureRecord {
    pub last_log_id: Option<LogId>,
    pub last_membership_log_id: Option<Box<LogId>>,
    pub snapshot_id: String,
}

impl SnapshotSignature {
    /// Whether a record is what is written for the signature.
    pub open spec fn is_written(self, record: SnapshotSignatureRecord) -> bool {
        &&& record.last_log_id == self.last_log_id
        &&& record.last_membership_log_id == self.last_membership_log_id
        &&& record.snapshot_id@ == Seq::<char>::empty()
    }

    /// The signature that a record is read as.
    pub open spec fn read_spec(record: SnapshotSignatureRecord) -> SnapshotSignature {
        SnapshotSignature {
            last_log_id: record.last_log_id,
            last_membership_log_id: record.last_membership_log_id,
        }
    }

    /// The record of the signature.
    pub fn into_record(self) -> (r: SnapshotSignatureRecord)
        ensures
            self.is_written(r),
    {
        SnapshotSignatureRecord {
            last_log_id: self.last_log_id,
            last_membership_log_id: self.last_membership_log_id,
            snapshot_id: String::new(),
        }
    }

    /// The signature of a record.
    pub fn from_record(record: SnapshotSignatureRecord) -> (r: SnapshotSignature)
        ensures
            r == Self::read_spec(record),
    {
        SnapshotSignature {
            last_log_id: record.last_log_id,
            last_membership_log_id: record.last_membership_log_id,
        }
    }
}

/// What is written is read back, and a record is read the same whatever its reserved slot holds.
pub proof fn signature_records_are_interchangeable(
    signature: SnapshotSignature,
    written: SnapshotSignatureRecord,
    other: SnapshotSignatureRecord,
)
    requires
        signature.is_written(written),
        other == (SnapshotSignatureRecord { snapshot_id: other.snapshot_id, ..written }),
    ensures
        SnapshotSignature::read_spec(written) == signature,
        SnapshotSignature::read_spec(other) == signature,
{
}

/// What is stored of a membership is where it stands and what it is; before any is stored it stands
/// nowhere and has no members.
pub proof fn stored_memberships_show_their_parts<N: Node>(s: StoredMembership<N>, meta: SnapshotMeta<N>)
    ensures
        s@.log_id == s.log_id,
        s@.membership == s.membership@,
        meta@.last_log_id == meta.last_log_id,
        meta@.last_membership == meta.last_membership@,
        StoredMembership::<N>::empty_view().log_id is None,
        StoredMembership::<N>::empty_view().membership.configs.len() == 0,
        StoredMembership::<N>::empty_view().membership.nodes == Map::<u64, N>::empty(),
{
}

/// The reserved slot of a record is written empty, and the other slots as they are.
pub proof fn reserved_slots_are_empty<N: Node>(
    meta: SnapshotMeta<N>,
    m: SnapshotMetaRecord<N>,
    signature: SnapshotSignature,
    s: SnapshotSignatureRecord,
)
    ensures
        meta.is_written(m) ==> m.snapshot_id@.len() == 0 && m.last_log_id == meta.last_log_id
            && m.last_membership == meta.last_membership,
        signature.is_written(s) ==> s.snapshot_id@.len() == 0 && s.last_log_id
            == signature.last_log_id && s.last_membership_log_id
            == signature.last_membership_log_id,
{
}

} // verus!

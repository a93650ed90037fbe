use std::collections::{BTreeMap, BTreeSet};
use std::sync::Arc;

use zenoh_raft::entry::{Entry, EntryPayload, RaftEntry, RaftPayload};
use zenoh_raft::errors::{ChangeMembershipError, MessageError};
use zenoh_raft::membership::{ChangeMembers, Membership, MembershipError, MembershipView};
use zenoh_raft::raft_core::membership_handlers::apply_membership_to_payload;
use zenoh_raft::raft_core::raft_msg::MembershipPayloads;
use zenoh_raft::raft_core::state::MembershipState;
use zenoh_raft::storage::StoredMembership;
use zenoh_raft::type_config::{log_id, RaftTypeConfig};

fn set(ids: &[u64]) -> BTreeSet<u64> {
    ids.iter().copied().collect()
}

#[derive(Debug)]
struct TestPayload {
    normal: Option<u64>,
    membership: Option<Membership<()>>,
}

impl PartialEq for TestPayload {
    fn eq(&self, other: &Self) -> bool {
        let same = match (&self.membership, &other.membership) {
            (Some(a), Some(b)) => a.same(b),
            (None, None) => true,
            _ => false,
        };
        same && self.normal == other.normal
    }
}

impl RaftPayload for TestPayload {
    type D = u64;
    type Node = ();

    fn blank() -> Self {
        Self { normal: None, membership: None }
    }

    fn with_normal(mut self, data: u64) -> Self {
        self.normal = Some(data);
        self
    }

    fn with_membership(mut self, membership: Membership<()>) -> Self {
        self.membership = Some(membership);
        self
    }

    fn get_membership(&self) -> Option<Membership<()>> {
        self.membership.as_ref().map(|m| m.duplicate())
    }

    // What only proofs speak of is never run.

    fn blank_spec() -> Self {
        unreachable!()
    }

    fn with_normal_spec(self, _: u64) -> Self {
        unreachable!()
    }

    fn with_membership_spec(self, _: Membership<()>) -> Self {
        unreachable!()
    }

    fn membership_spec(&self) -> Option<MembershipView<()>> {
        unreachable!()
    }

    fn membership_is_read_back(_: Self, _: Membership<()>) {
        unreachable!()
    }
}

struct TestConfig;

impl RaftTypeConfig for TestConfig {
    type D = u64;
    type R = ();
    type Node = ();
    type Payload = TestPayload;
    type ErrorSource = MessageError;
}

fn state_of(current: Membership<()>) -> MembershipState<()> {
    let stored = Arc::new(StoredMembership::new(None, current));
    MembershipState::new(stored.clone(), stored)
}

fn add_node_2() -> ChangeMembers<()> {
    let mut nodes = BTreeMap::new();
    nodes.insert(2, ());
    ChangeMembers::AddNodes(nodes)
}

#[test]
fn membership_change_replaces_payload_membership() {
    let membership_state = state_of(Membership::new_with_defaults(vec![set(&[1])], vec![]));

    let input_membership = Membership::new_with_defaults(vec![set(&[9])], vec![]);
    let payload = TestPayload { normal: Some(7), membership: Some(input_membership) };

    let payloads = MembershipPayloads::<TestConfig>::Uniform(payload);
    let result =
        apply_membership_to_payload::<TestConfig>(&membership_state, add_node_2(), false, payloads);
    let actual = result.ok().unwrap().payload;

    let expected_membership = Membership::new_with_defaults(vec![set(&[1])], vec![2]);
    let expected = TestPayload { normal: Some(7), membership: Some(expected_membership) };
    assert_eq!(expected, actual);
}

#[test]
fn membership_change_from_blank_payload_creates_membership_payload() {
    let membership_state = state_of(Membership::new_with_defaults(vec![set(&[1])], vec![]));

    let payloads = MembershipPayloads::<TestConfig>::Uniform(TestPayload::blank());
    let result =
        apply_membership_to_payload::<TestConfig>(&membership_state, add_node_2(), false, payloads);
    let actual = result.ok().unwrap().payload;

    let expected_membership = Membership::new_with_defaults(vec![set(&[1])], vec![2]);
    let expected = TestPayload { normal: None, membership: Some(expected_membership) };
    assert_eq!(expected, actual);
}

/// Replacing the voters computes a joint membership, so the joint payload carries it and the
/// uniform payload goes back to the caller.
#[test]
fn joint_membership_selects_joint_payload() {
    let membership_state =
        state_of(Membership::new_with_defaults(vec![set(&[1, 2, 3])], vec![4, 5]));

    let payloads = MembershipPayloads::<TestConfig>::JointOrUniform {
        joint: TestPayload::normal(1),
        uniform: TestPayload::normal(2),
        unused_tx: 6,
    };

    let changes = ChangeMembers::ReplaceAllVoters(set(&[3, 4, 5]));
    let result =
        apply_membership_to_payload::<TestConfig>(&membership_state, changes, false, payloads);
    let actual = result.ok().unwrap();

    let joint_membership =
        Membership::new_with_defaults(vec![set(&[1, 2, 3]), set(&[3, 4, 5])], vec![]);
    let expected = TestPayload { normal: Some(1), membership: Some(joint_membership) };
    assert_eq!(expected, actual.payload);

    let (returned, unused_tx) = actual.unused.unwrap();
    assert_eq!(TestPayload::normal(2), returned);
    assert_eq!(unused_tx, 6);
}

/// Adding a node moves no voter, so the computed membership is uniform and the uniform
/// payload carries it, sending the joint payload back to the caller.
#[test]
fn uniform_membership_selects_uniform_payload() {
    let membership_state = state_of(Membership::new_with_defaults(vec![set(&[1])], vec![]));

    let payloads = MembershipPayloads::<TestConfig>::JointOrUniform {
        joint: TestPayload::normal(1),
        uniform: TestPayload::normal(2),
        unused_tx: 6,
    };

    let result =
        apply_membership_to_payload::<TestConfig>(&membership_state, add_node_2(), false, payloads);
    let actual = result.ok().unwrap();

    let expected_membership = Membership::new_with_defaults(vec![set(&[1])], vec![2]);
    let expected = TestPayload { normal: Some(2), membership: Some(expected_membership) };
    assert_eq!(expected, actual.payload);

    let (returned, _) = actual.unused.unwrap();
    assert_eq!(TestPayload::normal(1), returned);
}

#[test]
fn a_refused_change_gives_no_payload() {
    let refused = |ms: &MembershipState<()>, changes| {
        let payloads = MembershipPayloads::<TestConfig>::Uniform(TestPayload::blank());
        apply_membership_to_payload::<TestConfig>(ms, changes, false, payloads).err()
    };
    let ms = state_of(Membership::new_with_defaults(vec![set(&[1])], vec![]));
    assert_eq!(
        refused(&ms, ChangeMembers::ReplaceAllVoters(set(&[]))),
        Some(ChangeMembershipError::EmptyMembership)
    );
    assert_eq!(
        refused(&ms, ChangeMembers::AddVoterIds(set(&[7]))),
        Some(ChangeMembershipError::LearnerNotFound { node_id: 7 })
    );
    let stored = |id| {
        Arc::new(StoredMembership::new(id, Membership::new_with_defaults(vec![set(&[1])], vec![])))
    };
    let ms = MembershipState::new(stored(None), stored(Some(log_id(1, 1, 1))));
    assert_eq!(
        refused(&ms, add_node_2()),
        Some(ChangeMembershipError::InProgress {
            committed: None,
            membership_log_id: Some(log_id(1, 1, 1)),
        })
    );
}

fn nodes(pairs: &[(u64, u64)]) -> BTreeMap<u64, u64> {
    pairs.iter().copied().collect()
}

#[test]
fn memberships_are_validated() {
    let ok = Membership::new(vec![set(&[1, 2])], nodes(&[(1, 10), (2, 20), (3, 30)])).unwrap();
    assert_eq!(ok.voter_ids(), vec![1, 2]);
    assert!(ok.is_voter(2) && !ok.is_voter(3));
    assert_eq!(ok.get_node(3), Some(&30));
    assert_eq!(ok.get_node(4), None);
    assert!(!ok.is_joint());
    assert_eq!(
        Membership::new(vec![set(&[1]), set(&[])], nodes(&[(1, 10)])).err(),
        Some(MembershipError::EmptyConfig)
    );
    assert_eq!(
        Membership::new(vec![set(&[1, 2])], nodes(&[(1, 10)])).err(),
        Some(MembershipError::NodeNotFound { node_id: 2 })
    );
    let joint =
        Membership::new(vec![set(&[1]), set(&[3, 2])], nodes(&[(1, 1), (2, 2), (3, 3)])).unwrap();
    assert!(joint.is_joint());
    assert_eq!(joint.voter_ids(), vec![1, 2, 3]);
    assert!(joint.same(&joint.duplicate()));
    assert!(!joint.same(&ok));
    let empty = Membership::<u64>::empty();
    assert!(empty.configs.is_empty() && empty.nodes.is_empty());
}

#[test]
fn voters_change_through_a_joint_membership() {
    let m = Membership::new(vec![set(&[1, 2])], nodes(&[(1, 1), (2, 2), (3, 3)])).unwrap();
    let joint = m.change(ChangeMembers::ReplaceAllVoters(set(&[2, 3])), false).unwrap();
    assert_eq!(joint.configs, vec![set(&[1, 2]), set(&[2, 3])]);
    let done = joint.change(ChangeMembers::ReplaceAllVoters(set(&[2, 3])), false).unwrap();
    assert_eq!(done.configs, vec![set(&[2, 3])]);
    assert_eq!(done.nodes, nodes(&[(2, 2), (3, 3)]));
    let kept = joint.change(ChangeMembers::ReplaceAllVoters(set(&[2, 3])), true).unwrap();
    assert_eq!(kept.nodes, nodes(&[(1, 1), (2, 2), (3, 3)]));
    // A change to the same voters moves nothing.
    let same = m.change(ChangeMembers::ReplaceAllVoters(set(&[1, 2])), true).unwrap();
    assert_eq!(same.configs, vec![set(&[1, 2])]);
    // From a joint membership, a third goal keeps the newer voters.
    let next = joint.next_coherent(set(&[3]), true);
    assert_eq!(next.configs, vec![set(&[2, 3]), set(&[3])]);
}

#[test]
fn each_kind_of_change_is_made() {
    let m = || Membership::new(vec![set(&[1, 2])], nodes(&[(1, 1), (2, 2), (3, 3)])).unwrap();
    let change = |c, retain| m().change(c, retain).unwrap();
    let r = change(ChangeMembers::AddVoterIds(set(&[3])), true);
    assert_eq!(r.configs, vec![set(&[1, 2]), set(&[1, 2, 3])]);
    let r = change(ChangeMembers::RemoveVoters(set(&[2])), true);
    assert_eq!(r.configs, vec![set(&[1, 2]), set(&[1])]);
    let r = change(ChangeMembers::AddNodes(nodes(&[(3, 99), (5, 5)])), true);
    assert_eq!(r.nodes, nodes(&[(1, 1), (2, 2), (3, 3), (5, 5)]));
    let r = change(ChangeMembers::RemoveNodes(set(&[3])), true);
    assert_eq!(r.nodes, nodes(&[(1, 1), (2, 2)]));
    // A voter must stay a node.
    assert_eq!(
        m().change(ChangeMembers::RemoveNodes(set(&[2])), true).err(),
        Some(MembershipError::NodeNotFound { node_id: 2 })
    );
}

#[test]
fn entries_carry_their_payloads() {
    type P = EntryPayload<u64, ()>;
    let mut e: Entry<P> = RaftEntry::new_blank(log_id(1, 2, 3));
    assert_eq!((e.log_id(), e.index()), (log_id(1, 2, 3), 3));
    assert!(matches!(e.payload, EntryPayload::Blank));
    e.set_log_id(log_id(4, 5, 6));
    assert_eq!(e.log_id_parts(), (log_id(4, 5, 6).leader_id, 6));
    let e: Entry<P> = RaftEntry::new_normal(log_id(1, 2, 3), 9);
    assert!(matches!(e.payload, EntryPayload::Normal(9)));
    assert!(e.get_membership().is_none());
    let m = Membership::new_with_defaults(vec![set(&[1])], vec![2]);
    let e: Entry<P> = RaftEntry::new_membership(log_id(1, 2, 3), m.duplicate());
    assert!(e.get_membership().unwrap().same(&m));
    assert!(matches!(P::blank().with_normal(4), EntryPayload::Normal(4)));
    assert!(matches!(P::normal(4).with_membership(m), EntryPayload::Membership(_)));
}

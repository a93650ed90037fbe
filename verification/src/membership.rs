//! Cluster membership and how it changes.

use std::collections::{BTreeMap, BTreeSet};
use vstd::prelude::*;
use crate::node::Node;
use crate::sets;

verus! {

broadcast use vstd::std_specs::btree::group_btree_axioms;

/// A membership as mathematics: the voter sets and what is known of each node.
#[verifier::ext_equal]
pub struct MembershipView<N> {
    pub configs: Seq<Set<u64>>,
    pub nodes: Map<u64, N>,
}

/// The members of a cluster.
///
/// Voters stand in `configs`: one set in a uniform membership, more in a joint one.  A node that
/// is in no voter set is a learner.
#[derive(Debug)]
pub struct Membership<N> {
    pub configs: Vec<BTreeSet<u64>>,
    pub nodes: BTreeMap<u64, N>,
}

/// The contents of a list of voter sets.
pub open spec fn config_views(configs: Seq<BTreeSet<u64>>) -> Seq<Set<u64>> {
    configs.map_values(|c: BTreeSet<u64>| c@)
}

/// Every node that is a voter in some voter set.
pub open spec fn voters_of(configs: Seq<Set<u64>>) -> Set<u64> {
    Set::new(|id: u64| exists|i: int| 0 <= i < configs.len() && (#[trigger] configs[i]).contains(id))
}

/// Whether a set has a member.
pub open spec fn has_member(s: Set<u64>) -> bool {
    exists|id: u64| s.contains(id)
}

impl<N> View for Membership<N> {
    type V = MembershipView<N>;

    open spec fn view(&self) -> MembershipView<N> {
        MembershipView { configs: config_views(self.configs@), nodes: self.nodes@ }
    }
}

impl<N> MembershipView<N> {
    /// Every voter.
    pub open spec fn voters(self) -> Set<u64> {
        voters_of(self.configs)
    }

    /// Whether the voters stand in more than one set.
    pub open spec fn joint(self) -> bool {
        self.configs.len() > 1
    }

    /// Whether no voter set is empty.
    pub open spec fn no_empty_config(self) -> bool {
        forall|i: int| 0 <= i < self.configs.len() ==> has_member(#[trigger] self.configs[i])
    }

    /// Whether every voter is a known node.
    pub open spec fn voters_are_nodes(self) -> bool {
        self.voters().subset_of(self.nodes.dom())
    }

    /// Whether the membership may be used.
    pub open spec fn valid(self) -> bool {
        self.no_empty_config() && self.voters_are_nodes()
    }

    /// Whether `goal` is one of the voter sets, so that it can follow at once.
    pub open spec fn coherent_with(self, goal: Set<u64>) -> bool {
        exists|i: int| 0 <= i < self.configs.len() && #[trigger] self.configs[i] == goal
    }

    /// The voter sets on the way to `goal`: `goal` alone where it is one of the present sets,
    /// else the last present set together with `goal`.
    pub open spec fn coherent_configs(self, goal: Set<u64>) -> Seq<Set<u64>> {
        if self.coherent_with(goal) {
            seq![goal]
        } else {
            seq![self.configs.last(), goal]
        }
    }

    /// The next membership on the way to the voters `goal`.
    ///
    /// With `retain`, a voter that leaves stays as a learner; without, its node is removed.
    pub open spec fn coherent_next(self, goal: Set<u64>, retain: bool) -> MembershipView<N> {
        let configs = self.coherent_configs(goal);
        let removed = self.voters().difference(voters_of(configs));
        MembershipView {
            configs,
            nodes: if retain {
                self.nodes
            } else {
                self.nodes.remove_keys(removed)
            },
        }
    }
}

/// Why a membership may not be used.
#[derive(Clone, Copy, Debug, PartialEq, Eq, Structural)]
pub enum MembershipError {
    /// A voter set is empty.
    EmptyConfig,
    /// A voter has no node.
    NodeNotFound { node_id: u64 },
}

impl<N: Node> Membership<N> {
    /// The voter sets as mathematics, one by one.
    proof fn lemma_configs(&self, i: int)
        requires
            0 <= i < self.configs@.len(),
        ensures
            self@.configs[i] == self.configs@[i]@,
            self@.configs.len() == self.configs@.len(),
    {
    }

    /// Every voter, in increasing order.
    pub fn voter_ids(&self) -> (r: Vec<u64>)
        ensures
            sets::lists(r@, self@.voters()),
    {
        let mut all: BTreeSet<u64> = BTreeSet::new();
        let mut i: usize = 0;
        while i < self.configs.len()
            invariant
                i <= self.configs.len(),
                forall|id: u64|
                    #[trigger] all@.contains(id) <==> exists|k: int|
                        0 <= k < i && (#[trigger] self@.configs[k]).contains(id),
            decreases self.configs.len() - i,
        {
            let members = sets::set_members(&self.configs[i]);
            let ghost before = all@;
            let mut j: usize = 0;
            while j < members.len()
                invariant
                    j <= members.len(),
                    forall|id: u64| #[trigger]
                        all@.contains(id) <==> before.contains(id) || members@.take(
                            j as int,
                        ).contains(id),
                decreases members.len() - j,
            {
                proof {
                    assert(members@.take(j + 1) =~= members@.take(j as int).push(members[j as int]));
                    assert forall|id: u64| #[trigger]
                        all@.insert(members[j as int]).contains(id) <==> before.contains(id)
                            || members@.take(j + 1).contains(id) by {
                        let t = members@.take(j as int);
                        if t.contains(id) {
                            let p = choose|p: int| 0 <= p < t.len() && t[p] == id;
                            assert(t.push(members[j as int])[p] == id);
                        }
                        if t.push(members[j as int]).contains(id) && id != members[j as int] {
                            let p = choose|p: int|
                                0 <= p < t.len() + 1 && t.push(members[j as int])[p] == id;
                            assert(t[p] == id);
                        }
                        assert(t.push(members[j as int])[j as int] == members[j as int]);
                    }
                }
                all.insert(members[j]);
                j = j + 1;
            }
            proof {
                assert(members@.take(members@.len() as int) =~= members@);
                self.lemma_configs(i as int);
                assert forall|id: u64| #[trigger]
                    all@.contains(id) <==> exists|k: int|
                        0 <= k < i + 1 && (#[trigger] self@.configs[k]).contains(id) by {
                    if self@.configs[i as int].contains(id) {
                        assert(members@.to_set().contains(id));
                    }
                    if members@.contains(id) {
                        assert(members@.to_set().contains(id));
                    }
                    if before.contains(id) {
                        let k = choose|k: int|
                            0 <= k < i && (#[trigger] self@.configs[k]).contains(id);
                        assert(self@.configs[k].contains(id));
                    }
                }
            }
            i = i + 1;
        }
        assert(all@ =~= self@.voters());
        sets::set_members(&all)
    }

    /// Whether a node is a voter.
    pub fn is_voter(&self, id: u64) -> (r: bool)
        ensures
            r == self@.voters().contains(id),
    {
        let mut i: usize = 0;
        while i < self.configs.len()
            invariant
                i <= self.configs.len(),
                forall|k: int| 0 <= k < i ==> !(#[trigger] self@.configs[k]).contains(id),
            decreases self.configs.len() - i,
        {
            proof {
                self.lemma_configs(i as int);
            }
            if self.configs[i].contains(&id) {
                assert(self@.configs[i as int].contains(id));
                return true;
            }
            i = i + 1;
        }
        false
    }

    /// What is known of a node.
    pub fn get_node(&self, id: u64) -> (r: Option<&N>)
        ensures
            match r {
                Some(n) => self@.nodes.contains_key(id) && *n == self@.nodes[id],
                None => !self@.nodes.contains_key(id),
            },
    {
        self.nodes.get(&id)
    }

    /// Whether the voters stand in more than one set.
    pub fn is_joint(&self) -> (r: bool)
        ensures
            r == self@.joint(),
    {
        self.configs.len() > 1
    }

    /// Whether the membership may be used: no voter set is empty, and every voter has a node.
    ///
    /// The first empty voter set is reported before any missing node, the missing node with the
    /// least id before the others.
    pub fn ensure_valid(&self) -> (r: Result<(), MembershipError>)
        ensures
            r is Ok <==> self@.valid(),
            r == Err::<(), MembershipError>(MembershipError::EmptyConfig)
                <==> !self@.no_empty_config(),
            match r {
                Err(MembershipError::NodeNotFound { node_id }) => {
                    &&& self@.no_empty_config()
                    &&& self@.voters().contains(node_id)
                    &&& !self@.nodes.contains_key(node_id)
                    &&& forall|id: u64|
                        #![trigger self@.voters().contains(id)]
                        self@.voters().contains(id) && id < node_id ==> self@.nodes.contains_key(id)
                },
                _ => true,
            },
    {
        let mut i: usize = 0;
        while i < self.configs.len()
            invariant
                i <= self.configs.len(),
                forall|k: int| 0 <= k < i ==> has_member(#[trigger] self@.configs[k]),
            decreases self.configs.len() - i,
        {
            let members = sets::set_members(&self.configs[i]);
            proof {
                self.lemma_configs(i as int);
            }
            if members.len() == 0 {
                proof {
                    assert forall|id: u64| !self@.configs[i as int].contains(id) by {
                        if self@.configs[i as int].contains(id) {
                            assert(members@.to_set().contains(id));
                            assert(members@.contains(id));
                        }
                    }
                }
                return Err(MembershipError::EmptyConfig);
            }
            proof {
                assert(members@.to_set().contains(members[0])) by {
                    assert(members@.contains(members[0]));
                }
                assert(self@.configs[i as int].contains(members[0]));
            }
            i = i + 1;
        }
        let voters = self.voter_ids();
        let mut j: usize = 0;
        while j < voters.len()
            invariant
                j <= voters.len(),
                self@.no_empty_config(),
                sets::lists(voters@, self@.voters()),
                forall|k: int| 0 <= k < j ==> self@.nodes.contains_key(#[trigger] voters[k]),
            decreases voters.len() - j,
        {
            if !self.nodes.contains_key(&voters[j]) {
                proof {
                    assert(voters@.contains(voters[j as int]));
                    assert(voters@.to_set().contains(voters[j as int]));
                    assert forall|id: u64|
                        self@.voters().contains(id) && id < voters[j as int] implies
                        self@.nodes.contains_key(id) by {
                        assert(voters@.contains(id));
                        let k = choose|k: int| 0 <= k < voters@.len() && voters@[k] == id;
                        assert(voters[k] == id);
                    }
                }
                return Err(MembershipError::NodeNotFound { node_id: voters[j] });
            }
            j = j + 1;
        }
        proof {
            assert forall|id: u64| self@.voters().contains(id) implies
                self@.nodes.dom().contains(id) by {
                assert(voters@.contains(id));
                let k = choose|k: int| 0 <= k < voters@.len() && voters@[k] == id;
                assert(voters[k] == id);
            }
        }
        Ok(())
    }
}

/// A change of the members of a cluster.
#[derive(Debug)]
pub enum ChangeMembers<N> {
    /// Make known nodes voters.
    AddVoterIds(BTreeSet<u64>),
    /// Take voters out of the voter set.
    RemoveVoters(BTreeSet<u64>),
    /// Replace the voter set.
    ReplaceAllVoters(BTreeSet<u64>),
    /// Add learners.  A node that is already known keeps what is known of it.
    AddNodes(BTreeMap<u64, N>),
    /// Remove nodes.
    RemoveNodes(BTreeSet<u64>),
}

impl<N> ChangeMembers<N> {
    /// The membership that the change proposes to follow `m`.
    pub open spec fn proposed(self, m: MembershipView<N>, retain: bool) -> MembershipView<N> {
        match self {
            ChangeMembers::AddVoterIds(ids) => m.coherent_next(
                m.configs.last().union(ids@),
                retain,
            ),
            ChangeMembers::RemoveVoters(ids) => m.coherent_next(
                m.configs.last().difference(ids@),
                retain,
            ),
            ChangeMembers::ReplaceAllVoters(ids) => m.coherent_next(ids@, retain),
            ChangeMembers::AddNodes(nodes) => MembershipView {
                configs: m.configs,
                nodes: nodes@.union_prefer_right(m.nodes),
            },
            ChangeMembers::RemoveNodes(ids) => MembershipView {
                configs: m.configs,
                nodes: m.nodes.remove_keys(ids@),
            },
        }
    }
}

/// A copy of a list of voter sets.
fn duplicate_configs(configs: &Vec<BTreeSet<u64>>) -> (r: Vec<BTreeSet<u64>>)
    ensures
        config_views(r@) == config_views(configs@),
{
    let mut r: Vec<BTreeSet<u64>> = Vec::new();
    let mut i: usize = 0;
    while i < configs.len()
        invariant
            i <= configs.len(),
            config_views(r@) == config_views(configs@).take(i as int),
        decreases configs.len() - i,
    {
        let c = configs[i].clone();
        let ghost before = r@;
        r.push(c);
        assert(config_views(r@) =~= config_views(before).push(c@));
        assert(config_views(configs@).take(i + 1) =~= config_views(configs@).take(i as int).push(
            configs[i as int]@,
        ));
        i = i + 1;
    }
    assert(config_views(configs@).take(configs.len() as int) =~= config_views(configs@));
    r
}

impl<N: Node> Membership<N> {
    /// A membership without members.
    pub open spec fn empty_view() -> MembershipView<N> {
        MembershipView { configs: Seq::empty(), nodes: Map::empty() }
    }

    /// A membership without members.
    pub fn empty() -> (r: Membership<N>)
        ensures
            r@ == Self::empty_view(),
    {
        let r = Membership { configs: Vec::new(), nodes: BTreeMap::new() };
        assert(r@.configs =~= Seq::<Set<u64>>::empty());
        r
    }

    /// A membership of its parts, if they make a valid one.
    pub fn new(configs: Vec<BTreeSet<u64>>, nodes: BTreeMap<u64, N>) -> (r: Result<
        Membership<N>,
        MembershipError,
    >)
        ensures
            r is Ok <==> (MembershipView { configs: config_views(configs@), nodes: nodes@ }).valid(),
            match r {
                Ok(m) => m@ == (MembershipView { configs: config_views(configs@), nodes: nodes@ }),
                Err(MembershipError::EmptyConfig) => !(MembershipView {
                    configs: config_views(configs@),
                    nodes: nodes@,
                }).no_empty_config(),
                Err(MembershipError::NodeNotFound { node_id }) => {
                    &&& voters_of(config_views(configs@)).contains(node_id)
                    &&& !nodes@.contains_key(node_id)
                },
            },
    {
        let m = Membership { configs, nodes };
        match m.ensure_valid() {
            Ok(()) => Ok(m),
            Err(e) => Err(e),
        }
    }

    /// A membership with blank nodes for the voters and for the nodes in `extra`.
    pub fn new_with_defaults(configs: Vec<BTreeSet<u64>>, extra: Vec<u64>) -> (r: Membership<N>)
        ensures
            r@.configs == config_views(configs@),
            r@.nodes.dom() == voters_of(config_views(configs@)).union(extra@.to_set()),
            forall|id: u64| #[trigger]
                r@.nodes.contains_key(id) ==> r@.nodes[id] == N::blank_node(),
    {
        let mut m = Membership { configs, nodes: BTreeMap::new() };
        let voters = m.voter_ids();
        let e = sets::set_of(&extra);
        let v = sets::set_of(&voters);
        let all = sets::set_union(&v, &e);
        let ids = sets::set_members(&all);
        let mut i: usize = 0;
        while i < ids.len()
            invariant
                i <= ids.len(),
                m.configs == configs,
                forall|id: u64| #[trigger]
                    m.nodes@.contains_key(id) <==> exists|k: int|
                        0 <= k < i && #[trigger] ids[k] == id,
                forall|id: u64| #[trigger]
                    m.nodes@.contains_key(id) ==> m.nodes@[id] == N::blank_node(),
            decreases ids.len() - i,
        {
            m.nodes.insert(ids[i], N::new_blank());
            i = i + 1;
        }
        proof {
            let want = voters_of(config_views(configs@)).union(extra@.to_set());
            assert(all@ =~= want);
            assert forall|id: u64| m.nodes@.contains_key(id) <==> want.contains(id) by {
                sets::listed(ids@, all@, id);
                if all@.contains(id) {
                    let k = choose|k: int| 0 <= k < ids@.len() && #[trigger] ids@[k] == id;
                    assert(ids[k] == id);
                }
                if m.nodes@.contains_key(id) {
                    let k = choose|k: int| 0 <= k < ids.len() && #[trigger] ids[k] == id;
                    assert(ids@[k] == id);
                    assert(ids@.contains(id));
                }
            }
            assert(m.nodes@.dom() =~= want);
        }
        m
    }

    /// A copy of the membership.
    pub fn duplicate(&self) -> (r: Membership<N>)
        ensures
            r@ == self@,
    {
        Membership {
            configs: duplicate_configs(&self.configs),
            nodes: sets::map_duplicate(&self.nodes),
        }
    }

    /// Whether two memberships have the same voter sets and the same nodes.
    pub fn same(&self, other: &Membership<N>) -> (r: bool)
        ensures
            r == (self@ == other@),
    {
        if self.configs.len() != other.configs.len() {
            proof {
                assert(self@.configs.len() != other@.configs.len());
            }
            return false;
        }
        let mut i: usize = 0;
        while i < self.configs.len()
            invariant
                i <= self.configs.len(),
                self.configs.len() == other.configs.len(),
                forall|k: int| 0 <= k < i ==> self@.configs[k] == other@.configs[k],
            decreases self.configs.len() - i,
        {
            proof {
                self.lemma_configs(i as int);
                other.lemma_configs(i as int);
            }
            if !sets::set_equal(&self.configs[i], &other.configs[i]) {
                assert(self@.configs[i as int] != other@.configs[i as int]);
                return false;
            }
            i = i + 1;
        }
        assert(self@.configs =~= other@.configs);
        sets::map_same(&self.nodes, &other.nodes)
    }

    /// Whether `goal` is one of the voter sets.
    fn find_coherent(&self, goal: &BTreeSet<u64>) -> (r: bool)
        ensures
            r == self@.coherent_with(goal@),
    {
        let mut i: usize = 0;
        while i < self.configs.len()
            invariant
                i <= self.configs.len(),
                forall|k: int| 0 <= k < i ==> #[trigger] self@.configs[k] != goal@,
            decreases self.configs.len() - i,
        {
            proof {
                self.lemma_configs(i as int);
            }
            if sets::set_equal(&self.configs[i], goal) {
                assert(self@.configs[i as int] == goal@);
                return true;
            }
            i = i + 1;
        }
        false
    }

    /// The next membership on the way to the voters `goal`.
    pub fn next_coherent(&self, goal: BTreeSet<u64>, retain: bool) -> (r: Membership<N>)
        requires
            self@.configs.len() > 0,
        ensures
            r@ == self@.coherent_next(goal@, retain),
    {
        let coherent = self.find_coherent(&goal);
        let ghost g = goal@;
        let mut configs: Vec<BTreeSet<u64>> = Vec::new();
        if !coherent {
            proof {
                self.lemma_configs(self.configs@.len() - 1);
            }
            configs.push(self.configs[self.configs.len() - 1].clone());
        }
        configs.push(goal);
        assert(config_views(configs@) =~= self@.coherent_configs(g));
        let mut m = Membership { configs, nodes: sets::map_duplicate(&self.nodes) };
        if !retain {
            let old_voters = self.voter_ids();
            let mut i: usize = 0;
            let ghost removed = self@.voters().difference(m@.voters());
            while i < old_voters.len()
                invariant
                    i <= old_voters.len(),
                    m.configs == configs,
                    sets::lists(old_voters@, self@.voters()),
                    removed == self@.voters().difference(voters_of(config_views(configs@))),
                    forall|id: u64| #[trigger]
                        m.nodes@.contains_key(id) <==> self@.nodes.contains_key(id) && !(exists|
                            k: int,
                        |
                            0 <= k < i && #[trigger] old_voters[k] == id && removed.contains(id)),
                    forall|id: u64| #[trigger]
                        m.nodes@.contains_key(id) ==> m.nodes@[id] == self@.nodes[id],
                decreases old_voters.len() - i,
            {
                let id = old_voters[i];
                proof {
                    assert(old_voters@.contains(id));
                    sets::listed(old_voters@, self@.voters(), id);
                    assert(m@.voters() == voters_of(config_views(configs@)));
                }
                if !m.is_voter(id) {
                    m.nodes.remove(&id);
                }
                i = i + 1;
            }
            proof {
                assert forall|id: u64| #[trigger]
                    m.nodes@.contains_key(id) <==> self@.nodes.remove_keys(removed).contains_key(id) by {
                    if removed.contains(id) {
                        sets::listed(old_voters@, self@.voters(), id);
                        let k = choose|k: int|
                            0 <= k < old_voters@.len() && #[trigger] old_voters@[k] == id;
                        assert(old_voters[k] == id);
                    }
                }
                assert(m.nodes@ =~= self@.nodes.remove_keys(removed));
            }
        }
        m
    }

    /// The valid membership that a change proposes, or why there is none.
    pub fn change(&self, change: ChangeMembers<N>, retain: bool) -> (r: Result<
        Membership<N>,
        MembershipError,
    >)
        requires
            self@.configs.len() > 0,
        ensures
            r is Ok <==> change.proposed(self@, retain).valid(),
            match r {
                Ok(m) => m@ == change.proposed(self@, retain),
                Err(MembershipError::EmptyConfig) => !change.proposed(
                    self@,
                    retain,
                ).no_empty_config(),
                Err(MembershipError::NodeNotFound { node_id }) => {
                    &&& change.proposed(self@, retain).no_empty_config()
                    &&& change.proposed(self@, retain).voters().contains(node_id)
                    &&& !change.proposed(self@, retain).nodes.contains_key(node_id)
                },
            },
    {
        let ghost want = change.proposed(self@, retain);
        proof {
            self.lemma_configs(self.configs@.len() - 1);
        }
        let last = &self.configs[self.configs.len() - 1];
        let m = match change {
            ChangeMembers::AddVoterIds(ids) => self.next_coherent(
                sets::set_union(last, &ids),
                retain,
            ),
            ChangeMembers::RemoveVoters(ids) => self.next_coherent(
                sets::set_difference(last, &ids),
                retain,
            ),
            ChangeMembers::ReplaceAllVoters(ids) => self.next_coherent(ids, retain),
            ChangeMembers::AddNodes(nodes) => {
                let mut m = self.duplicate();
                let keys = sets::map_keys(&nodes);
                let mut i: usize = 0;
                while i < keys.len()
                    invariant
                        i <= keys.len(),
                        sets::lists(keys@, nodes@.dom()),
                        m@.configs == self@.configs,
                        forall|id: u64| #[trigger]
                            m.nodes@.contains_key(id) <==> self@.nodes.contains_key(id) || exists|
                                k: int,
                            |
                                0 <= k < i && #[trigger] keys[k] == id,
                        forall|id: u64| #[trigger]
                            m.nodes@.contains_key(id) ==> m.nodes@[id] == (
                            if self@.nodes.contains_key(id) {
                                self@.nodes[id]
                            } else {
                                nodes@[id]
                            }),
                    decreases keys.len() - i,
                {
                    let id = keys[i];
                    proof {
                        assert(keys@.contains(id));
                        sets::listed(keys@, nodes@.dom(), id);
                    }
                    if !m.nodes.contains_key(&id) {
                        match nodes.get(&id) {
                            Some(n) => {
                                m.nodes.insert(id, n.duplicate());
                            },
                            None => {},
                        }
                    }
                    i = i + 1;
                }
                proof {
                    assert forall|id: u64| #[trigger]
                        m.nodes@.contains_key(id) <==> want.nodes.contains_key(id) by {
                        sets::listed(keys@, nodes@.dom(), id);
                        if nodes@.contains_key(id) {
                            let k = choose|k: int|
                                0 <= k < keys@.len() && #[trigger] keys@[k] == id;
                            assert(keys[k] == id);
                        }
                        if exists|k: int| 0 <= k < keys.len() && #[trigger] keys[k] == id {
                            let k = choose|k: int| 0 <= k < keys.len() && #[trigger] keys[k] == id;
                            assert(keys@[k] == id);
                            assert(keys@.contains(id));
                        }
                    }
                    assert(m.nodes@ =~= want.nodes);
                }
                m
            },
            ChangeMembers::RemoveNodes(ids) => {
                let mut m = self.duplicate();
                let members = sets::set_members(&ids);
                let mut i: usize = 0;
                while i < members.len()
                    invariant
                        i <= members.len(),
                        m@.configs == self@.configs,
                        forall|id: u64| #[trigger]
                            m.nodes@.contains_key(id) <==> self@.nodes.contains_key(id) && forall|
                                k: int,
                            |
                                0 <= k < i ==> #[trigger] members[k] != id,
                        forall|id: u64| #[trigger]
                            m.nodes@.contains_key(id) ==> m.nodes@[id] == self@.nodes[id],
                    decreases members.len() - i,
                {
                    m.nodes.remove(&members[i]);
                    i = i + 1;
                }
                proof {
                    assert forall|id: u64| #[trigger]
                        m.nodes@.contains_key(id) <==> want.nodes.contains_key(id) by {
                        sets::listed(members@, ids@, id);
                        if ids@.contains(id) {
                            let k = choose|k: int|
                                0 <= k < members@.len() && #[trigger] members@[k] == id;
                            assert(members[k] == id);
                        } else {
                            assert forall|k: int| 0 <= k < members.len() implies
                                #[trigger] members[k] != id by {
                                if members[k] == id {
                                    assert(members@[k] == id);
                                    assert(members@.contains(id));
                                }
                            }
                        }
                    }
                    assert(m.nodes@ =~= want.nodes);
                }
                m
            },
        };
        assert(m@ =~= want);
        match m.ensure_valid() {
            Ok(()) => Ok(m),
            Err(e) => Err(e),
        }
    }
}

/// A membership that proposes voters from a uniform membership keeps the old voters in charge:
/// the proposal either is uniform or joins the old voter set with the new one, so that every
/// quorum of the proposal holds a quorum of the old voter set or the voters did not move.
pub proof fn voter_change_is_joint_or_unmoved<N>(
    m: MembershipView<N>,
    goal: Set<u64>,
    retain: bool,
)
    requires
        m.configs.len() == 1,
    ensures
        goal == m.configs[0] ==> m.coherent_next(goal, retain).configs == m.configs,
        goal != m.configs[0] ==> m.coherent_next(goal, retain).configs == seq![m.configs[0], goal],
{
    assert(m.configs.last() == m.configs[0]);
    assert(m.coherent_with(goal) <==> m.configs[0] == goal) by {
        if m.configs[0] == goal {
            assert(m.configs[0] == goal);
        }
    }
    if goal == m.configs[0] {
        assert(seq![goal] =~= m.configs);
    }
}

/// A voter change that entered a joint membership ends in the uniform membership of its goal when
/// it is proposed a second time.
pub proof fn voter_change_completes<N>(m: MembershipView<N>, goal: Set<u64>, retain: bool)
    requires
        m.configs.len() > 0,
    ensures
        m.coherent_next(goal, retain).coherent_next(goal, retain).configs == seq![goal],
{
    let joint = m.coherent_next(goal, retain);
    assert(joint.configs[joint.configs.len() - 1] == goal);
    assert(joint.coherent_with(goal));
}

/// With `retain`, a voter change removes no node.
pub proof fn retained_voters_become_learners<N>(m: MembershipView<N>, goal: Set<u64>)
    ensures
        m.coherent_next(goal, true).nodes == m.nodes,
{
}

/// A node is a voter exactly if it stands in one of the voter sets.
pub proof fn voters_stand_in_a_set<N>(m: MembershipView<N>, id: u64)
    ensures
        m.voters().contains(id) <==> exists|i: int|
            0 <= i < m.configs.len() && (#[trigger] m.configs[i]).contains(id),
{
}

/// A membership may be used exactly if no voter set is empty and every voter of every set is a known
/// node.
pub proof fn valid_memberships_know_their_voters<N>(m: MembershipView<N>)
    ensures
        m.valid() <==> {
            &&& forall|i: int| 0 <= i < m.configs.len() ==> #[trigger] m.configs[i] != Set::<u64>::empty()
            &&& forall|i: int, id: u64|
                0 <= i < m.configs.len() && (#[trigger] m.configs[i]).contains(id)
                    ==> #[trigger] m.nodes.contains_key(id)
        },
{
    if m.valid() {
        assert forall|i: int| 0 <= i < m.configs.len() implies #[trigger] m.configs[i] != Set::<
            u64,
        >::empty() by {
            assert(has_member(m.configs[i]));
        }
        assert forall|i: int, id: u64|
            0 <= i < m.configs.len() && (#[trigger] m.configs[i]).contains(id) implies
            #[trigger] m.nodes.contains_key(id) by {
            assert(m.voters().contains(id));
        }
    }
    if (forall|i: int| 0 <= i < m.configs.len() ==> #[trigger] m.configs[i] != Set::<u64>::empty())
        && (forall|i: int, id: u64|
        0 <= i < m.configs.len() && (#[trigger] m.configs[i]).contains(id)
            ==> #[trigger] m.nodes.contains_key(id)) {
        assert forall|i: int| 0 <= i < m.configs.len() implies has_member(
            #[trigger] m.configs[i],
        ) by {
            let c = m.configs[i];
            if forall|id: u64| !c.contains(id) {
                assert(c =~= Set::<u64>::empty());
            }
        }
        assert forall|id: u64| m.voters().contains(id) implies m.nodes.dom().contains(id) by {
            let i = choose|i: int| 0 <= i < m.configs.len() && (#[trigger] m.configs[i]).contains(id);
            assert(m.nodes.contains_key(id));
        }
    }
}

/// On the way to new voters, a set that is already one of the voter sets stands alone; any other is
/// joined to the last of the present sets.  The goal comes last either way.
pub proof fn new_voters_join_the_last_set<N>(m: MembershipView<N>, goal: Set<u64>, retain: bool, at: int)
    requires
        m.configs.len() > 0,
    ensures
        0 <= at < m.configs.len() && m.configs[at] == goal ==> m.coherent_next(goal, retain).configs
            == seq![goal],
        (forall|i: int| 0 <= i < m.configs.len() ==> #[trigger] m.configs[i] != goal)
            ==> m.coherent_next(goal, retain).configs == seq![
            m.configs[m.configs.len() - 1],
            goal,
        ],
        m.coherent_next(goal, retain).configs.last() == goal,
{
    if 0 <= at < m.configs.len() && m.configs[at] == goal {
        assert(m.coherent_with(goal));
    }
}

/// Without `retain`, a voter change removes the nodes of the voters that leave, and no other.  A
/// learner stays with what is known of it, a former voter stays exactly if it is a voter still, and
/// nobody comes in.
pub proof fn only_leaving_voters_are_removed<N>(m: MembershipView<N>, goal: Set<u64>, id: u64)
    ensures
        ({
            let next = m.coherent_next(goal, false);
            let was_voter = exists|i: int|
                0 <= i < m.configs.len() && (#[trigger] m.configs[i]).contains(id);
            let is_voter = exists|i: int|
                0 <= i < next.configs.len() && (#[trigger] next.configs[i]).contains(id);
            &&& m.nodes.contains_key(id) && !was_voter ==> next.nodes.contains_key(id)
            &&& m.nodes.contains_key(id) && was_voter ==> (next.nodes.contains_key(id) <==> is_voter)
            &&& !m.nodes.contains_key(id) ==> !next.nodes.contains_key(id)
            &&& next.nodes.contains_key(id) ==> next.nodes[id] == m.nodes[id]
        }),
{
    let next = m.coherent_next(goal, false);
    voters_stand_in_a_set(m, id);
    voters_stand_in_a_set(next, id);
    assert(next.voters() == voters_of(next.configs));
}

/// A voter that stands in the goal, or in the last voter set while the change is joint, keeps its
/// node; a voter of neither loses it.
pub proof fn staying_voters_keep_their_nodes<N>(m: MembershipView<N>, goal: Set<u64>, id: u64)
    requires
        m.configs.len() > 0,
        m.nodes.contains_key(id),
    ensures
        goal.contains(id) ==> m.coherent_next(goal, false).nodes.contains_key(id),
        (forall|i: int| 0 <= i < m.configs.len() ==> #[trigger] m.configs[i] != goal)
            && m.configs[m.configs.len() - 1].contains(id) ==> m.coherent_next(
            goal,
            false,
        ).nodes.contains_key(id),
        (exists|i: int| 0 <= i < m.configs.len() && #[trigger] m.configs[i] == goal) && (exists|
            i: int,
        |
            0 <= i < m.configs.len() && (#[trigger] m.configs[i]).contains(id)) && !goal.contains(id)
            ==> !m.coherent_next(goal, false).nodes.contains_key(id),
{
    let next = m.coherent_next(goal, false);
    only_leaving_voters_are_removed(m, goal, id);
    assert(next.configs[next.configs.len() - 1] == goal);
    if goal.contains(id) {
        assert(next.configs[next.configs.len() - 1].contains(id));
    }
    if forall|i: int| 0 <= i < m.configs.len() ==> #[trigger] m.configs[i] != goal {
        assert(next.configs[0] == m.configs[m.configs.len() - 1]);
    }
    if exists|i: int| 0 <= i < m.configs.len() && #[trigger] m.configs[i] == goal {
        assert(next.configs =~= seq![goal]);
    }
}

/// What a change of the voters aims at: the last voter set with the given nodes, without them, or
/// just the given nodes.  No node is known after it that was not known before.
pub proof fn voter_changes_reach_their_goal<N>(
    m: MembershipView<N>,
    ids: BTreeSet<u64>,
    retain: bool,
    id: u64,
)
    requires
        m.configs.len() > 0,
    ensures
        ({
            let last = m.configs[m.configs.len() - 1];
            let added = ChangeMembers::AddVoterIds(ids).proposed(m, retain);
            let removed = ChangeMembers::RemoveVoters(ids).proposed(m, retain);
            let replaced = ChangeMembers::ReplaceAllVoters(ids).proposed(m, retain);
            &&& added.configs.last().contains(id) <==> last.contains(id) || ids@.contains(id)
            &&& removed.configs.last().contains(id) <==> last.contains(id) && !ids@.contains(id)
            &&& replaced.configs.last().contains(id) <==> ids@.contains(id)
            &&& added.nodes.contains_key(id) ==> m.nodes.contains_key(id) && added.nodes[id]
                == m.nodes[id]
            &&& removed.nodes.contains_key(id) ==> m.nodes.contains_key(id) && removed.nodes[id]
                == m.nodes[id]
            &&& replaced.nodes.contains_key(id) ==> m.nodes.contains_key(id) && replaced.nodes[id]
                == m.nodes[id]
            &&& retain ==> added.nodes == m.nodes && removed.nodes == m.nodes && replaced.nodes
                == m.nodes
        }),
{
    let last = m.configs[m.configs.len() - 1];
    new_voters_join_the_last_set(m, last.union(ids@), retain, -1);
    new_voters_join_the_last_set(m, last.difference(ids@), retain, -1);
    new_voters_join_the_last_set(m, ids@, retain, -1);
}

/// A voter change goes through the joint membership of the last voter set and its goal, unless the
/// goal is one of the present sets.  Without `retain`, of the known nodes those stay that were no
/// voters or are voters still.
pub proof fn voter_changes_are_coherent<N>(
    m: MembershipView<N>,
    change: ChangeMembers<N>,
    retain: bool,
    id: u64,
)
    requires
        m.configs.len() > 0,
        change is AddVoterIds || change is RemoveVoters || change is ReplaceAllVoters,
    ensures
        ({
            let next = change.proposed(m, retain);
            let goal = next.configs.last();
            let was_voter = exists|i: int|
                0 <= i < m.configs.len() && (#[trigger] m.configs[i]).contains(id);
            let is_voter = exists|i: int|
                0 <= i < next.configs.len() && (#[trigger] next.configs[i]).contains(id);
            &&& (exists|i: int| 0 <= i < m.configs.len() && #[trigger] m.configs[i] == goal)
                ==> next.configs.len() == 1
            &&& (forall|i: int| 0 <= i < m.configs.len() ==> #[trigger] m.configs[i] != goal)
                ==> next.configs.len() == 2 && next.configs[0] == m.configs[m.configs.len() - 1]
            &&& !retain && m.nodes.contains_key(id) ==> (next.nodes.contains_key(id) <==> !was_voter
                || is_voter)
        }),
{
    let last = m.configs[m.configs.len() - 1];
    let goal = match change {
        ChangeMembers::AddVoterIds(ids) => last.union(ids@),
        ChangeMembers::RemoveVoters(ids) => last.difference(ids@),
        ChangeMembers::ReplaceAllVoters(ids) => ids@,
        _ => last,
    };
    new_voters_join_the_last_set(m, goal, retain, -1);
    if exists|i: int| 0 <= i < m.configs.len() && #[trigger] m.configs[i] == goal {
        let at = choose|i: int| 0 <= i < m.configs.len() && #[trigger] m.configs[i] == goal;
        new_voters_join_the_last_set(m, goal, retain, at);
    }
    only_leaving_voters_are_removed(m, goal, id);
}

/// Adding nodes and removing nodes touch no voter set.  A node that is known keeps what is known of
/// it; after a removal exactly the given nodes are gone.
pub proof fn node_changes_touch_no_voter_set<N>(
    m: MembershipView<N>,
    nodes: BTreeMap<u64, N>,
    ids: BTreeSet<u64>,
    retain: bool,
    id: u64,
)
    ensures
        ({
            let added = ChangeMembers::AddNodes(nodes).proposed(m, retain);
            let removed = ChangeMembers::<N>::RemoveNodes(ids).proposed(m, retain);
            &&& added.configs == m.configs
            &&& removed.configs == m.configs
            &&& added.nodes.contains_key(id) <==> m.nodes.contains_key(id) || nodes@.contains_key(id)
            &&& m.nodes.contains_key(id) ==> added.nodes[id] == m.nodes[id]
            &&& !m.nodes.contains_key(id) && nodes@.contains_key(id) ==> added.nodes[id] == nodes@[id]
            &&& removed.nodes.contains_key(id) <==> m.nodes.contains_key(id) && !ids@.contains(id)
            &&& removed.nodes.contains_key(id) ==> removed.nodes[id] == m.nodes[id]
        }),
{
}

/// A membership is joint exactly if it has two voter sets or more.
pub proof fn joint_memberships_have_two_sets<N>(m: MembershipView<N>)
    ensures
        m.joint() <==> m.configs.len() >= 2,
{
}

/// The voters are listed in increasing order, each once; a node is a voter, and is known, as the
/// membership says.
pub proof fn lookup_calls<N: Node>(
    m: Membership<N>,
    ids: Vec<u64>,
    id: u64,
    yes: bool,
    judged: Result<(), MembershipError>,
)
    ensures
        call_ensures(Membership::<N>::voter_ids, (&m,), ids) ==> (ids@.contains(id) <==> exists|i: int|
            0 <= i < m@.configs.len() && (#[trigger] m@.configs[i]).contains(id)) && forall|i: int, j: int|
            0 <= i < j < ids@.len() ==> ids@[i] < ids@[j],
        call_ensures(Membership::<N>::is_voter, (&m, id), yes) ==> (yes <==> exists|i: int|
            0 <= i < m@.configs.len() && (#[trigger] m@.configs[i]).contains(id)),
        call_ensures(Membership::<N>::is_joint, (&m,), yes) ==> (yes <==> m.configs@.len() >= 2),
        call_ensures(Membership::<N>::ensure_valid, (&m,), judged) ==> {
            &&& judged is Ok <==> m@.valid()
            &&& judged == Err::<(), MembershipError>(MembershipError::EmptyConfig) <==> exists|i: int|
                0 <= i < m@.configs.len() && #[trigger] m@.configs[i] == Set::<u64>::empty()
            &&& judged matches Err(MembershipError::NodeNotFound { node_id }) ==> m@.voters().contains(
                node_id,
            ) && !m@.nodes.contains_key(node_id) && (m@.voters().contains(id) && id < node_id
                ==> m@.nodes.contains_key(id))
        },
{
    voters_stand_in_a_set(m@, id);
    if call_ensures(Membership::<N>::voter_ids, (&m,), ids) {
        sets::listed(ids@, m@.voters(), id);
        assert(ids@.contains(id) <==> ids@.to_set().contains(id));
    }
    if call_ensures(Membership::<N>::ensure_valid, (&m,), judged) {
        if exists|i: int| 0 <= i < m@.configs.len() && #[trigger] m@.configs[i] == Set::<u64>::empty() {
            let i = choose|i: int|
                0 <= i < m@.configs.len() && #[trigger] m@.configs[i] == Set::<u64>::empty();
            assert(!has_member(m@.configs[i]));
            assert(!m@.no_empty_config());
        }
        if !m@.no_empty_config() {
            let i = choose|i: int| 0 <= i < m@.configs.len() && !has_member(#[trigger] m@.configs[i]);
            assert(m@.configs[i] =~= Set::<u64>::empty());
        }
    }
}

/// A membership changes as its laws say: a change gives the proposed membership exactly if that may be
/// used, and tells of an empty voter set before it tells of an unknown voter.
pub proof fn change_calls<N: Node>(
    m: Membership<N>,
    goal: BTreeSet<u64>,
    change: ChangeMembers<N>,
    retain: bool,
    next: Membership<N>,
    changed: Result<Membership<N>, MembershipError>,
)
    ensures
        call_ensures(Membership::<N>::next_coherent, (&m, goal, retain), next) ==> next@
            == m@.coherent_next(goal@, retain),
        call_ensures(Membership::<N>::change, (&m, change, retain), changed) ==> {
            let proposed = change.proposed(m@, retain);
            &&& changed is Ok <==> proposed.valid()
            &&& changed matches Ok(n) ==> n@ == proposed
            &&& changed matches Err(MembershipError::EmptyConfig) ==> !proposed.no_empty_config()
            &&& changed matches Err(MembershipError::NodeNotFound { node_id })
                ==> proposed.no_empty_config() && proposed.voters().contains(node_id)
                && !proposed.nodes.contains_key(node_id)
        },
{
}

/// A copy is the same membership, and two memberships are the same exactly if their voter sets and
/// nodes are.  A membership of its parts is refused unless it may be used.
pub proof fn making_calls<N: Node>(
    m: Membership<N>,
    other: Membership<N>,
    copy: Membership<N>,
    yes: bool,
    configs: Vec<BTreeSet<u64>>,
    nodes: BTreeMap<u64, N>,
    extra: Vec<u64>,
    made: Result<Membership<N>, MembershipError>,
    id: u64,
)
    ensures
        call_ensures(Membership::<N>::duplicate, (&m,), copy) ==> copy@ == m@,
        call_ensures(Membership::<N>::same, (&m, &other), yes) ==> (yes <==> m@.configs
            == other@.configs && m@.nodes == other@.nodes),
        call_ensures(Membership::<N>::empty, (), copy) ==> copy@.configs.len() == 0
            && !copy@.nodes.contains_key(id),
        call_ensures(Membership::<N>::new, (configs, nodes), made) ==> {
            &&& made matches Ok(n) ==> n@.valid() && n@.nodes == nodes@ && n@.configs
                == config_views(configs@)
            &&& made is Err ==> !(MembershipView {
                configs: config_views(configs@),
                nodes: nodes@,
            }).valid()
        },
        call_ensures(Membership::<N>::new_with_defaults, (configs, extra), copy) ==> {
            &&& copy@.configs == config_views(configs@)
            &&& copy@.nodes.contains_key(id) <==> copy@.voters().contains(id) || extra@.contains(id)
            &&& copy@.nodes.contains_key(id) ==> copy@.nodes[id] == N::blank_node()
        },
{
    if call_ensures(Membership::<N>::new_with_defaults, (configs, extra), copy) {
        assert(copy@.nodes.contains_key(id) <==> copy@.nodes.dom().contains(id));
        assert(extra@.to_set().contains(id) <==> extra@.contains(id));
    }
}

} // verus!

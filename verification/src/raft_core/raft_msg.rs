//! What an application asks of the core of its node.

use std::collections::BTreeMap;
use vstd::prelude::*;
use vstd::string::*;
use crate::batch::Batch;
use crate::display;
use crate::entry::RaftPayload;
use crate::log_id::{LeaderId, LogId};
use crate::log_id;
use crate::membership::{ChangeMembers, Membership};
use crate::message::{AppendEntriesRequest, LinearizerOption, VoteRequest};
use crate::raft_core::state::Precondition;
use crate::text;
use crate::type_config::RaftTypeConfig;
use crate::vote::Vote;

verus! {

impl Precondition {
    /// `LastMembershipLogId(<log id>)`.
    pub open spec fn text(self) -> Seq<char> {
        match self {
            Precondition::LastMembershipLogId { last_membership_log_id } =>
            "LastMembershipLogId("@ + log_id::opt_log_id_spec(last_membership_log_id) + ")"@,
        }
    }

    /// `LastMembershipLogId(<log id>)`.
    pub fn to_string(&self) -> (r: String)
        ensures
            r@ == self.text(),
    {
        match self {
            Precondition::LastMembershipLogId { last_membership_log_id } => {
                let l = log_id::opt_log_id_text(last_membership_log_id);
                "LastMembershipLogId(".to_owned().concat(l.as_str()).concat(")")
            },
        }
    }
}

/// The texts of preconditions.
pub open spec fn precondition_texts(preconditions: Seq<Precondition>) -> Seq<Seq<char>> {
    preconditions.map_values(|p: Precondition| p.text())
}

/// The preconditions as a list in brackets.
fn preconditions_text(preconditions: &Vec<Precondition>) -> (r: String)
    ensures
        r@ == display::slice_spec(precondition_texts(preconditions@)),
{
    let mut texts: Vec<String> = Vec::new();
    let mut i: usize = 0;
    while i < preconditions.len()
        invariant
            i <= preconditions.len(),
            texts.len() == i,
            forall|k: int| 0 <= k < i ==> (#[trigger] texts[k])@ == preconditions[k].text(),
        decreases preconditions.len() - i,
    {
        texts.push(preconditions[i].to_string());
        i = i + 1;
    }
    assert(text::views(texts@) =~= precondition_texts(preconditions@));
    display::display_slice(&texts)
}

/// The payloads that a membership change may use.
pub enum MembershipPayloads<C: RaftTypeConfig> {
    /// One payload, whatever the membership is.
    Uniform(C::Payload),
    /// One payload for a joint membership, one for a uniform membership.  The one that is not used
    /// is sent back on the channel `unused_tx`.
    JointOrUniform { joint: C::Payload, uniform: C::Payload, unused_tx: u64 },
}

/// A payload that carries a membership, and the payload that was not used with the channel on
/// which it is sent back.
pub struct SelectedPayload<C: RaftTypeConfig> {
    pub payload: C::Payload,
    pub unused: Option<(C::Payload, u64)>,
}

impl<C: RaftTypeConfig> MembershipPayloads<C> {
    /// The payload that a membership goes into, and the one that is not used.
    pub open spec fn selected(self, membership: Membership<C::Node>) -> SelectedPayload<C> {
        match self {
            MembershipPayloads::Uniform(p) => SelectedPayload {
                payload: p.with_membership_spec(membership),
                unused: None,
            },
            MembershipPayloads::JointOrUniform { joint, uniform, unused_tx } => if membership@.joint() {
                SelectedPayload {
                    payload: joint.with_membership_spec(membership),
                    unused: Some((uniform, unused_tx)),
                }
            } else {
                SelectedPayload {
                    payload: uniform.with_membership_spec(membership),
                    unused: Some((joint, unused_tx)),
                }
            },
        }
    }

    /// Put a membership into the payload that goes with it.
    pub fn select(self, membership: Membership<C::Node>) -> (r: SelectedPayload<C>)
        ensures
            r == self.selected(membership),
    {
        match self {
            MembershipPayloads::Uniform(p) => SelectedPayload {
                payload: p.with_membership(membership),
                unused: None,
            },
            MembershipPayloads::JointOrUniform { joint, uniform, unused_tx } => {
                if membership.is_joint() {
                    SelectedPayload {
                        payload: joint.with_membership(membership),
                        unused: Some((uniform, unused_tx)),
                    }
                } else {
                    SelectedPayload {
                        payload: uniform.with_membership(membership),
                        unused: Some((joint, unused_tx)),
                    }
                }
            },
        }
    }
}

/// A request that does not go through the Raft protocol.
pub enum ExternalCommand {
    /// Start an election, or ask for pre-votes first.
    Elect { pre_vote: bool },
    /// Send a heartbeat.
    Heartbeat,
    /// Build a snapshot.
    Snapshot,
    /// Purge the log up to an index.
    PurgeLog { upto: u64 },
    /// Hand the leadership over.
    TriggerTransferLeader { to: u64 },
    /// Allow the log of a node to revert once.
    AllowNextRevert { to: u64, allow: bool, tx: u64 },
    /// Install a metrics recorder, or remove it.
    SetMetricsRecorder { recorder: Option<u64> },
    /// Compute the server state anew, if the vote and the membership are the given ones.
    RefreshServerState { vote: Option<Vote>, membership_log_id: Option<LogId> },
}

/// A message of an application to the core of its node.
///
/// A `tx` or a responder names the channel on which the answer is awaited.
pub enum RaftMsg<C: RaftTypeConfig> {
    AppendEntries { rpc: AppendEntriesRequest<C::Payload>, tx: u64 },
    RequestVote { rpc: VoteRequest, tx: u64 },
    /// Would a vote be granted?  No state changes.
    RequestPreVote { rpc: VoteRequest, tx: u64 },
    ClientWrite {
        payloads: Batch<C::Payload>,
        responders: Batch<Option<u64>>,
        expected_leader: Option<LeaderId>,
    },
    GetLinearizer { linearizer_option: LinearizerOption, tx: u64 },
    Initialize { members: BTreeMap<u64, C::Node>, tx: u64 },
    ChangeMembership {
        changes: ChangeMembers<C::Node>,
        payloads: MembershipPayloads<C>,
        /// Whether a voter that leaves stays as a learner.
        retain: bool,
        preconditions: Vec<Precondition>,
        tx: u64,
    },
    /// Append a membership that the caller made, as one log entry.
    AppendMembership { payload: C::Payload, preconditions: Vec<Precondition>, tx: u64 },
    /// Run a function on the state.
    WithRaftState { req: u64 },
    /// The leader hands its leadership over to `to`.
    HandleTransferLeader { from: Vote, to: u64, last_log_id: Option<LogId> },
    ExternalCommand { cmd: ExternalCommand },
}

impl<C: RaftTypeConfig> RaftMsg<C> {
    /// The message in a line.
    ///
    /// `detail` is the text of what an `AppendEntries`, a `GetLinearizer`, an `Initialize`, a
    /// `ChangeMembership` or an `ExternalCommand` carries; the other messages do not use it.
    pub open spec fn text(self, detail: Seq<char>) -> Seq<char> {
        match self {
            RaftMsg::AppendEntries { .. } => "AppendEntries: "@ + detail,
            RaftMsg::RequestVote { rpc, .. } => "RequestVote: "@ + rpc.text(),
            RaftMsg::RequestPreVote { rpc, .. } => "RequestPreVote: "@ + rpc.text(),
            RaftMsg::ClientWrite { .. } => "ClientWrite"@,
            RaftMsg::GetLinearizer { .. } => "GetLinearizer: "@ + detail,
            RaftMsg::Initialize { .. } => "Initialize: "@ + detail,
            RaftMsg::ChangeMembership { retain, preconditions, .. } => "ChangeMembership: "@
                + detail + ", retain: "@ + text::bool_spec(retain) + ", preconditions: "@
                + display::slice_spec(precondition_texts(preconditions@)),
            RaftMsg::AppendMembership { preconditions, .. } =>
            "AppendMembership: preconditions: "@ + display::slice_spec(
                precondition_texts(preconditions@),
            ),
            RaftMsg::WithRaftState { .. } => "WithRaftState"@,
            RaftMsg::HandleTransferLeader { from, to, last_log_id } =>
            "TransferLeader: from_leader: vote="@ + from.text() + ", to: "@ + text::decimal(
                to as nat,
            ) + ", last_log_id: "@ + log_id::opt_log_id_spec(last_log_id),
            RaftMsg::ExternalCommand { .. } => "ExternalCommand: "@ + detail,
        }
    }

    /// The message in a line.
    ///
    /// `detail` is the text of what an `AppendEntries`, a `GetLinearizer`, an `Initialize`, a
    /// `ChangeMembership` or an `ExternalCommand` carries; the other messages do not use it.
    pub fn to_string_with(&self, detail: &str) -> (r: String)
        ensures
            r@ == self.text(detail@),
    {
        match self {
            RaftMsg::AppendEntries { .. } => "AppendEntries: ".to_owned().concat(detail),
            RaftMsg::RequestVote { rpc, .. } => "RequestVote: ".to_owned().concat(
                rpc.to_string().as_str(),
            ),
            RaftMsg::RequestPreVote { rpc, .. } => "RequestPreVote: ".to_owned().concat(
                rpc.to_string().as_str(),
            ),
            RaftMsg::ClientWrite { .. } => "ClientWrite".to_owned(),
            RaftMsg::GetLinearizer { .. } => "GetLinearizer: ".to_owned().concat(detail),
            RaftMsg::Initialize { .. } => "Initialize: ".to_owned().concat(detail),
            RaftMsg::ChangeMembership { retain, preconditions, .. } => {
                let p = preconditions_text(preconditions);
                "ChangeMembership: ".to_owned().concat(detail).concat(", retain: ").concat(
                    text::bool_text(*retain),
                ).concat(", preconditions: ").concat(p.as_str())
            },
            RaftMsg::AppendMembership { preconditions, .. } => {
                let p = preconditions_text(preconditions);
                "AppendMembership: preconditions: ".to_owned().concat(p.as_str())
            },
            RaftMsg::WithRaftState { .. } => "WithRaftState".to_owned(),
            RaftMsg::HandleTransferLeader { from, to, last_log_id } => {
                let f = from.to_string();
                let t = text::u64_text(*to);
                let l = log_id::opt_log_id_text(last_log_id);
                "TransferLeader: from_leader: vote=".to_owned().concat(f.as_str()).concat(
                    ", to: ",
                ).concat(t.as_str()).concat(", last_log_id: ").concat(l.as_str())
            },
            RaftMsg::ExternalCommand { .. } => "ExternalCommand: ".to_owned().concat(detail),
        }
    }
}

} // verus!

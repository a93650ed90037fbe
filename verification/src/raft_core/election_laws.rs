//! When a node stands for election, and when it does not.

use vstd::prelude::*;
use vstd::set_lib::FiniteFull;
use crate::raft_core::action::CoreAction;
use crate::raft_core::handlers::RaftCore;
use crate::raft_core::notification::Notification;
use crate::raft_core::raft_msg::ExternalCommand;
use crate::raft_core::state::{Leased, ServerState};
use crate::time::{Duration, Instant};
use crate::type_config::RaftTypeConfig;

verus! {

/// Whether a node stands in a voter set of the membership in effect.
pub open spec fn votes<C: RaftTypeConfig>(core: RaftCore<C>, id: u64) -> bool {
    let configs = core.engine.state.membership_state.effective.membership.configs@;
    exists|i: int| 0 <= i < configs.len() && (#[trigger] configs[i])@.contains(id)
}

proof fn lemma_votes<C: RaftTypeConfig>(core: RaftCore<C>, id: u64)
    ensures
        core.is_voter_spec() <==> votes(core, core.id),
        votes(core, id)
            <==> core.engine.state.membership_state.effective.membership@.voters().contains(id),
{
    let m = core.engine.state.membership_state.effective.membership;
    assert(m@.configs.len() == m.configs@.len());
    assert forall|i: int| 0 <= i < m.configs@.len() implies #[trigger] m@.configs[i]
        == m.configs@[i]@ by {}
    assert forall|x: u64| votes(core, x) <==> #[trigger] m@.voters().contains(x) by {
        if votes(core, x) {
            let i = choose|i: int| 0 <= i < m.configs@.len() && (#[trigger] m.configs@[i])@.contains(
                x,
            );
            assert(m@.configs[i].contains(x));
        }
        if m@.voters().contains(x) {
            let i = choose|i: int| 0 <= i < m@.configs.len() && (#[trigger] m@.configs[i]).contains(x);
            assert(m.configs@[i]@.contains(x));
        }
    }
    assert(m@.voters().contains(core.id) <==> votes(core, core.id));
    assert(m@.voters().contains(id) <==> votes(core, id));
}

proof fn lemma_several<C: RaftTypeConfig>(core: RaftCore<C>, other: u64)
    requires
        votes(core, core.id),
        votes(core, other),
        other != core.id,
    ensures
        core.engine.state.membership_state.effective.membership@.voters().len() > 1,
{
    lemma_votes(core, core.id);
    lemma_votes(core, other);
    let voters = core.engine.state.membership_state.effective.membership@.voters();
    let pair = Set::<u64>::empty().insert(core.id).insert(other);
    <u64 as FiniteFull>::full_properties();
    vstd::set_lib::lemma_len_subset(voters, Set::<u64>::full());
    vstd::set_lib::lemma_len_subset(pair, voters);
}

proof fn lemma_single<C: RaftTypeConfig>(core: RaftCore<C>)
    requires
        votes(core, core.id),
        forall|id: u64| #[trigger] votes(core, id) ==> id == core.id,
    ensures
        core.engine.state.membership_state.effective.membership@.voters().len() == 1,
{
    let voters = core.engine.state.membership_state.effective.membership@.voters();
    lemma_votes(core, core.id);
    assert forall|id: u64| voters.contains(id) <==> id == core.id by {
        lemma_votes(core, id);
    }
    assert(voters =~= Set::<u64>::empty().insert(core.id));
}

/// One of several voters that does not lead and may elect stands for election once its vote has
/// expired by the election timeout, whether or not it already stands.  It asks for pre-votes first
/// where they are enabled, unless a round of them is younger than the timeout.  A node that has
/// been shown a greater log waits longer.
pub proof fn expired_vote_leads_to_an_election<C: RaftTypeConfig>(
    core: RaftCore<C>,
    now: Instant,
    other: u64,
)
    requires
        core.engine.state.server_state != ServerState::Leader,
        core.runtime_config.enable_elect,
        votes(core, core.id),
        votes(core, other),
        other != core.id,
        core.engine.greater_log ==> core.timer_config.election_timeout.nanos
            + core.timer_config.smaller_log_timeout.nanos <= u128::MAX,
        ({
            let timeout = core.timer_config.election_timeout.nanos + if core.engine.greater_log {
                core.timer_config.smaller_log_timeout.nanos as int
            } else {
                0
            };
            let held = core.engine.state.vote;
            &&& held.last_update matches Some(t) ==> now.nanos > t.nanos + timeout
                + if held.lease_enabled {
                held.lease.nanos as int
            } else {
                0
            }
            &&& core.runtime_config.enable_pre_vote && core.engine.pre_candidate is Some
                ==> now.nanos >= core.engine.pre_candidate->0.starting_time.nanos + timeout
        }),
    ensures
        core.tick_election_actions(now).len() == 2,
        core.tick_election_actions(now)[0] == CoreAction::<C>::ResetGreaterLog,
        core.runtime_config.enable_pre_vote ==> core.tick_election_actions(now)[1]
            == CoreAction::<C>::PreElect,
        !core.runtime_config.enable_pre_vote ==> core.tick_election_actions(now)[1]
            == CoreAction::<C>::Elect,
{
    lemma_votes(core, core.id);
    lemma_several(core, other);
}

/// A single voter that does not lead and may elect stands for election at once, unless it already
/// stands.  It waits for no timeout and asks nobody for a pre-vote.
pub proof fn single_voter_elects_at_once<C: RaftTypeConfig>(core: RaftCore<C>, now: Instant)
    requires
        core.engine.state.server_state != ServerState::Leader,
        core.runtime_config.enable_elect,
        votes(core, core.id),
        forall|id: u64| #[trigger] votes(core, id) ==> id == core.id,
    ensures
        core.engine.candidate is None ==> core.tick_election_actions(now) == seq![
            CoreAction::<C>::ResetGreaterLog,
            CoreAction::<C>::Elect,
        ],
        core.engine.candidate is Some ==> core.tick_election_actions(now).len() == 0,
{
    lemma_votes(core, core.id);
    lemma_single(core);
}

/// A tick that makes a node stand for election found a voter that does not lead and may elect.
/// Where there are other voters, its vote had expired by the election timeout and no round of
/// pre-votes was younger; where there are none, it did not stand yet.
pub proof fn elections_have_a_reason<C: RaftTypeConfig>(
    core: RaftCore<C>,
    now: Instant,
    other: u64,
)
    requires
        core.engine.greater_log ==> core.timer_config.election_timeout.nanos
            + core.timer_config.smaller_log_timeout.nanos <= u128::MAX,
        core.tick_election_actions(now).len() > 0,
    ensures
        core.engine.state.server_state != ServerState::Leader,
        core.runtime_config.enable_elect,
        votes(core, core.id),
        ({
            let timeout = core.timer_config.election_timeout.nanos + if core.engine.greater_log {
                core.timer_config.smaller_log_timeout.nanos as int
            } else {
                0
            };
            let held = core.engine.state.vote;
            votes(core, other) && other != core.id ==> {
                &&& held.last_update matches Some(t) ==> now.nanos > t.nanos + timeout
                    + if held.lease_enabled {
                    held.lease.nanos as int
                } else {
                    0
                }
                &&& core.runtime_config.enable_pre_vote && core.engine.pre_candidate is Some
                    ==> now.nanos >= core.engine.pre_candidate->0.starting_time.nanos + timeout
            }
        }),
        (forall|id: u64| #[trigger] votes(core, id) ==> id == core.id)
            ==> core.engine.candidate is None,
{
    lemma_votes(core, core.id);
    if votes(core, other) && other != core.id {
        lemma_several(core, other);
    }
    if forall|id: u64| #[trigger] votes(core, id) ==> id == core.id {
        lemma_single(core);
    }
}

/// A node that stands for election now would also stand later, as long as nothing but the time
/// changes.
pub proof fn elections_do_not_lapse<C: RaftTypeConfig>(
    core: RaftCore<C>,
    now: Instant,
    later: Instant,
)
    requires
        now.nanos <= later.nanos,
        core.tick_election_actions(now).len() > 0,
    ensures
        core.tick_election_actions(later) == core.tick_election_actions(now),
{
}

/// A tick checks the election timer, then the heartbeat timer with the same time, and nothing
/// else; it changes nothing by itself.
pub proof fn tick_checks_both_timers<C: RaftTypeConfig>(
    core: RaftCore<C>,
    new: RaftCore<C>,
    now: Instant,
    i: u64,
)
    requires
        core.after_notification(now, Notification::Tick { i }, new),
    ensures
        ({
            let actions = core.notification_actions(now, Notification::Tick { i });
            &&& actions.len() > 0
            &&& actions.last() == (CoreAction::<C>::TickHeartbeat { now })
            &&& actions.drop_last() =~= core.tick_election_actions(now)
        }),
        new == core,
        RaftCore::<C>::notification_error(Notification::Tick { i }) is None,
{
}

/// A command makes a voter that does not lead stand for election, whatever its timers and settings
/// say, and asks for pre-votes exactly if the command says so.  A leader and a learner ignore it.
pub proof fn commanded_election_needs_a_voter<C: RaftTypeConfig>(core: RaftCore<C>, pre_vote: bool)
    ensures
        ({
            let actions = core.external_actions(ExternalCommand::Elect { pre_vote });
            &&& core.engine.leader is None && votes(core, core.id) && pre_vote ==> actions == seq![
                CoreAction::<C>::PreElect,
            ]
            &&& core.engine.leader is None && votes(core, core.id) && !pre_vote ==> actions == seq![
                CoreAction::<C>::Elect,
            ]
            &&& core.engine.leader is Some || !votes(core, core.id) ==> actions.len() == 0
        }),
{
    lemma_votes(core, core.id);
}

/// A vote binds through its lease and the timeout after it, to the last nanosecond, and not a
/// nanosecond longer.  Without a lease, only the timeout counts.  A vote that was never updated
/// does not bind.
pub proof fn vote_binds_through_its_lease(held: Leased, timeout: Duration, now: Instant)
    ensures
        held.last_update is None ==> held.expired(now, timeout),
        held.last_update matches Some(t) && held.lease_enabled && now.nanos <= t.nanos
            + held.lease.nanos + timeout.nanos ==> !held.expired(now, timeout),
        held.last_update matches Some(t) && held.lease_enabled && now.nanos >= t.nanos
            + held.lease.nanos + timeout.nanos + 1 ==> held.expired(now, timeout),
        held.last_update matches Some(t) && !held.lease_enabled && now.nanos <= t.nanos
            + timeout.nanos ==> !held.expired(now, timeout),
        held.last_update matches Some(t) && !held.lease_enabled && now.nanos >= t.nanos
            + timeout.nanos + 1 ==> held.expired(now, timeout),
{
}

/// A tick can be handled unless this node may stand for election, has been shown a greater log, and waits
/// for longer than can be represented.
pub proof fn ticks_that_cannot_be_handled<C: RaftTypeConfig>(core: RaftCore<C>, r: bool)
    requires
        call_ensures(RaftCore::<C>::can_tick, (&core,), r),
    ensures
        !r <==> core.engine.state.server_state != ServerState::Leader && votes(
            core,
            core.id,
        ) && core.runtime_config.enable_elect && core.engine.greater_log
            && core.timer_config.election_timeout.nanos
            + core.timer_config.smaller_log_timeout.nanos > u128::MAX,
{
    lemma_votes(core, core.id);
}

} // verus!

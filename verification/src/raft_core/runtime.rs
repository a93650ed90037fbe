//! The event loop of a node.

use vstd::prelude::*;
use crate::errors::Fatal;
use crate::raft_core::action::{Condition, CoreAction};
use crate::raft_core::dispatch::InstallFullSnapshotRequest;
use crate::raft_core::handlers::RaftCore;
use crate::raft_core::notification::Notification;
use crate::raft_core::state::RaftState;
use crate::seqs;
use crate::time::Instant;
use crate::type_config::RaftTypeConfig;

verus! {

/// Which channels of a node have something to receive.
#[derive(Clone, Copy, Debug, PartialEq, Eq, Structural)]
pub struct ReadyChannels {
    pub shutdown: bool,
    pub notification: bool,
    pub install_snapshot: bool,
    pub api: bool,
}

/// A channel of a node.
#[derive(Clone, Copy, Debug, PartialEq, Eq, Structural)]
pub enum Channel {
    Shutdown,
    Notification,
    InstallSnapshot,
    Api,
}

/// The channel to receive from: the request to shut down comes before everything else, so that a
/// flood of messages does not hold it up.
pub fn select_channel(ready: &ReadyChannels) -> (r: Option<Channel>)
    ensures
        r == (if ready.shutdown {
            Some(Channel::Shutdown)
        } else if ready.notification {
            Some(Channel::Notification)
        } else if ready.install_snapshot {
            Some(Channel::InstallSnapshot)
        } else if ready.api {
            Some(Channel::Api)
        } else {
            None
        }),
{
    if ready.shutdown {
        Some(Channel::Shutdown)
    } else if ready.notification {
        Some(Channel::Notification)
    } else if ready.install_snapshot {
        Some(Channel::InstallSnapshot)
    } else if ready.api {
        Some(Channel::Api)
    } else {
        None
    }
}

/// What was received.  A channel whose senders are gone gives nothing.
pub enum LoopEvent<C: RaftTypeConfig> {
    Shutdown,
    Notification(Option<Notification<C>>),
    InstallSnapshot(Option<InstallFullSnapshotRequest<C::Node>>),
    /// Whether messages of the application are buffered; if not, the channel is closed.
    Api(bool),
}

/// What is done in a round of the event loop, in this order.
#[derive(Clone, Copy, Debug, PartialEq, Eq, Structural)]
pub enum LoopStep {
    FlushMetrics,
    /// Wait for an event and handle it.
    HandleEvent,
    RunCommands,
    ProcessMessages,
    ProcessNotifications,
    Rebalance,
    RoutineActions,
    RunCommandsAgain,
}

impl LoopStep {
    /// The step after this one.
    pub open spec fn next_spec(self) -> LoopStep {
        match self {
            LoopStep::FlushMetrics => LoopStep::HandleEvent,
            LoopStep::HandleEvent => LoopStep::RunCommands,
            LoopStep::RunCommands => LoopStep::ProcessMessages,
            LoopStep::ProcessMessages => LoopStep::ProcessNotifications,
            LoopStep::ProcessNotifications => LoopStep::Rebalance,
            LoopStep::Rebalance => LoopStep::RoutineActions,
            LoopStep::RoutineActions => LoopStep::RunCommandsAgain,
            LoopStep::RunCommandsAgain => LoopStep::FlushMetrics,
        }
    }

    /// The step after this one.
    pub fn next(self) -> (r: LoopStep)
        ensures
            r == self.next_spec(),
    {
        match self {
            LoopStep::FlushMetrics => LoopStep::HandleEvent,
            LoopStep::HandleEvent => LoopStep::RunCommands,
            LoopStep::RunCommands => LoopStep::ProcessMessages,
            LoopStep::ProcessMessages => LoopStep::ProcessNotifications,
            LoopStep::ProcessNotifications => LoopStep::Rebalance,
            LoopStep::Rebalance => LoopStep::RoutineActions,
            LoopStep::RoutineActions => LoopStep::RunCommandsAgain,
            LoopStep::RunCommandsAgain => LoopStep::FlushMetrics,
        }
    }
}

/// How the shares of messages and notifications in a round change.
#[derive(Clone, Copy, Debug, PartialEq, Eq, Structural)]
pub enum Rebalance {
    Keep,
    IncreaseNotification,
    IncreaseRaftMsg,
}

/// Where a round used up its share of one kind, that share is increased; notifications come first.
pub fn rebalance(
    raft_msg_processed: u64,
    raft_msg_budget: u64,
    notify_processed: u64,
    notify_budget: u64,
) -> (r: Rebalance)
    ensures
        r == (if notify_processed == notify_budget {
            Rebalance::IncreaseNotification
        } else if raft_msg_processed == raft_msg_budget {
            Rebalance::IncreaseRaftMsg
        } else {
            Rebalance::Keep
        }),
{
    if notify_processed == notify_budget {
        Rebalance::IncreaseNotification
    } else if raft_msg_processed == raft_msg_budget {
        Rebalance::IncreaseRaftMsg
    } else {
        Rebalance::Keep
    }
}

impl<C: RaftTypeConfig> RaftCore<C> {
    /// Handle what the event loop received.
    ///
    /// A request to shut down, and a channel whose senders are gone, stop the node.
    pub fn runtime_loop(&mut self, now: Instant, event: LoopEvent<C>) -> (r: Result<
        Vec<CoreAction<C>>,
        Fatal<C>,
    >)
        requires
            event matches LoopEvent::Notification(Some(n)) ==> (n is Tick ==> old(
                self,
            ).election_times_fit()),
        ensures
            match event {
                LoopEvent::Shutdown => r == Err::<Vec<CoreAction<C>>, Fatal<C>>(Fatal::Stopped)
                    && *final(self) == *old(self),
                LoopEvent::Notification(None) => r == Err::<Vec<CoreAction<C>>, Fatal<C>>(
                    Fatal::Stopped,
                ) && *final(self) == *old(self),
                LoopEvent::Notification(Some(n)) => {
                    &&& old(self).after_notification(now, n, *final(self))
                    &&& match r {
                        Ok(actions) => {
                            &&& Self::notification_error(n) is None
                            &&& actions@ == old(self).notification_actions(now, n)
                        },
                        Err(e) => Self::notification_error(n) == Some(e),
                    }
                },
                LoopEvent::InstallSnapshot(None) => r == Err::<Vec<CoreAction<C>>, Fatal<C>>(
                    Fatal::Stopped,
                ) && *final(self) == *old(self),
                LoopEvent::InstallSnapshot(Some(req)) => {
                    &&& *final(self) == *old(self)
                    &&& r is Ok
                    &&& r->Ok_0@ == seq![
                        CoreAction::<C>::InstallSnapshot {
                            vote: req.vote,
                            snapshot: req.snapshot,
                            tx: req.tx,
                        },
                    ]
                },
                LoopEvent::Api(buffered) => {
                    &&& *final(self) == *old(self)
                    &&& if buffered {
                        r is Ok && r->Ok_0@ == Seq::<CoreAction<C>>::empty()
                    } else {
                        r == Err::<Vec<CoreAction<C>>, Fatal<C>>(Fatal::Stopped)
                    }
                },
            },
    {
        match event {
            LoopEvent::Shutdown => Err(Fatal::Stopped),
            LoopEvent::Notification(notify) => match notify {
                Some(notify) => self.handle_notification(now, notify),
                None => Err(Fatal::Stopped),
            },
            LoopEvent::InstallSnapshot(req) => match req {
                Some(req) => Ok(self.handle_install_full_snapshot_request(req)),
                None => Err(Fatal::Stopped),
            },
            LoopEvent::Api(buffered) => {
                if buffered {
                    Ok(Vec::new())
                } else {
                    Err(Fatal::Stopped)
                }
            },
        }
    }
}

/// How many log entries may be written before the commands are run.
pub const RUN_COMMAND_THRESHOLD: u64 = 64;

/// How many notifications may be handled before the commands are run.
pub const BATCH_FLUSH_THRESHOLD: u64 = 16;

/// The messages that are handled in one round.
#[derive(Clone, Copy, Debug, PartialEq, Eq, Structural)]
pub struct MessageBatch {
    pub at_most: u64,
    /// How many messages have been handled.
    pub total: u64,
    /// The next log index when the commands were last run.
    pub last_log_index: u64,
}

impl MessageBatch {
    /// Whether no more messages than allowed were handled.
    pub open spec fn wf(self) -> bool {
        self.total <= self.at_most
    }

    /// A round that handles at most the given number of messages.
    pub fn new(at_most: u64) -> (r: MessageBatch)
        ensures
            r == (MessageBatch { at_most, total: 0, last_log_index: 0 }),
            r.wf(),
    {
        MessageBatch { at_most, total: 0, last_log_index: 0 }
    }

    /// Whether another message may be handled.
    pub fn wants_more(&self) -> (r: bool)
        requires
            self.wf(),
        ensures
            r == (self.total < self.at_most),
    {
        self.total < self.at_most
    }

    /// A message was handled and `next_index` is the next log index now.  The commands are run if
    /// enough entries were written since they were last run.
    pub fn process_raft_msg(&mut self, next_index: u64) -> (run_commands: bool)
        requires
            old(self).wf(),
            old(self).total < old(self).at_most,
        ensures
            final(self).wf(),
            final(self).at_most == old(self).at_most,
            final(self).total == old(self).total + 1,
            run_commands == (next_index - old(self).last_log_index >= RUN_COMMAND_THRESHOLD),
            final(self).last_log_index == (if run_commands {
                next_index
            } else {
                old(self).last_log_index
            }),
    {
        self.total = self.total + 1;
        if next_index.saturating_sub(self.last_log_index) >= RUN_COMMAND_THRESHOLD {
            self.last_log_index = next_index;
            true
        } else {
            false
        }
    }
}

/// The notifications that are handled in one round.
#[derive(Clone, Copy, Debug, PartialEq, Eq, Structural)]
pub struct NotificationBatch {
    pub at_most: u64,
    /// How many notifications have been handled.
    pub processed: u64,
    /// How many of them since the commands were last run.
    pub since_last_flush: u64,
}

impl NotificationBatch {
    /// Whether no more notifications than allowed were handled, and the commands were run in time.
    pub open spec fn wf(self) -> bool {
        &&& self.processed <= self.at_most
        &&& self.since_last_flush <= self.processed
        &&& self.since_last_flush < BATCH_FLUSH_THRESHOLD
    }

    /// A round that handles at most the given number of notifications.
    pub fn new(at_most: u64) -> (r: NotificationBatch)
        ensures
            r == (NotificationBatch { at_most, processed: 0, since_last_flush: 0 }),
            r.wf(),
    {
        NotificationBatch { at_most, processed: 0, since_last_flush: 0 }
    }

    /// Whether another notification may be handled.
    pub fn wants_more(&self) -> (r: bool)
        requires
            self.wf(),
        ensures
            r == (self.processed < self.at_most),
    {
        self.processed < self.at_most
    }

    /// A notification was handled.  The commands are run after every sixteenth.
    pub fn process_notification(&mut self) -> (run_commands: bool)
        requires
            old(self).wf(),
            old(self).processed < old(self).at_most,
        ensures
            final(self).wf(),
            final(self).at_most == old(self).at_most,
            final(self).processed == old(self).processed + 1,
            run_commands == (old(self).since_last_flush + 1 >= BATCH_FLUSH_THRESHOLD),
            final(self).since_last_flush == (if run_commands {
                0
            } else {
                old(self).since_last_flush + 1
            }),
    {
        self.processed = self.processed + 1;
        self.since_last_flush = self.since_last_flush + 1;
        if self.since_last_flush >= BATCH_FLUSH_THRESHOLD {
            self.since_last_flush = 0;
            true
        } else {
            false
        }
    }

    /// Whether the commands have to be run at the end of the round.
    pub fn flush_at_end(&self) -> (r: bool)
        ensures
            r == (self.since_last_flush > 0),
    {
        self.since_last_flush > 0
    }
}

/// What came of the command at the front of the queue.
#[derive(Clone, Copy, Debug, PartialEq, Eq, Structural)]
pub enum CommandResult {
    /// The queue is empty.
    NoCommand,
    /// It was run.
    Executed,
    /// It could not be run, and was set aside.
    SetAside,
    /// It could not be run, and stands at the front of the queue again.
    PutBack,
}

/// Whether the next command of the queue is tried.  A command that stands in the way ends the round;
/// then the commands that progress of the writes has made are run.
pub fn run_engine_commands(result: CommandResult) -> (next: bool)
    ensures
        next == (result == CommandResult::Executed || result == CommandResult::SetAside),
{
    match result {
        CommandResult::NoCommand => false,
        CommandResult::Executed => true,
        CommandResult::SetAside => true,
        CommandResult::PutBack => false,
    }
}

/// An answer that waits for its condition.
#[derive(Clone, Copy, Debug, PartialEq, Eq, Structural)]
pub struct PendingRespond {
    pub condition: Condition,
    pub respond: u64,
}

/// The answers whose condition is met.
pub open spec fn is_satisfied<N>(state: RaftState<N>) -> spec_fn(PendingRespond) -> bool {
    |p: PendingRespond| p.condition.met(state)
}

/// The answers whose condition is not met.
pub open spec fn is_waiting<N>(state: RaftState<N>) -> spec_fn(PendingRespond) -> bool {
    |p: PendingRespond| !p.condition.met(state)
}

/// Take out the answers whose condition is met, to be sent.
pub fn send_satisfied_responds<N>(state: &RaftState<N>, pending: &mut Vec<PendingRespond>) -> (r:
    Vec<PendingRespond>)
    ensures
        r@ == seqs::keep_if(old(pending)@, is_satisfied(*state)),
        final(pending)@ == seqs::keep_if(old(pending)@, is_waiting(*state)),
{
    let mut out: Vec<PendingRespond> = Vec::new();
    let mut kept: Vec<PendingRespond> = Vec::new();
    let ghost all = pending@;
    let mut i: usize = 0;
    while i < pending.len()
        invariant
            i <= pending.len(),
            all == pending@,
            out@ == seqs::keep_if(all.take(i as int), is_satisfied(*state)),
            kept@ == seqs::keep_if(all.take(i as int), is_waiting(*state)),
        decreases pending.len() - i,
    {
        let x = pending[i];
        proof {
            assert(all.take(i + 1) =~= all.take(i as int).push(x));
            seqs::keep_if_push(all.take(i as int), x, is_satisfied(*state));
            seqs::keep_if_push(all.take(i as int), x, is_waiting(*state));
        }
        if x.condition.is_met(state) {
            out.push(x);
        } else {
            kept.push(x);
        }
        i = i + 1;
    }
    assert(all.take(all.len() as int) =~= all);
    *pending = kept;
    out
}

/// A round runs through eight steps and begins anew: the metrics are flushed before an event is
/// waited for, the commands are run before messages and notifications are taken, and once more at
/// the end.
pub proof fn rounds_begin_anew(s: LoopStep, t: LoopStep)
    ensures
        s.next_spec().next_spec().next_spec().next_spec().next_spec().next_spec().next_spec().next_spec()
            == s,
        s != t ==> s.next_spec() != t.next_spec(),
        LoopStep::FlushMetrics.next_spec() == LoopStep::HandleEvent,
        LoopStep::HandleEvent.next_spec() == LoopStep::RunCommands,
        LoopStep::RunCommands.next_spec() == LoopStep::ProcessMessages,
        LoopStep::ProcessMessages.next_spec() == LoopStep::ProcessNotifications,
        LoopStep::ProcessNotifications.next_spec() == LoopStep::Rebalance,
        LoopStep::Rebalance.next_spec() == LoopStep::RoutineActions,
        LoopStep::RoutineActions.next_spec() == LoopStep::RunCommandsAgain,
        LoopStep::RunCommandsAgain.next_spec() == LoopStep::FlushMetrics,
{
}

/// An answer is sent exactly if its condition is met, and waits exactly if it is not; together these
/// are all answers.
pub proof fn answers_wait_for_their_conditions<N>(
    state: RaftState<N>,
    pending: Seq<PendingRespond>,
    p: PendingRespond,
)
    ensures
        seqs::keep_if(pending, is_satisfied(state)).contains(p) <==> pending.contains(p)
            && p.condition.met(state),
        seqs::keep_if(pending, is_waiting(state)).contains(p) <==> pending.contains(p)
            && !p.condition.met(state),
        seqs::keep_if(pending, is_satisfied(state)).len() + seqs::keep_if(
            pending,
            is_waiting(state),
        ).len() == pending.len(),
{
    seqs::keep_if_contains(pending, is_satisfied(state), p);
    seqs::keep_if_contains(pending, is_waiting(state), p);
    seqs::keep_if_splits(pending, is_satisfied(state), is_waiting(state));
}

/// A round of messages handles no more than allowed, one of notifications neither, and the latter
/// never goes sixteen notifications without the commands being run.
pub proof fn rounds_are_bounded(m: MessageBatch, n: NotificationBatch)
    ensures
        m.wf() <==> m.total <= m.at_most,
        n.wf() ==> n.processed <= n.at_most && n.since_last_flush < 16,
        n.processed <= n.at_most && n.since_last_flush <= n.processed && n.since_last_flush < 16
            ==> n.wf(),
        RUN_COMMAND_THRESHOLD == 64,
{
}

/// A request to shut down is received before everything else, then notifications, snapshots and
/// messages, in this order; nothing is where no channel is ready.
pub proof fn shutdown_comes_first(ready: ReadyChannels, r: Option<Channel>)
    requires
        call_ensures(select_channel, (&ready,), r),
    ensures
        ready.shutdown ==> r == Some(Channel::Shutdown),
        !ready.shutdown && ready.notification ==> r == Some(Channel::Notification),
        !ready.shutdown && !ready.notification && ready.install_snapshot ==> r == Some(
            Channel::InstallSnapshot,
        ),
        r == Some(Channel::Api) <==> ready.api && !ready.shutdown && !ready.notification
            && !ready.install_snapshot,
        r is None <==> !ready.shutdown && !ready.notification && !ready.install_snapshot
            && !ready.api,
{
}

/// A share that a round used up is increased, that of the notifications before that of the messages;
/// where neither was used up both stay.
pub proof fn used_up_shares_are_increased(
    raft_msg_processed: u64,
    raft_msg_budget: u64,
    notify_processed: u64,
    notify_budget: u64,
    r: Rebalance,
)
    requires
        call_ensures(
            rebalance,
            (raft_msg_processed, raft_msg_budget, notify_processed, notify_budget),
            r,
        ),
    ensures
        r == Rebalance::IncreaseNotification <==> notify_processed == notify_budget,
        r == Rebalance::IncreaseRaftMsg <==> raft_msg_processed == raft_msg_budget
            && notify_processed != notify_budget,
        r == Rebalance::Keep <==> raft_msg_processed != raft_msg_budget && notify_processed
            != notify_budget,
{
}

/// What the event loop receives is handled, or stops the node: a request to shut down does, and a
/// channel whose senders are gone.  A snapshot is installed as it came; messages are only buffered.
pub proof fn loop_calls<C: RaftTypeConfig>(
    core: &mut RaftCore<C>,
    now: Instant,
    event: LoopEvent<C>,
    r: Result<Vec<CoreAction<C>>, Fatal<C>>,
)
    requires
        call_ensures(RaftCore::<C>::runtime_loop, (core, now, event), r),
    ensures
        event is Shutdown || (event matches LoopEvent::Notification(n) && n is None) || (
        event matches LoopEvent::InstallSnapshot(q) && q is None) || (event matches LoopEvent::Api(b)
            && !b) ==> r == Err::<Vec<CoreAction<C>>, Fatal<C>>(Fatal::Stopped) && *final(core)
            == *old(core),
        event matches LoopEvent::Notification(Some(n)) ==> {
            &&& old(core).after_notification(now, n, *final(core))
            &&& r matches Ok(actions) ==> actions@ == old(core).notification_actions(now, n)
            &&& r matches Err(e) ==> RaftCore::<C>::notification_error(n) == Some(e)
            &&& r is Err <==> RaftCore::<C>::notification_error(n) is Some
        },
        event matches LoopEvent::InstallSnapshot(Some(q)) ==> {
            &&& *final(core) == *old(core)
            &&& r matches Ok(actions)
            &&& actions@ == seq![
                CoreAction::<C>::InstallSnapshot { vote: q.vote, snapshot: q.snapshot, tx: q.tx },
            ]
        },
        event matches LoopEvent::Api(true) ==> *final(core) == *old(core) && (r matches Ok(actions)
            && actions@.len() == 0),
{
}

/// A handled message counts once.  The commands are run as soon as sixty-four entries were written
/// since they were last run, and the count of entries begins anew then only.
pub proof fn message_calls(b: &mut MessageBatch, next_index: u64, more: bool, r: bool, at_most: u64, n: MessageBatch)
    ensures
        call_ensures(MessageBatch::new, (at_most,), n) ==> n.at_most == at_most && n.total == 0
            && n.last_log_index == 0,
        call_ensures(MessageBatch::wants_more, (&n,), more) ==> (more <==> n.total < n.at_most),
        call_ensures(MessageBatch::process_raft_msg, (b, next_index), r) ==> {
            &&& final(b).total == old(b).total + 1
            &&& final(b).at_most == old(b).at_most
            &&& r <==> next_index >= old(b).last_log_index + 64
            &&& r ==> final(b).last_log_index == next_index
            &&& !r ==> final(b).last_log_index == old(b).last_log_index
        },
{
}

/// A handled notification counts once.  The commands are run after the sixteenth since they were last
/// run, and at the end of a round if any was handled since.
pub proof fn notification_calls(b: &mut NotificationBatch, more: bool, r: bool, at_most: u64, n: NotificationBatch)
    ensures
        call_ensures(NotificationBatch::new, (at_most,), n) ==> n.at_most == at_most && n.processed
            == 0 && n.since_last_flush == 0,
        call_ensures(NotificationBatch::wants_more, (&n,), more) ==> (more <==> n.processed
            < n.at_most),
        call_ensures(NotificationBatch::flush_at_end, (&n,), more) ==> (more <==> n.since_last_flush
            > 0),
        call_ensures(NotificationBatch::process_notification, (b,), r) ==> {
            &&& final(b).processed == old(b).processed + 1
            &&& final(b).at_most == old(b).at_most
            &&& r <==> old(b).since_last_flush >= 15
            &&& r ==> final(b).since_last_flush == 0
            &&& !r ==> final(b).since_last_flush == old(b).since_last_flush + 1
        },
{
}

/// The next command is tried after one that was run or set aside, and not after one that stands in
/// the way or where there is none.  Answers are sent once their conditions are met.
pub proof fn queue_calls<N>(
    result: CommandResult,
    next: bool,
    state: RaftState<N>,
    pending: &mut Vec<PendingRespond>,
    sent: Vec<PendingRespond>,
)
    ensures
        call_ensures(run_engine_commands, (result,), next) ==> (next <==> result
            != CommandResult::NoCommand && result != CommandResult::PutBack),
        call_ensures(send_satisfied_responds::<N>, (&state, pending), sent) ==> sent@
            == seqs::keep_if(old(pending)@, |p: PendingRespond| p.condition.met(state)) && final(pending)@ == seqs::keep_if(old(pending)@, |p: PendingRespond| !p.condition.met(state)),
{
    assert(is_satisfied(state) =~= |p: PendingRespond| p.condition.met(state));
    assert(is_waiting(state) =~= |p: PendingRespond| !p.condition.met(state));
}

} // verus!

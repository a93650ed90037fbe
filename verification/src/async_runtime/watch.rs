//! The watch channel: a value that senders set and receivers wait for.
//!
//! A channel keeps the latest value only.  Each receiver remembers which version of the value it
//! has seen, and is woken when there is a newer one.  A task that waits is known by a number, its
//! waker.  The senders and receivers of a channel are handles on one [`Shared`].

use vstd::prelude::*;
use vstd::pervasive::cloned;
use crate::log_id::LogId;
use crate::log_id;
use crate::vote::IOId;

verus! {

/// A value that can be compared.
pub trait WatchValue: Sized {
    /// Whether this value is greater than another.
    spec fn greater(&self, other: &Self) -> bool;

    /// What is greater than a greater value is greater.
    proof fn greater_is_transitive(a: Self, b: Self, c: Self)
        ensures
            a.greater(&b) && b.greater(&c) ==> a.greater(&c),
    ;

    /// Whether this value is not the other.
    fn differs_from(&self, other: &Self) -> (r: bool)
        ensures
            r == (*self != *other),
    ;

    /// Whether this value is greater than another.
    fn is_greater_than(&self, other: &Self) -> (r: bool)
        ensures
            r == self.greater(other),
    ;
}

impl WatchValue for u64 {
    open spec fn greater(&self, other: &u64) -> bool {
        *self > *other
    }

    proof fn greater_is_transitive(a: u64, b: u64, c: u64) {
    }

    fn differs_from(&self, other: &u64) -> (r: bool) {
        *self != *other
    }

    fn is_greater_than(&self, other: &u64) -> (r: bool) {
        *self > *other
    }
}

impl WatchValue for Option<LogId> {
    open spec fn greater(&self, other: &Option<LogId>) -> bool {
        !log_id::opt_at_most(*self, *other)
    }

    proof fn greater_is_transitive(a: Option<LogId>, b: Option<LogId>, c: Option<LogId>) {
    }

    fn differs_from(&self, other: &Option<LogId>) -> (r: bool) {
        match (self, other) {
            (Some(a), Some(b)) => *a != *b,
            (None, None) => false,
            _ => true,
        }
    }

    fn is_greater_than(&self, other: &Option<LogId>) -> (r: bool) {
        !log_id::opt_is_at_most(self, other)
    }
}

impl WatchValue for IOId {
    open spec fn greater(&self, other: &IOId) -> bool {
        !self.at_most(*other)
    }

    proof fn greater_is_transitive(a: IOId, b: IOId, c: IOId) {
    }

    fn differs_from(&self, other: &IOId) -> (r: bool) {
        *self != *other
    }

    fn is_greater_than(&self, other: &IOId) -> (r: bool) {
        !self.is_at_most(other)
    }
}

/// Wakers by the ids of the receivers that wait.
#[verifier::external_body]
pub struct WakerTable {
    map: rapidhash::RapidHashMap<usize, u64>,
}

/// What a waker table holds.
pub uninterp spec fn table_wakers(table: WakerTable) -> Map<usize, u64>;

/// `rapidhash::HashMapExt::new`: a table that holds nothing.
#[verifier::external_body]
fn table_new() -> (r: WakerTable)
    ensures
        table_wakers(r).is_empty(),
{
    WakerTable { map: rapidhash::HashMapExt::new() }
}

/// `insert` on a `rapidhash::RapidHashMap`: the value for a key is set.
#[verifier::external_body]
fn table_insert(table: &mut WakerTable, id: usize, waker: u64)
    ensures
        table_wakers(*final(table)) == table_wakers(*old(table)).insert(id, waker),
{
    table.map.insert(id, waker);
}

/// `remove` on a `rapidhash::RapidHashMap`: there is no value for the key any more.
#[verifier::external_body]
fn table_remove(table: &mut WakerTable, id: usize)
    ensures
        table_wakers(*final(table)) == table_wakers(*old(table)).remove(id),
{
    table.map.remove(&id);
}

/// Whether `keys` lists the keys of a map once each, and `wakers` the values in that order.
pub open spec fn lists_values(keys: Seq<usize>, wakers: Seq<u64>, map: Map<usize, u64>) -> bool {
    &&& keys.no_duplicates()
    &&& keys.to_set() == map.dom()
    &&& wakers == keys.map_values(|k: usize| map[k])
}

/// Whether `wakers` are the values of a map, one for each key, in some order.
pub open spec fn values_in_some_order(wakers: Seq<u64>, map: Map<usize, u64>) -> bool {
    exists|keys: Seq<usize>| lists_values(keys, wakers, map)
}

/// `drain` on a `rapidhash::RapidHashMap`: every value is handed out, one for each key, in an order
/// that is not fixed, and the table holds nothing any more.
#[verifier::external_body]
fn table_drain(table: &mut WakerTable) -> (r: Vec<u64>)
    ensures
        values_in_some_order(r@, table_wakers(*old(table))),
        table_wakers(*final(table)).is_empty(),
{
    table.map.drain().map(|x| x.1).collect()
}

impl View for WakerTable {
    type V = Map<usize, u64>;

    open spec fn view(&self) -> Map<usize, u64> {
        table_wakers(*self)
    }
}

/// A value that was not sent because there is no receiver.
#[derive(Debug)]
pub struct SendError<T>(pub T);

/// What the senders and receivers of a channel share.
pub struct Shared<T> {
    pub value: T,
    /// Counts the values; the first one has version 1.
    pub version: u64,
    /// Whether the senders are gone.
    pub closed: bool,
    pub tx_count: usize,
    pub rx_count: usize,
    pub wakers: WakerTable,
    pub next_waker_id: usize,
}

impl<T: WatchValue> Shared<T> {
    /// Whether `new` holds the value of this channel or a greater one.
    pub open spec fn kept_or_raised(self, new: Self) -> bool {
        new.value == self.value || new.value.greater(&self.value)
    }
}

impl<T> Shared<T> {
    /// Whether `new` is this channel with a new value: the version counts it, and every waker that
    /// was registered is in `wake`.
    pub open spec fn sent(self, value: T, new: Self, wake: Seq<u64>) -> bool {
        &&& new == (Shared {
            value,
            version: self.version.wrapping_add(1),
            wakers: new.wakers,
            ..self
        })
        &&& new.wakers@.is_empty()
        &&& values_in_some_order(wake, self.wakers@)
    }

    /// What a receiver that waits for a change is told.
    pub open spec fn changed_spec(self, rx: WatchReceiver) -> PollChanged {
        if rx.seen_version < self.version {
            PollChanged::Ready
        } else if self.closed {
            PollChanged::Closed
        } else {
            PollChanged::Pending
        }
    }

    /// Whether `new` is this channel with the waker of a receiver registered.
    pub open spec fn registered(self, rx: WatchReceiver, waker: u64, new: Self) -> bool {
        &&& new.wakers@ == self.wakers@.insert(rx.waker_id, waker)
        &&& new == (Shared { wakers: new.wakers, ..self })
    }

    /// Whether `new` is this channel without the waker of a receiver.
    pub open spec fn unregistered(self, rx: WatchReceiver, new: Self) -> bool {
        &&& new.wakers@ == self.wakers@.remove(rx.waker_id)
        &&& new == (Shared { wakers: new.wakers, ..self })
    }
}

/// A look at the value of a channel.
#[derive(Debug)]
pub struct Ref<'a, T> {
    pub inner: &'a T,
}

impl<'a, T> Ref<'a, T> {
    /// The value.
    pub fn deref(&self) -> (r: &T)
        ensures
            *r == *self.inner,
    {
        self.inner
    }
}

/// Creates a channel with a sender and a receiver that has seen the first value.
pub fn channel<T>(init: T) -> (r: (Shared<T>, WatchSender, WatchReceiver))
    ensures
        r.0 == (Shared {
            value: init,
            version: 1,
            closed: false,
            tx_count: 1,
            rx_count: 1,
            wakers: r.0.wakers,
            next_waker_id: 1,
        }),
        r.0.wakers@.is_empty(),
        r.2 == (WatchReceiver { seen_version: 1, waker_id: 0 }),
{
    let shared = Shared {
        value: init,
        version: 1,
        closed: false,
        tx_count: 1,
        rx_count: 1,
        wakers: table_new(),
        next_waker_id: 1,
    };
    (shared, WatchSender, WatchReceiver { seen_version: 1, waker_id: 0 })
}

/// A handle that sets the value of a channel.
#[derive(Debug)]
pub struct WatchSender;

impl WatchSender {
    /// Another sender.
    pub fn clone_in<T>(&self, shared: &mut Shared<T>) -> (r: WatchSender)
        requires
            old(shared).tx_count < usize::MAX,
        ensures
            *final(shared) == (Shared {
                tx_count: (old(shared).tx_count + 1) as usize,
                ..*old(shared)
            }),
    {
        shared.tx_count = shared.tx_count + 1;
        WatchSender
    }

    /// Set a new value and hand out the wakers to wake.  Without a receiver the value comes back
    /// and nothing changes.
    pub fn send<T>(&self, shared: &mut Shared<T>, value: T) -> (r: Result<Vec<u64>, SendError<T>>)
        ensures
            match r {
                Ok(wake) => old(shared).rx_count > 0 && old(shared).sent(
                    value,
                    *final(shared),
                    wake@,
                ),
                Err(e) => old(shared).rx_count == 0 && e.0 == value && *final(shared) == *old(
                    shared,
                ),
            },
    {
        if shared.rx_count == 0 {
            return Err(SendError(value));
        }
        shared.value = value;
        shared.version = shared.version.wrapping_add(1);
        Ok(table_drain(&mut shared.wakers))
    }

    /// Put the value that a modification left.  If the modification counts, the value is a new one
    /// and the wakers to wake are handed out.
    pub fn send_if_modified<T>(&self, shared: &mut Shared<T>, value: T, modified: bool) -> (r:
        Option<Vec<u64>>)
        ensures
            match r {
                Some(wake) => modified && old(shared).sent(value, *final(shared), wake@),
                None => !modified && *final(shared) == (Shared { value, ..*old(shared) }),
            },
    {
        shared.value = value;
        if modified {
            shared.version = shared.version.wrapping_add(1);
            Some(table_drain(&mut shared.wakers))
        } else {
            None
        }
    }

    /// A look at the latest value.
    pub fn borrow_watched<'a, T>(&self, shared: &'a Shared<T>) -> (r: Ref<'a, T>)
        ensures
            *r.inner == shared.value,
    {
        Ref { inner: &shared.value }
    }

    /// Another receiver, which has seen the latest value.
    pub fn subscribe<T>(&self, shared: &mut Shared<T>) -> (r: WatchReceiver)
        requires
            old(shared).rx_count < usize::MAX,
        ensures
            r == (WatchReceiver {
                seen_version: old(shared).version,
                waker_id: old(shared).next_waker_id,
            }),
            *final(shared) == (Shared {
                rx_count: (old(shared).rx_count + 1) as usize,
                next_waker_id: old(shared).next_waker_id.wrapping_add(1),
                ..*old(shared)
            }),
    {
        let waker_id = shared.next_waker_id;
        shared.rx_count = shared.rx_count + 1;
        shared.next_waker_id = waker_id.wrapping_add(1);
        WatchReceiver { seen_version: shared.version, waker_id }
    }

    /// Set a new value if it is not the latest one.
    pub fn send_if_different<T: WatchValue>(&self, shared: &mut Shared<T>, value: T) -> (r: Option<
        Vec<u64>,
    >)
        ensures
            match r {
                Some(wake) => value != old(shared).value && old(shared).sent(
                    value,
                    *final(shared),
                    wake@,
                ),
                None => value == old(shared).value && *final(shared) == *old(shared),
            },
    {
        if value.differs_from(&shared.value) {
            self.send_if_modified(shared, value, true)
        } else {
            None
        }
    }

    /// Set a new value if it is greater than the latest one.
    pub fn send_if_greater<T: WatchValue>(&self, shared: &mut Shared<T>, value: T) -> (r: Option<
        Vec<u64>,
    >)
        ensures
            match r {
                Some(wake) => value.greater(&old(shared).value) && old(shared).sent(
                    value,
                    *final(shared),
                    wake@,
                ),
                None => !value.greater(&old(shared).value) && *final(shared) == *old(shared),
            },
            old(shared).kept_or_raised(*final(shared)),
    {
        if value.is_greater_than(&shared.value) {
            self.send_if_modified(shared, value, true)
        } else {
            None
        }
    }

    /// The sender is gone.  With the last one the channel closes, and the wakers to wake are handed
    /// out.
    pub fn drop_in<T>(self, shared: &mut Shared<T>) -> (wake: Vec<u64>)
        requires
            old(shared).tx_count > 0,
        ensures
            *final(shared) == (Shared {
                closed: old(shared).closed || old(shared).tx_count == 1,
                tx_count: (old(shared).tx_count - 1) as usize,
                wakers: final(shared).wakers,
                ..*old(shared)
            }),
            if old(shared).tx_count == 1 {
                &&& final(shared).wakers@.is_empty()
                &&& values_in_some_order(wake@, old(shared).wakers@)
            } else {
                &&& final(shared).wakers == old(shared).wakers
                &&& wake@ == Seq::<u64>::empty()
            },
    {
        shared.tx_count = shared.tx_count - 1;
        if shared.tx_count == 0 {
            shared.closed = true;
            table_drain(&mut shared.wakers)
        } else {
            Vec::new()
        }
    }
}

/// A handle that waits for the value of a channel: the version that it has seen, and the id under
/// which it waits.
#[derive(Clone, Copy, Debug, PartialEq, Eq, Structural)]
pub struct WatchReceiver {
    pub seen_version: u64,
    pub waker_id: usize,
}

/// What a receiver that waits for a change is told.
#[derive(Clone, Copy, Debug, PartialEq, Eq, Structural)]
pub enum PollChanged {
    /// There is a value that it had not seen.
    Ready,
    /// There is none, and the senders are gone.
    Closed,
    /// There is none yet; its waker is registered.
    Pending,
}

/// What a receiver that waits for a certain value is told.
#[derive(Clone, Copy, Debug, PartialEq, Eq)]
pub enum PollValue<T> {
    /// This is such a value.
    Ready(T),
    /// There is none, and the senders are gone.
    Closed,
    /// There is none yet; its waker is registered.
    Pending,
}

impl WatchReceiver {
    /// Another receiver, which has seen what this one has seen.
    pub fn clone_in<T>(&self, shared: &mut Shared<T>) -> (r: WatchReceiver)
        requires
            old(shared).rx_count < usize::MAX,
        ensures
            r == (WatchReceiver {
                seen_version: self.seen_version,
                waker_id: old(shared).next_waker_id,
            }),
            *final(shared) == (Shared {
                rx_count: (old(shared).rx_count + 1) as usize,
                next_waker_id: old(shared).next_waker_id.wrapping_add(1),
                ..*old(shared)
            }),
    {
        let waker_id = shared.next_waker_id;
        shared.rx_count = shared.rx_count + 1;
        shared.next_waker_id = waker_id.wrapping_add(1);
        WatchReceiver { seen_version: self.seen_version, waker_id }
    }

    /// The receiver is gone, and its waker with it.
    pub fn drop_in<T>(self, shared: &mut Shared<T>)
        requires
            old(shared).rx_count > 0,
        ensures
            final(shared).wakers@ == old(shared).wakers@.remove(self.waker_id),
            *final(shared) == (Shared {
                rx_count: (old(shared).rx_count - 1) as usize,
                wakers: final(shared).wakers,
                ..*old(shared)
            }),
    {
        table_remove(&mut shared.wakers, self.waker_id);
        shared.rx_count = shared.rx_count - 1;
    }

    /// Ask whether there is a value that the receiver has not seen.  If so it counts as seen; if
    /// not, the waker is registered, unless the senders are gone.
    pub fn changed<T>(&mut self, shared: &mut Shared<T>, waker: u64) -> (r: PollChanged)
        ensures
            r == old(shared).changed_spec(*old(self)),
            final(self).waker_id == old(self).waker_id,
            final(self).seen_version == (if r == PollChanged::Ready {
                old(shared).version
            } else {
                old(self).seen_version
            }),
            if r == PollChanged::Pending {
                old(shared).registered(*old(self), waker, *final(shared))
            } else {
                *final(shared) == *old(shared)
            },
    {
        if self.seen_version < shared.version {
            self.seen_version = shared.version;
            return PollChanged::Ready;
        }
        if shared.closed {
            return PollChanged::Closed;
        }
        table_insert(&mut shared.wakers, self.waker_id, waker);
        PollChanged::Pending
    }

    /// The receiver does not wait any more.
    pub fn cancel_changed<T>(&self, shared: &mut Shared<T>)
        ensures
            old(shared).unregistered(*self, *final(shared)),
    {
        table_remove(&mut shared.wakers, self.waker_id);
    }

    /// A look at the latest value.
    pub fn borrow_watched<'a, T>(&self, shared: &'a Shared<T>) -> (r: Ref<'a, T>)
        ensures
            *r.inner == shared.value,
    {
        Ref { inner: &shared.value }
    }

    /// A look at the latest value, which counts as seen.
    pub fn borrow_and_update<'a, T>(&mut self, shared: &'a Shared<T>) -> (r: Ref<'a, T>)
        ensures
            *r.inner == shared.value,
            *final(self) == (WatchReceiver { seen_version: shared.version, ..*old(self) }),
    {
        self.seen_version = shared.version;
        Ref { inner: &shared.value }
    }

    /// Ask whether the value is not less than `value`.  A value that is less counts as seen; the
    /// waker is then registered, unless the senders are gone.
    pub fn wait_until_ge<T: WatchValue + Clone>(
        &mut self,
        shared: &mut Shared<T>,
        value: &T,
        waker: u64,
    ) -> (r: PollValue<T>)
        ensures
            ({
                let current = old(shared).value;
                if current.greater(value) || current == *value {
                    &&& r matches PollValue::Ready(v) && cloned(current, v)
                    &&& *final(self) == *old(self)
                    &&& *final(shared) == *old(shared)
                } else {
                    old(self).waits(*old(shared), waker, *final(self), *final(shared), r)
                }
            }),
    {
        if shared.value.is_greater_than(value) || !shared.value.differs_from(value) {
            return PollValue::Ready(shared.value.clone());
        }
        self.wait(shared, waker)
    }

    /// Ask whether the value meets a condition.  A value that does not counts as seen; the waker is
    /// then registered, unless the senders are gone.
    pub fn wait_until<T: Clone, F: Fn(&T) -> bool>(
        &mut self,
        shared: &mut Shared<T>,
        condition: F,
        waker: u64,
    ) -> (r: PollValue<T>)
        requires
            call_requires(condition, (&old(shared).value,)),
        ensures
            match r {
                PollValue::Ready(v) => {
                    &&& call_ensures(condition, (&old(shared).value,), true)
                    &&& cloned(old(shared).value, v)
                    &&& *final(self) == *old(self)
                    &&& *final(shared) == *old(shared)
                },
                _ => {
                    &&& call_ensures(condition, (&old(shared).value,), false)
                    &&& old(self).waits(*old(shared), waker, *final(self), *final(shared), r)
                },
            },
    {
        if condition(&shared.value) {
            return PollValue::Ready(shared.value.clone());
        }
        self.wait(shared, waker)
    }

    /// Whether a receiver to which the value is of no use waits for another: the value counts as
    /// seen, and the waker is registered, unless the senders are gone.
    pub open spec fn waits<T>(
        self,
        before: Shared<T>,
        waker: u64,
        rx: WatchReceiver,
        after: Shared<T>,
        r: PollValue<T>,
    ) -> bool {
        &&& rx.waker_id == self.waker_id
        &&& rx.seen_version == (if self.seen_version < before.version {
            before.version
        } else {
            self.seen_version
        })
        &&& if before.closed {
            r is Closed && after == before
        } else {
            r is Pending && before.registered(self, waker, after)
        }
    }

    fn wait<T>(&mut self, shared: &mut Shared<T>, waker: u64) -> (r: PollValue<T>)
        ensures
            old(self).waits(*old(shared), waker, *final(self), *final(shared), r),
    {
        let mut told = self.changed(shared, waker);
        if told == PollChanged::Ready {
            told = self.changed(shared, waker);
        }
        if told == PollChanged::Closed {
            PollValue::Closed
        } else {
            PollValue::Pending
        }
    }
}

/// No value is missed: a receiver that has seen everything up to now learns of the next value that
/// is sent, and of that value once only.
pub proof fn no_value_is_missed<T>(
    before: Shared<T>,
    after: Shared<T>,
    value: T,
    wake: Seq<u64>,
    rx: WatchReceiver,
)
    requires
        before.sent(value, after, wake),
        rx.seen_version <= before.version < u64::MAX,
    ensures
        after.changed_spec(rx) == PollChanged::Ready,
        after.changed_spec(WatchReceiver { seen_version: after.version, ..rx })
            != PollChanged::Ready,
{
}

/// A value that a receiver took with `borrow_and_update` does not count as a change.
pub proof fn updated_receiver_waits<T>(shared: Shared<T>, rx: WatchReceiver)
    requires
        rx.seen_version == shared.version,
        !shared.closed,
    ensures
        shared.changed_spec(rx) == PollChanged::Pending,
{
}

/// A closed channel still gives its last value to a receiver that has not seen it; after that it
/// only tells that it is closed.
pub proof fn closed_channel_gives_its_last_value<T>(shared: Shared<T>, rx: WatchReceiver)
    requires
        shared.closed,
    ensures
        rx.seen_version < shared.version ==> shared.changed_spec(rx) == PollChanged::Ready,
        rx.seen_version >= shared.version ==> shared.changed_spec(rx) == PollChanged::Closed,
{
}

/// A receiver that waits is woken by the next value: its waker is among those that sending it hands
/// out.
pub proof fn waiting_receiver_is_woken<T>(
    before: Shared<T>,
    waiting: Shared<T>,
    after: Shared<T>,
    rx: WatchReceiver,
    waker: u64,
    value: T,
    wake: Seq<u64>,
)
    requires
        before.registered(rx, waker, waiting),
        waiting.sent(value, after, wake),
    ensures
        wake.contains(waker),
{
    let map = waiting.wakers@;
    let keys = choose|keys: Seq<usize>| lists_values(keys, wake, map);
    assert(map.dom().contains(rx.waker_id));
    assert(keys.to_set().contains(rx.waker_id));
    let i = choose|i: int| 0 <= i < keys.len() && keys[i] == rx.waker_id;
    assert(wake[i] == waker);
}

/// Whether a waker is that of a receiver with another id.
pub open spec fn waits_elsewhere(map: Map<usize, u64>, id: usize, waker: u64) -> bool {
    exists|other: usize| other != id && #[trigger] map.contains_key(other) && map[other] == waker
}

/// A receiver that gave up waiting is not woken: the wakers that the next value hands out are those
/// of other receivers.
pub proof fn cancelled_receiver_is_not_woken<T>(
    waiting: Shared<T>,
    cancelled: Shared<T>,
    after: Shared<T>,
    rx: WatchReceiver,
    value: T,
    wake: Seq<u64>,
)
    requires
        waiting.unregistered(rx, cancelled),
        cancelled.sent(value, after, wake),
    ensures
        forall|i: int|
            0 <= i < wake.len() ==> waits_elsewhere(
                waiting.wakers@,
                rx.waker_id,
                #[trigger] wake[i],
            ),
{
    let map = cancelled.wakers@;
    let keys = choose|keys: Seq<usize>| lists_values(keys, wake, map);
    assert forall|i: int| 0 <= i < wake.len() implies waits_elsewhere(
        waiting.wakers@,
        rx.waker_id,
        #[trigger] wake[i],
    ) by {
        let id = keys[i];
        assert(keys.contains(id));
        assert(keys.to_set().contains(id));
        assert(map.dom().contains(id));
        assert(waiting.wakers@.contains_key(id));
    }
}

/// What is greater: a greater number, a later log id, any log id than none, and a write that is not
/// at most another.  Nothing is greater than itself.
pub proof fn greater_values_come_later(a: u64, b: u64, x: LogId, y: LogId, v: IOId, w: IOId)
    ensures
        a.greater(&b) <==> b < a,
        Some(x).greater(&Some(y)) <==> y.at_most(x) && x != y,
        Some(x).greater(&None),
        !None::<LogId>.greater(&Some(x)),
        !None::<LogId>.greater(&None),
        v.greater(&w) ==> w.at_most(v) && v != w,
        !v.greater(&v),
{
}

/// A receiver of an open channel learns of a value exactly if it has not seen its version.
pub proof fn unseen_values_are_ready<T>(shared: Shared<T>, rx: WatchReceiver)
    requires
        !shared.closed,
    ensures
        shared.changed_spec(rx) == PollChanged::Ready <==> rx.seen_version < shared.version,
        shared.changed_spec(rx) == PollChanged::Pending <==> rx.seen_version >= shared.version,
{
}

/// Sending sets the value and counts it, and leaves nobody registered; who sends and who receives
/// stays as it is.
pub proof fn sending_counts_the_value<T>(before: Shared<T>, value: T, after: Shared<T>, wake: Seq<u64>)
    requires
        before.sent(value, after, wake),
    ensures
        after.value == value,
        before.version < u64::MAX ==> after.version == before.version + 1,
        after.closed == before.closed,
        after.tx_count == before.tx_count,
        after.rx_count == before.rx_count,
        after.next_waker_id == before.next_waker_id,
        forall|id: usize| !#[trigger] after.wakers@.contains_key(id),
        wake.len() == before.wakers@.dom().len(),
{
    let keys = choose|keys: Seq<usize>| lists_values(keys, wake, before.wakers@);
    keys.unique_seq_to_set();
}

/// Registering, or giving up, concerns the waker of one receiver; the others stay registered, and the
/// value stays.
pub proof fn registering_concerns_one_receiver<T>(
    before: Shared<T>,
    rx: WatchReceiver,
    waker: u64,
    after: Shared<T>,
    other: usize,
)
    requires
        other != rx.waker_id,
    ensures
        before.registered(rx, waker, after) ==> {
            &&& after.wakers@.contains_key(rx.waker_id)
            &&& after.wakers@[rx.waker_id] == waker
            &&& after.wakers@.contains_key(other) <==> before.wakers@.contains_key(other)
            &&& before.wakers@.contains_key(other) ==> after.wakers@[other] == before.wakers@[other]
            &&& after.value == before.value && after.version == before.version && after.closed
                == before.closed
        },
        before.unregistered(rx, after) ==> {
            &&& !after.wakers@.contains_key(rx.waker_id)
            &&& after.wakers@.contains_key(other) <==> before.wakers@.contains_key(other)
            &&& before.wakers@.contains_key(other) ==> after.wakers@[other] == before.wakers@[other]
            &&& after.value == before.value && after.version == before.version && after.closed
                == before.closed
        },
{
}

/// A receiver that waits has seen the value, and waits for a value after it: it is registered unless
/// the senders are gone, and then it is told so.
pub proof fn waiting_receivers_have_seen_the_value<T>(
    rx: WatchReceiver,
    before: Shared<T>,
    waker: u64,
    new: WatchReceiver,
    after: Shared<T>,
    r: PollValue<T>,
)
    requires
        rx.waits(before, waker, new, after, r),
    ensures
        new.waker_id == rx.waker_id,
        new.seen_version >= before.version,
        new.seen_version >= rx.seen_version,
        new.seen_version == before.version || new.seen_version == rx.seen_version,
        before.closed ==> r is Closed && after == before,
        !before.closed ==> r is Pending && after.wakers@.contains_key(rx.waker_id)
            && after.wakers@[rx.waker_id] == waker && after.value == before.value,
{
}

/// Progress is kept or raised where the value stays or becomes a greater one, and in no other way.
pub proof fn raised_values_are_greater<T: WatchValue>(before: Shared<T>, after: Shared<T>)
    ensures
        before.kept_or_raised(after) <==> after.value == before.value || after.value.greater(
            &before.value,
        ),
{
}

/// A value is sent where somebody may receive it, and else comes back.  One that a modification left
/// counts only if the modification does; one that must differ, or be greater, is sent exactly if it is.
pub proof fn send_calls<T: WatchValue>(
    tx: WatchSender,
    shared: &mut Shared<T>,
    value: T,
    modified: bool,
    sent: Result<Vec<u64>, SendError<T>>,
    put: Option<Vec<u64>>,
)
    ensures
        call_ensures(WatchSender::send::<T>, (&tx, shared, value), sent) ==> {
            &&& sent is Ok <==> old(shared).rx_count > 0
            &&& sent is Ok ==> final(shared).value == value && old(shared).sent(
                value,
                *final(shared),
                sent->Ok_0@,
            )
            &&& sent is Err ==> *final(shared) == *old(shared) && sent->Err_0.0 == value
        },
        call_ensures(WatchSender::send_if_modified::<T>, (&tx, shared, value, modified), put) ==> {
            &&& put is Some <==> modified
            &&& final(shared).value == value
            &&& modified ==> old(shared).sent(value, *final(shared), put->0@)
            &&& !modified ==> final(shared).version == old(shared).version && final(shared).wakers
                == old(shared).wakers
        },
        call_ensures(WatchSender::send_if_different::<T>, (&tx, shared, value), put) ==> {
            &&& put is Some <==> value != old(shared).value
            &&& final(shared).value == value
            &&& put is None ==> *final(shared) == *old(shared)
            &&& put is Some ==> old(shared).sent(value, *final(shared), put->0@)
        },
        call_ensures(WatchSender::send_if_greater::<T>, (&tx, shared, value), put) ==> {
            &&& put is Some <==> value.greater(&old(shared).value)
            &&& put is None ==> *final(shared) == *old(shared)
            &&& put is Some ==> final(shared).value == value && old(shared).sent(
                value,
                *final(shared),
                put->0@,
            )
        },
{
}

/// A channel begins with one sender and one receiver, which has seen its value.  Every sender and
/// receiver that comes or goes is counted; a new receiver gets an id of its own.  The channel closes with
/// the last sender, which wakes all that wait.
pub proof fn handle_calls<T>(
    init: T,
    new: (Shared<T>, WatchSender, WatchReceiver),
    tx: WatchSender,
    other: WatchSender,
    shared: &mut Shared<T>,
    rx: WatchReceiver,
    fresh: WatchReceiver,
    wake: Vec<u64>,
    done: (),
    id: usize,
)
    ensures
        call_ensures(channel::<T>, (init,), new) ==> {
            &&& new.0.value == init && !new.0.closed
            &&& new.0.tx_count == 1 && new.0.rx_count == 1
            &&& new.0.changed_spec(new.2) == PollChanged::Pending
            &&& new.2.waker_id != new.0.next_waker_id
            &&& !new.0.wakers@.contains_key(id)
        },
        call_ensures(WatchSender::clone_in::<T>, (&tx, shared), other) && old(shared).tx_count
            < usize::MAX ==> final(shared).tx_count == old(shared).tx_count + 1 && final(shared).value
            == old(shared).value && final(shared).rx_count == old(shared).rx_count,
        call_ensures(WatchSender::subscribe::<T>, (&tx, shared), fresh) && old(shared).rx_count
            < usize::MAX ==> {
            &&& final(shared).rx_count == old(shared).rx_count + 1
            &&& final(shared).tx_count == old(shared).tx_count
            &&& fresh.seen_version == old(shared).version
            &&& fresh.waker_id == old(shared).next_waker_id
            &&& final(shared).next_waker_id != fresh.waker_id
            &&& final(shared).value == old(shared).value && final(shared).wakers == old(shared).wakers
        },
        call_ensures(WatchReceiver::clone_in::<T>, (&rx, shared), fresh) && old(shared).rx_count
            < usize::MAX ==> {
            &&& final(shared).rx_count == old(shared).rx_count + 1
            &&& fresh.seen_version == rx.seen_version
            &&& fresh.waker_id == old(shared).next_waker_id
            &&& final(shared).next_waker_id != fresh.waker_id
        },
        call_ensures(WatchSender::drop_in::<T>, (tx, shared), wake) && old(shared).tx_count > 0 ==> {
            &&& final(shared).tx_count == old(shared).tx_count - 1
            &&& final(shared).closed <==> old(shared).closed || final(shared).tx_count == 0
            &&& final(shared).tx_count > 0 ==> wake@.len() == 0 && final(shared).wakers
                == old(shared).wakers
            &&& final(shared).tx_count == 0 ==> !final(shared).wakers@.contains_key(id)
                && values_in_some_order(wake@, old(shared).wakers@)
            &&& final(shared).value == old(shared).value && final(shared).version
                == old(shared).version && final(shared).rx_count == old(shared).rx_count
        },
        call_ensures(WatchReceiver::drop_in::<T>, (rx, shared), done) && old(shared).rx_count > 0
            ==> {
            &&& final(shared).rx_count == old(shared).rx_count - 1
            &&& !final(shared).wakers@.contains_key(rx.waker_id)
            &&& id != rx.waker_id ==> (final(shared).wakers@.contains_key(id)
                <==> old(shared).wakers@.contains_key(id))
            &&& final(shared).closed == old(shared).closed
        },
{
    if old(shared).next_waker_id == usize::MAX {
        assert(usize::MAX.wrapping_add(1) == 0);
    }
}

/// A receiver that learns of a value has seen it; one that must wait is registered.  A value is taken
/// where it is not less than the wanted one, and is waited for else.
pub proof fn receive_calls<T: WatchValue + Clone>(
    rx: &mut WatchReceiver,
    shared: &mut Shared<T>,
    waker: u64,
    told: PollChanged,
    want: T,
    got: PollValue<T>,
    seen: Ref<T>,
    done: (),
)
    ensures
        call_ensures(WatchReceiver::changed::<T>, (rx, shared, waker), told) ==> {
            &&& told is Ready <==> old(rx).seen_version < old(shared).version
            &&& told is Ready ==> final(rx).seen_version == old(shared).version
            &&& !(told is Ready) ==> final(rx).seen_version == old(rx).seen_version
            &&& told is Closed ==> old(shared).closed
            &&& told is Pending ==> !old(shared).closed && old(shared).registered(
                *old(rx),
                waker,
                *final(shared),
            )
            &&& !(told is Pending) ==> *final(shared) == *old(shared)
            &&& final(rx).waker_id == old(rx).waker_id
        },
        call_ensures(WatchReceiver::borrow_and_update::<T>, (rx, old(shared)), seen) ==> *seen.inner
            == old(shared).value && final(rx).seen_version == old(shared).version && final(rx).waker_id == old(rx).waker_id,
        call_ensures(WatchReceiver::borrow_watched::<T>, (old(rx), old(shared)), seen)
            ==> *seen.inner == old(shared).value,
        call_ensures(WatchReceiver::cancel_changed::<T>, (old(rx), shared), done) ==> old(shared).unregistered(*old(rx), *final(shared)),
        call_ensures(WatchReceiver::wait_until_ge::<T>, (rx, shared, &want, waker), got) ==> {
            let enough = old(shared).value == want || old(shared).value.greater(&want);
            &&& got is Ready <==> enough
            &&& enough ==> cloned(old(shared).value, got->Ready_0) && *final(rx) == *old(rx)
                && *final(shared) == *old(shared)
            &&& !enough ==> old(rx).waits(*old(shared), waker, *final(rx), *final(shared), got)
        },
{
}

} // verus!

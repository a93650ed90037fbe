//! Watching how far something has come.

use vstd::prelude::*;
use vstd::pervasive::cloned;
use crate::async_runtime::watch::{PollChanged, PollValue, Shared, WatchReceiver, WatchValue};

verus! {

/// Whether a value has come as far as `target`.
pub open spec fn reaches<T: WatchValue>(value: T, target: T) -> bool {
    value.greater(&target) || value == target
}

/// Watches a value that only grows.
#[derive(Clone, Copy, Debug, PartialEq, Eq, Structural)]
pub struct WatchProgress {
    pub inner: WatchReceiver,
}

impl WatchProgress {
    /// Watch with a receiver.
    pub fn new(inner: WatchReceiver) -> (r: WatchProgress)
        ensures
            r == (WatchProgress { inner }),
    {
        WatchProgress { inner }
    }

    /// Ask whether the progress has come as far as `target`.
    pub fn wait_until_ge<T: WatchValue + Clone>(
        &mut self,
        shared: &mut Shared<T>,
        target: &T,
        waker: u64,
    ) -> (r: PollValue<T>)
        ensures
            ({
                let current = old(shared).value;
                if reaches(current, *target) {
                    &&& r matches PollValue::Ready(v) && cloned(current, v)
                    &&& *final(self) == *old(self)
                    &&& *final(shared) == *old(shared)
                } else {
                    old(self).inner.waits(
                        *old(shared),
                        waker,
                        final(self).inner,
                        *final(shared),
                        r,
                    )
                }
            }),
    {
        self.inner.wait_until_ge(shared, target, waker)
    }

    /// Ask whether the progress meets a condition.
    pub fn wait_until<T: Clone, F: Fn(&T) -> bool>(
        &mut self,
        shared: &mut Shared<T>,
        condition: F,
        waker: u64,
    ) -> (r: PollValue<T>)
        requires
            call_requires(condition, (&old(shared).value,)),
        ensures
            match r {
                PollValue::Ready(v) => {
                    &&& call_ensures(condition, (&old(shared).value,), true)
                    &&& cloned(old(shared).value, v)
                    &&& *final(self) == *old(self)
                    &&& *final(shared) == *old(shared)
                },
                _ => {
                    &&& call_ensures(condition, (&old(shared).value,), false)
                    &&& old(self).inner.waits(
                        *old(shared),
                        waker,
                        final(self).inner,
                        *final(shared),
                        r,
                    )
                },
            },
    {
        self.inner.wait_until(shared, condition, waker)
    }

    /// The present progress.
    pub fn get<T: Clone>(&self, shared: &Shared<T>) -> (r: T)
        ensures
            cloned(shared.value, r),
    {
        shared.value.clone()
    }

    /// Ask whether the progress has changed.
    pub fn changed<T>(&mut self, shared: &mut Shared<T>, waker: u64) -> (r: PollChanged)
        ensures
            r == old(shared).changed_spec(old(self).inner),
            final(self).inner.waker_id == old(self).inner.waker_id,
            final(self).inner.seen_version == (if r == PollChanged::Ready {
                old(shared).version
            } else {
                old(self).inner.seen_version
            }),
            if r == PollChanged::Pending {
                old(shared).registered(old(self).inner, waker, *final(shared))
            } else {
                *final(shared) == *old(shared)
            },
    {
        self.inner.changed(shared, waker)
    }

    /// Ask for the progress after the next change.
    pub fn next<T: Clone>(&mut self, shared: &mut Shared<T>, waker: u64) -> (r: PollValue<T>)
        ensures
            match old(shared).changed_spec(old(self).inner) {
                PollChanged::Ready => {
                    &&& r matches PollValue::Ready(v) && cloned(old(shared).value, v)
                    &&& final(self).inner == (WatchReceiver {
                        seen_version: old(shared).version,
                        ..old(self).inner
                    })
                    &&& *final(shared) == *old(shared)
                },
                PollChanged::Closed => {
                    &&& r is Closed
                    &&& *final(self) == *old(self)
                    &&& *final(shared) == *old(shared)
                },
                PollChanged::Pending => {
                    &&& r is Pending
                    &&& *final(self) == *old(self)
                    &&& old(shared).registered(old(self).inner, waker, *final(shared))
                },
            },
    {
        match self.changed(shared, waker) {
            PollChanged::Ready => PollValue::Ready(self.get(shared)),
            PollChanged::Closed => PollValue::Closed,
            PollChanged::Pending => PollValue::Pending,
        }
    }
}

/// Progress never falls back: where each step keeps the value or sends a greater one, a target that
/// was reached stays reached.
pub proof fn reached_progress_stays_reached<T: WatchValue>(
    steps: Seq<Shared<T>>,
    earlier: int,
    later: int,
    target: T,
)
    requires
        0 <= earlier <= later < steps.len(),
        forall|i: int, j: int|
            0 <= i && j == i + 1 && j < steps.len() ==> (#[trigger] steps[i]).kept_or_raised(
                #[trigger] steps[j],
            ),
        reaches(steps[earlier].value, target),
    ensures
        steps[earlier].kept_or_raised(steps[later]),
        reaches(steps[later].value, target),
    decreases later - earlier,
{
    if earlier < later {
        let before = later - 1;
        reached_progress_stays_reached(steps, earlier, before, target);
        assert(steps[before].kept_or_raised(steps[later]));
        T::greater_is_transitive(steps[later].value, steps[before].value, target);
        T::greater_is_transitive(steps[later].value, steps[before].value, steps[earlier].value);
    }
}

/// Progress has come as far as a target exactly if it is the target or beyond it.
pub proof fn progress_reaches_itself(a: u64, b: u64)
    ensures
        reaches(a, b) <==> a >= b,
        reaches(a, a),
{
}

} // verus!

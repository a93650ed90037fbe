use std::time::{SystemTime, UNIX_EPOCH};

use rand::{RngCore, SeedableRng};
use zenoh_raft::async_runtime::deterministic_rng::{
    advance_seed, derive_spawn_seed, take_and_advance_seed, DeterministicRng,
};
use zenoh_raft::async_runtime::display_instant::{DisplayInstant, DisplayInstantExt};
use zenoh_raft::async_runtime::watch::{channel, PollChanged, PollValue, WatchValue};
use zenoh_raft::async_runtime::watch_progress::WatchProgress;
use zenoh_raft::time::Instant;
use zenoh_raft::type_config::log_id;
use zenoh_raft::vote::{IOId, Vote};

#[test]
fn test_display_instant() {
    let started = std::time::Instant::now();
    let sys_now = SystemTime::now().duration_since(UNIX_EPOCH).unwrap().as_nanos() as i128;
    let now = Instant { nanos: started.elapsed().as_nanos() };
    let d = now.display();
    let s = d.to_string_at(sys_now, now);
    assert!(!s.is_empty());
    assert_eq!(s.len(), 15);
    let b = s.as_bytes();
    assert_eq!(b[2], b':');
    assert_eq!(b[5], b':');
    assert_eq!(b[8], b'.');
    assert!(b.iter().enumerate().all(|(i, c)| i == 2 || i == 5 || i == 8 || c.is_ascii_digit()));
}

#[test]
fn instant_is_shown_as_the_time_before_or_after_now() {
    let now = Instant { nanos: 5_000 };
    let earlier = DisplayInstant { instant: Instant { nanos: 2_000 } };
    let later = DisplayInstant { instant: Instant { nanos: 9_000 } };
    assert_eq!(earlier.to_system_time(1_000_000, now), 997_000);
    assert_eq!(later.to_system_time(1_000_000, now), 1_004_000);
    assert_eq!(earlier.to_shown_time(1_000_000, now), 997_000);
    // A time that cannot be written is shown as the epoch.
    let far: i128 = 253_402_207_201_000_000_000;
    assert_eq!(earlier.to_shown_time(far + 3_000, now), 0);
    assert_eq!(earlier.to_shown_time(far + 2_999, now), far - 1);
}

#[test]
fn microseconds_are_shown() {
    let now = Instant { nanos: 0 };
    let s = now.display().to_string_at(1_700_000_000_123_456_789, now);
    assert!(s.ends_with(".123456"), "{}", s);
    let s = now.display().to_string_at(-1, now);
    assert!(s.ends_with(".999999"), "{}", s);
}

#[test]
fn the_time_of_day_follows_the_clock() {
    let now = Instant { nanos: 0 };
    let seconds = |sys_now: i128| -> i128 {
        let s = now.display().to_string_at(sys_now, now);
        let part = |i: usize| s[i..i + 2].parse::<i128>().unwrap();
        part(0) * 3_600 + part(3) * 60 + part(6)
    };
    let start: i128 = 1_700_000_000;
    let first = seconds(start * 1_000_000_000);
    for later in [1, 59, 61, 3_599] {
        let then = seconds((start + later) * 1_000_000_000 + 5);
        assert_eq!((then - first).rem_euclid(86_400), later);
    }
}

#[test]
fn seeds_follow_splitmix64() {
    // The first value of SplitMix64 from seed 0.
    assert_eq!(derive_spawn_seed(0), 0xe220a8397b1dcdaf);
    assert_eq!(derive_spawn_seed(0x9e3779b97f4a7c15), 0x6e789e6aa1b965f4);
    assert_ne!(advance_seed(0), derive_spawn_seed(0));
    assert_ne!(advance_seed(1), advance_seed(2));
}

#[test]
fn a_seed_is_taken_and_advanced() {
    let mut cell = DeterministicRng::scope(7);
    assert_eq!(take_and_advance_seed(&mut cell), 7);
    assert_eq!(cell, Some(advance_seed(7)));
    assert_eq!(take_and_advance_seed(&mut cell), advance_seed(7));

    let mut none = None;
    let a = take_and_advance_seed(&mut none);
    let b = take_and_advance_seed(&mut none);
    assert_eq!(none, None);
    assert_ne!(a, b);
}

#[test]
fn generators_of_one_seed_agree() {
    let mut a = DeterministicRng::scope(42);
    let mut b = DeterministicRng::scope(42);
    let mut x = DeterministicRng::thread_rng(&mut a);
    let mut y = DeterministicRng::thread_rng(&mut b);
    let first = x.next_u64();
    assert_eq!(first, y.next_u64());
    assert_eq!(first, rand::rngs::SmallRng::seed_from_u64(42).next_u64());
    let mut z = DeterministicRng::thread_rng(&mut a);
    let (p, q) = (y.next_u64(), z.next_u64());
    assert_ne!(p, q);
    assert_eq!(a, Some(advance_seed(advance_seed(42))));
}

#[test]
fn test_watch_borrow_and_update() {
    let (mut shared, tx, mut rx) = channel(10u64);
    assert_eq!(*rx.borrow_watched(&shared).deref(), 10);

    tx.send(&mut shared, 20).unwrap();
    let val = *rx.borrow_and_update(&shared).deref();
    assert_eq!(val, 20);

    // After borrow_and_update, changed() does not return at once.
    assert_eq!(rx.changed(&mut shared, 99), PollChanged::Pending);

    // Sending a new value wakes the receiver.
    assert_eq!(tx.send(&mut shared, 30).unwrap(), vec![99]);
    assert_eq!(rx.changed(&mut shared, 99), PollChanged::Ready);
    assert_eq!(*rx.borrow_watched(&shared).deref(), 30);
}

#[test]
fn test_wait_until_ge() {
    let (mut shared, tx, rx) = channel(0u64);
    let mut progress = WatchProgress::new(rx);
    assert_eq!(progress.get(&shared), 0);

    assert_eq!(progress.wait_until_ge(&mut shared, &8, 1), PollValue::Pending);
    assert_eq!(tx.send(&mut shared, 5).unwrap(), vec![1]);
    assert_eq!(progress.wait_until_ge(&mut shared, &8, 1), PollValue::Pending);
    assert_eq!(tx.send(&mut shared, 10).unwrap(), vec![1]);
    assert_eq!(progress.wait_until_ge(&mut shared, &8, 1), PollValue::Ready(10));
}

#[test]
fn test_wait_until_ge_immediate() {
    let (mut shared, tx, rx) = channel(10u64);
    let mut progress = WatchProgress::new(rx);
    assert_eq!(progress.wait_until_ge(&mut shared, &5, 1), PollValue::Ready(10));
    assert_eq!(progress.wait_until_ge(&mut shared, &10, 1), PollValue::Ready(10));
    assert!(tx.drop_in(&mut shared).is_empty());
}

#[test]
fn test_wait_until_custom_condition() {
    let (mut shared, tx, rx) = channel(1u64);
    let mut progress = WatchProgress::new(rx);
    assert_eq!(progress.wait_until(&mut shared, |v: &u64| v % 2 == 0, 3), PollValue::Pending);
    let mut result = None;
    for i in 2..=10 {
        tx.send(&mut shared, i).unwrap();
        if let PollValue::Ready(v) = progress.wait_until(&mut shared, |v: &u64| v % 2 == 0, 3) {
            result = Some(v);
            break;
        }
    }
    assert_eq!(result, Some(2));
}

#[test]
fn test_wait_until_immediate() {
    let (mut shared, _tx, rx) = channel(10u64);
    let mut progress = WatchProgress::new(rx);
    assert_eq!(progress.wait_until(&mut shared, |v: &u64| v >= &5, 3), PollValue::Ready(10));
}

#[test]
fn test_changed_waits_for_notification() {
    let (mut shared, tx, rx) = channel(0u64);
    let mut progress = WatchProgress::new(rx);
    assert_eq!(progress.get(&shared), 0);
    assert_eq!(progress.changed(&mut shared, 8), PollChanged::Pending);
    assert_eq!(tx.send(&mut shared, 5).unwrap(), vec![8]);
    assert_eq!(progress.changed(&mut shared, 8), PollChanged::Ready);
    assert_eq!(progress.get(&shared), 5);
}

#[test]
fn test_changed_returns_immediately_if_unseen_value() {
    let (mut shared, tx, rx) = channel(0u64);
    let mut progress = WatchProgress::new(rx);
    tx.send(&mut shared, 5).unwrap();
    assert_eq!(progress.changed(&mut shared, 8), PollChanged::Ready);
    assert_eq!(progress.get(&shared), 5);
}

#[test]
fn test_changed_returns_error_when_sender_dropped() {
    let (mut shared, tx, rx) = channel(0u64);
    let mut progress = WatchProgress::new(rx);
    tx.drop_in(&mut shared);
    assert_eq!(progress.changed(&mut shared, 8), PollChanged::Closed);
}

#[test]
fn test_next_returns_changed_value() {
    let (mut shared, tx, rx) = channel(0u64);
    let mut progress = WatchProgress::new(rx);
    assert_eq!(progress.next(&mut shared, 8), PollValue::Pending);
    tx.send(&mut shared, 5).unwrap();
    assert_eq!(progress.next(&mut shared, 8), PollValue::Ready(5));
    assert_eq!(progress.next(&mut shared, 8), PollValue::Pending);
    tx.send(&mut shared, 10).unwrap();
    assert_eq!(progress.next(&mut shared, 8), PollValue::Ready(10));
}

#[test]
fn test_next_returns_immediate_if_unseen_value() {
    let (mut shared, tx, rx) = channel(0u64);
    let mut progress = WatchProgress::new(rx);
    tx.send(&mut shared, 42).unwrap();
    assert_eq!(progress.next(&mut shared, 8), PollValue::Ready(42));
}

#[test]
fn test_next_returns_error_when_sender_dropped() {
    let (mut shared, tx, rx) = channel(0u64);
    let mut progress = WatchProgress::new(rx);
    tx.drop_in(&mut shared);
    assert_eq!(progress.next(&mut shared, 8), PollValue::Closed);
}

#[test]
fn a_value_without_a_receiver_comes_back() {
    let (mut shared, tx, rx) = channel(1u64);
    rx.drop_in(&mut shared);
    assert_eq!(shared.rx_count, 0);
    let err = tx.send(&mut shared, 2).unwrap_err();
    assert_eq!(err.0, 2);
    assert_eq!(shared.value, 1);
    assert_eq!(shared.version, 1);
    // A modification needs no receiver.
    assert!(tx.send_if_different(&mut shared, 3).is_some());
    assert_eq!(shared.value, 3);
}

#[test]
fn values_are_sent_if_different_or_greater() {
    let (mut shared, tx, mut rx) = channel(5u64);
    assert!(tx.send_if_different(&mut shared, 5).is_none());
    assert!(tx.send_if_greater(&mut shared, 5).is_none());
    assert!(tx.send_if_greater(&mut shared, 4).is_none());
    assert_eq!(rx.changed(&mut shared, 1), PollChanged::Pending);
    assert_eq!(tx.send_if_greater(&mut shared, 6), Some(vec![1]));
    assert_eq!(rx.changed(&mut shared, 1), PollChanged::Ready);
    assert_eq!(tx.send_if_different(&mut shared, 4), Some(vec![]));
    assert_eq!(shared.value, 4);
    // A modification that does not count changes the value but is not told.
    let seen = shared.version;
    assert!(tx.send_if_modified(&mut shared, 9, false).is_none());
    assert_eq!((shared.value, shared.version), (9, seen));
    assert!(tx.send_if_modified(&mut shared, 10, true).is_some());
    assert_eq!((shared.value, shared.version), (10, seen + 1));
}

#[test]
fn subscribers_have_seen_the_latest_value_and_clones_what_their_receiver_saw() {
    let (mut shared, tx, rx) = channel(0u64);
    tx.send(&mut shared, 1).unwrap();
    let mut sub = tx.subscribe(&mut shared);
    let mut clone = rx.clone_in(&mut shared);
    assert_eq!(shared.rx_count, 3);
    assert_eq!((rx.waker_id, sub.waker_id, clone.waker_id), (0, 1, 2));
    assert_eq!(sub.changed(&mut shared, 7), PollChanged::Pending);
    assert_eq!(clone.changed(&mut shared, 8), PollChanged::Ready);
    assert_eq!(*tx.borrow_watched(&shared).deref(), 1);
}

#[test]
fn cancelled_and_dropped_receivers_are_not_woken() {
    let (mut shared, tx, mut rx) = channel(0u64);
    let mut other = tx.subscribe(&mut shared);
    let mut third = tx.subscribe(&mut shared);
    assert_eq!(rx.changed(&mut shared, 10), PollChanged::Pending);
    assert_eq!(other.changed(&mut shared, 11), PollChanged::Pending);
    assert_eq!(third.changed(&mut shared, 12), PollChanged::Pending);
    rx.cancel_changed(&mut shared);
    third.drop_in(&mut shared);
    assert_eq!(tx.send(&mut shared, 1).unwrap(), vec![11]);
}

#[test]
fn all_waiting_receivers_are_woken_once() {
    let (mut shared, tx, mut rx) = channel(0u64);
    let mut other = tx.subscribe(&mut shared);
    assert_eq!(rx.changed(&mut shared, 10), PollChanged::Pending);
    assert_eq!(rx.changed(&mut shared, 20), PollChanged::Pending);
    assert_eq!(other.changed(&mut shared, 11), PollChanged::Pending);
    let mut wake = tx.send(&mut shared, 1).unwrap();
    wake.sort();
    assert_eq!(wake, vec![11, 20]);
    assert!(tx.send(&mut shared, 2).unwrap().is_empty());
}

#[test]
fn the_last_sender_closes_the_channel_after_its_last_value() {
    let (mut shared, tx, mut rx) = channel(0u64);
    let tx2 = tx.clone_in(&mut shared);
    let mut waiting = tx.subscribe(&mut shared);
    assert_eq!(waiting.changed(&mut shared, 5), PollChanged::Pending);
    tx.send_if_modified(&mut shared, 3, false);
    assert!(tx.drop_in(&mut shared).is_empty());
    assert!(!shared.closed);
    tx2.send(&mut shared, 4).unwrap();
    assert_eq!(waiting.changed(&mut shared, 5), PollChanged::Ready);
    assert_eq!(waiting.changed(&mut shared, 5), PollChanged::Pending);
    assert_eq!(tx2.drop_in(&mut shared), vec![5]);
    assert!(shared.closed);
    // The last value is still given to who has not seen it.
    assert_eq!(rx.changed(&mut shared, 6), PollChanged::Ready);
    assert_eq!(rx.changed(&mut shared, 6), PollChanged::Closed);
    assert_eq!(rx.wait_until_ge(&mut shared, &9, 6), PollValue::Closed);
}

#[test]
fn log_ids_and_writes_are_compared() {
    let a = log_id(1, 1, 1);
    let b = log_id(1, 1, 2);
    assert!(Some(b).is_greater_than(&Some(a)));
    assert!(Some(a).is_greater_than(&None));
    assert!(!None.is_greater_than(&Some(a)));
    assert!(Some(a).differs_from(&None));
    assert!(!Some(a).differs_from(&Some(a)));
    let v = IOId::new(&Vote::new(1, 1));
    let c = IOId::new(&Vote::new_committed(1, 1));
    assert!(c.is_greater_than(&v));
    assert!(!v.is_greater_than(&c));
    let l = IOId::Log { committed_vote: Vote::new_committed(1, 1), log_id: Some(a) };
    assert!(l.is_greater_than(&c));
    assert!(l.differs_from(&c));
}

#[test]
fn reached_progress_stays_reached() {
    let (mut shared, tx, rx) = channel(0u64);
    let mut progress = WatchProgress::new(rx);
    assert!(tx.send_if_greater(&mut shared, 5).is_some());
    assert_eq!(progress.wait_until_ge(&mut shared, &5, 1), PollValue::Ready(5));
    assert!(tx.send_if_greater(&mut shared, 3).is_none());
    assert_eq!(progress.wait_until_ge(&mut shared, &5, 1), PollValue::Ready(5));
    assert!(tx.send_if_greater(&mut shared, 9).is_some());
    assert_eq!(progress.wait_until_ge(&mut shared, &5, 1), PollValue::Ready(9));
}

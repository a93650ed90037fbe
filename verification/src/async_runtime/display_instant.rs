//! Readings of the monotonic clock as times of day.

use vstd::prelude::*;
use vstd::string::*;
use crate::text;
use crate::time::Instant;

verus! {

/// How a time of day is written.
pub const TIME_FORMAT: &'static str = "%H:%M:%S%.6f";

/// The nanoseconds since the Unix epoch of the first time that can be written.
pub const MIN_TIME: i128 = -377_705_023_201_000_000_000;

/// The nanoseconds since the Unix epoch of the last time that can be written.
pub const MAX_TIME: i128 = 253_402_207_200_999_999_999;

/// The greatest number of seconds by which the clocks of a time zone are ahead of UTC or behind it.
pub const MAX_OFFSET: i32 = 93_599;

/// The last two decimal digits of a number.
pub open spec fn two_digits(n: int) -> Seq<char> {
    seq![text::digit((n / 10 % 10) as nat), text::digit((n % 10) as nat)]
}

/// A time of day as [`TIME_FORMAT`] says, where `nanos` is the time since midnight: hours, minutes
/// and seconds of two digits each, and the whole microseconds in six digits after a dot.
pub open spec fn day_text(nanos: int) -> Seq<char> {
    let secs = nanos / 1_000_000_000;
    let micros = nanos % 1_000_000_000 / 1_000;
    two_digits(secs / 3_600) + seq![':'] + two_digits(secs / 60 % 60) + seq![':'] + two_digits(
        secs % 60,
    ) + seq!['.'] + two_digits(micros / 10_000) + two_digits(micros / 100 % 100) + two_digits(
        micros % 100,
    )
}

/// Whether a text is the time of day at `nanos` nanoseconds since the Unix epoch, where the clocks
/// are `offset` seconds ahead of UTC.
pub open spec fn is_shown(t: Seq<char>, nanos: int, offset: int) -> bool {
    &&& -MAX_OFFSET <= offset <= MAX_OFFSET
    &&& t == day_text((nanos + offset * 1_000_000_000) % 86_400_000_000_000)
}

/// `jiff::Timestamp::from_nanosecond`, `to_zoned` with the time zone of the system, and `strftime`:
/// the time of day at a point in time, written as [`TIME_FORMAT`] says.
///
/// The time zone of the machine decides by how many whole seconds its clocks are ahead of UTC or
/// behind it; nothing is claimed of that number but its bounds.
#[verifier::external_body]
fn time_of_day(nanos: i128) -> (r: String)
    requires
        MIN_TIME <= nanos <= MAX_TIME,
    ensures
        exists|offset: int| is_shown(r@, nanos as int, offset),
{
    let timestamp = jiff::Timestamp::from_nanosecond(nanos).unwrap();
    timestamp.to_zoned(jiff::tz::TimeZone::system()).strftime(TIME_FORMAT).to_string()
}

/// A reading of the monotonic clock that is written as a time of day.
#[derive(Clone, Copy, Debug, PartialEq, Eq, Structural)]
pub struct DisplayInstant {
    pub instant: Instant,
}

/// Makes a reading of the clock writable.
pub trait DisplayInstantExt: Sized {
    /// The reading, to be written.
    spec fn display_spec(&self) -> DisplayInstant;

    /// The reading, to be written.
    fn display(&self) -> (r: DisplayInstant)
        ensures
            r == self.display_spec(),
    ;
}

impl DisplayInstantExt for Instant {
    open spec fn display_spec(&self) -> DisplayInstant {
        DisplayInstant { instant: *self }
    }

    fn display(&self) -> (r: DisplayInstant) {
        DisplayInstant { instant: *self }
    }
}

impl DisplayInstant {
    /// The nanoseconds since the Unix epoch at the reading, where the wall clock showed `sys_now`
    /// when the monotonic clock showed `now`.
    pub open spec fn wall_time(self, sys_now: i128, now: Instant) -> int {
        sys_now - (now.nanos - self.instant.nanos)
    }

    /// Whether the time at the reading is one that a wall clock can show: its whole seconds fit in
    /// 64 bits.
    pub open spec fn wall_time_fits(self, sys_now: i128, now: Instant) -> bool {
        &&& now.nanos - self.instant.nanos <= i128::MAX
        &&& self.instant.nanos - now.nanos <= i128::MAX
        &&& i64::MIN * 1_000_000_000 <= self.wall_time(sys_now, now)
        &&& self.wall_time(sys_now, now) < (i64::MAX + 1) * 1_000_000_000
    }

    /// The nanoseconds since the Unix epoch at the reading.
    pub fn to_system_time(&self, sys_now: i128, now: Instant) -> (r: i128)
        requires
            self.wall_time_fits(sys_now, now),
        ensures
            r == self.wall_time(sys_now, now),
    {
        if now.nanos >= self.instant.nanos {
            let d: u128 = now.nanos - self.instant.nanos;
            sys_now - (d as i128)
        } else {
            let d: u128 = self.instant.nanos - now.nanos;
            sys_now + (d as i128)
        }
    }

    /// The time that is written: the time at the reading, or the Unix epoch if that cannot be
    /// written.
    pub open spec fn shown_time(self, sys_now: i128, now: Instant) -> int {
        let t = self.wall_time(sys_now, now);
        if MIN_TIME <= t <= MAX_TIME {
            t
        } else {
            0
        }
    }

    /// The time that is written: the time at the reading, or the Unix epoch if that cannot be
    /// written.
    pub fn to_shown_time(&self, sys_now: i128, now: Instant) -> (r: i128)
        requires
            self.wall_time_fits(sys_now, now),
        ensures
            r == self.shown_time(sys_now, now),
    {
        let t = self.to_system_time(sys_now, now);
        if MIN_TIME <= t && t <= MAX_TIME {
            t
        } else {
            0
        }
    }

    /// The reading as a time of day of the machine's time zone, where the wall clock showed
    /// `sys_now` when the monotonic clock showed `now`.
    pub fn to_string_at(&self, sys_now: i128, now: Instant) -> (r: String)
        requires
            self.wall_time_fits(sys_now, now),
        ensures
            exists|offset: int| is_shown(r@, self.shown_time(sys_now, now), offset),
    {
        let t = self.to_shown_time(sys_now, now);
        time_of_day(t)
    }
}

/// The wall clock and the monotonic clock run together: a reading of now is the time that the wall
/// clock shows, and readings are as far apart as the times that they stand for.
pub proof fn clocks_run_together(a: DisplayInstant, b: DisplayInstant, sys_now: i128, now: Instant)
    ensures
        a.instant.nanos == now.nanos ==> a.wall_time(sys_now, now) == sys_now,
        b.wall_time(sys_now, now) - a.wall_time(sys_now, now) == b.instant.nanos - a.instant.nanos,
{
}

/// A time that can be written is written as it is, any other as the epoch; what is shown can always
/// be written.
pub proof fn shown_times_can_be_written(a: DisplayInstant, sys_now: i128, now: Instant)
    ensures
        MIN_TIME <= a.shown_time(sys_now, now) <= MAX_TIME,
        MIN_TIME <= sys_now - now.nanos + a.instant.nanos <= MAX_TIME ==> a.shown_time(sys_now, now)
            == sys_now - now.nanos + a.instant.nanos,
        sys_now - now.nanos + a.instant.nanos < MIN_TIME || sys_now - now.nanos + a.instant.nanos
            > MAX_TIME ==> a.shown_time(sys_now, now) == 0,
{
}

/// A time of day reads as it is: its hour, minute, second and microsecond, each in its place and
/// with leading zeros; what is left of a microsecond is not shown.
pub proof fn times_of_day_read_in_place(h: int, m: int, s: int, micros: int, rest: int)
    requires
        0 <= h < 24,
        0 <= m < 60,
        0 <= s < 60,
        0 <= micros < 1_000_000,
        0 <= rest < 1_000,
    ensures
        ({
            let t = day_text(((h * 60 + m) * 60 + s) * 1_000_000_000 + micros * 1_000 + rest);
            &&& t.len() == 15
            &&& text::number(t.subrange(0, 2)) == h
            &&& t[2] == ':'
            &&& text::number(t.subrange(3, 5)) == m
            &&& t[5] == ':'
            &&& text::number(t.subrange(6, 8)) == s
            &&& t[8] == '.'
            &&& text::number(t.subrange(9, 15)) == micros
        }),
{
    let secs = (h * 60 + m) * 60 + s;
    let nanos = secs * 1_000_000_000 + micros * 1_000 + rest;
    assert(nanos / 1_000_000_000 == secs);
    assert(nanos % 1_000_000_000 == micros * 1_000 + rest);
    assert((micros * 1_000 + rest) / 1_000 == micros);
    assert(secs / 3_600 == h);
    assert(secs / 60 == h * 60 + m);
    assert(secs / 60 % 60 == m);
    assert(secs % 60 == s);
    let t = day_text(nanos);
    lemma_two_digits(h);
    lemma_two_digits(m);
    lemma_two_digits(s);
    lemma_two_digits(micros / 10_000);
    lemma_two_digits(micros / 100 % 100);
    lemma_two_digits(micros % 100);
    assert(t.subrange(0, 2) =~= two_digits(h));
    assert(t.subrange(3, 5) =~= two_digits(m));
    assert(t.subrange(6, 8) =~= two_digits(s));
    let u = t.subrange(9, 15);
    let a = two_digits(micros / 10_000);
    let b = two_digits(micros / 100 % 100);
    let c = two_digits(micros % 100);
    assert(u =~= a + b + c);
    assert(u.drop_last().drop_last() =~= a + b);
    assert((a + b).drop_last().drop_last() =~= a);
    reveal_with_fuel(text::number, 3);
    assert(text::number(u) == text::number(a + b) * 100 + micros % 100) by {
        assert(u.last() == c[1]);
        assert(u.drop_last().last() == c[0]);
    }
    assert(text::number(a + b) == text::number(a) * 100 + micros / 100 % 100) by {
        assert((a + b).last() == b[1]);
        assert((a + b).drop_last().last() == b[0]);
    }
}

proof fn lemma_two_digits(n: int)
    requires
        0 <= n < 100,
    ensures
        text::number(two_digits(n)) == n,
        two_digits(n).len() == 2,
        two_digits(n)[0] as int - '0' as int == n / 10,
        two_digits(n)[1] as int - '0' as int == n % 10,
{
    reveal_with_fuel(text::number, 3);
    let t = two_digits(n);
    assert(t[0] as int == 48 + n / 10);
    assert(t[1] as int == 48 + n % 10);
    assert('0' as int == 48);
    assert(t.drop_last().drop_last() =~= Seq::empty());
    assert(t.last() == t[1]);
    assert(t.drop_last().last() == t[0]);
}

} // verus!

//! Timestamps of events, and their conversion from and to the system clock.

use vstd::prelude::*;
use std::time::{Duration, SystemTime, SystemTimeError};

verus! {

/// A point in time as the kernel stamps it on an event: whole seconds since
/// the epoch and the microseconds within the second. A time before the epoch
/// has negative seconds and counts its microseconds backwards.
#[derive(Copy, Clone, Debug, PartialEq, Eq, Structural)]
pub struct TimeVal {
    pub tv_sec: i64,
    pub tv_usec: i64,
}

/// The largest count of microseconds whose nanoseconds fit 32 bits.
pub const MAX_MICROS: i64 = 4_294_967;

impl TimeVal {
    /// The epoch itself: the stamp of an event that was never timed.
    pub open spec fn zero() -> TimeVal {
        TimeVal { tv_sec: 0, tv_usec: 0 }
    }

    /// The stamp of the time that lies `secs` seconds and `micros`
    /// microseconds after the epoch, or before it. Seconds beyond the signed
    /// range wrap around as in two's complement.
    pub open spec fn of_offset(after_epoch: bool, secs: u64, micros: u32) -> TimeVal {
        let signed: int = if secs <= i64::MAX {
            secs as int
        } else {
            secs - 0x1_0000_0000_0000_0000
        };
        let tv_sec = if after_epoch {
            signed
        } else if signed == i64::MIN {
            signed
        } else {
            -signed
        };
        TimeVal { tv_sec: tv_sec as i64, tv_usec: micros as i64 }
    }

    /// The distance of the stamp from the epoch: whether it lies after it,
    /// the whole seconds, and the rest in nanoseconds. A stamp whose
    /// microseconds are negative, or too many to count in nanoseconds, has
    /// none.
    pub open spec fn offset(self) -> Option<(bool, u64, u32)> {
        if 0 <= self.tv_usec <= MAX_MICROS {
            let secs = if self.tv_sec >= 0 {
                self.tv_sec as int
            } else {
                -(self.tv_sec as int)
            };
            Some((self.tv_sec >= 0, secs as u64, (self.tv_usec * 1000) as u32))
        } else {
            None
        }
    }

    /// Makes the stamp of a distance from the epoch.
    pub fn from_offset(after_epoch: bool, secs: u64, micros: u32) -> (tv: TimeVal)
        ensures
            tv == TimeVal::of_offset(after_epoch, secs, micros),
    {
        let signed: i64 = if secs <= 0x7fff_ffff_ffff_ffff {
            secs as i64
        } else {
            (secs - 0x8000_0000_0000_0000) as i64 + i64::MIN
        };
        let tv_sec: i64 = if after_epoch || signed == i64::MIN {
            signed
        } else {
            -signed
        };
        TimeVal { tv_sec, tv_usec: micros as i64 }
    }

    /// Splits the stamp into its distance from the epoch.
    pub fn to_offset(&self) -> (parts: Option<(bool, u64, u32)>)
        ensures
            parts == self.offset(),
    {
        if 0 <= self.tv_usec && self.tv_usec <= MAX_MICROS {
            let secs: u64 = if self.tv_sec >= 0 {
                self.tv_sec as u64
            } else {
                (-(self.tv_sec + 1)) as u64 + 1
            };
            Some((self.tv_sec >= 0, secs, (self.tv_usec * 1000) as u32))
        } else {
            None
        }
    }
}

/// A point in time of the system clock.
#[verifier::external_type_specification]
#[verifier::external_body]
pub struct ExSystemTime(SystemTime);

/// The error of asking how long after an earlier time a later one lies.
#[verifier::external_type_specification]
#[verifier::external_body]
pub struct ExSystemTimeError(SystemTimeError);

/// `SystemTime::now`: the current time of the system clock. Nothing is
/// claimed of it.
#[verifier::external_body]
fn clock_now() -> (now: SystemTime) {
    SystemTime::now()
}

/// What `SystemTime::duration_since` gives for a time and the epoch.
pub uninterp spec fn elapsed_since_epoch(time: SystemTime) -> Result<Duration, SystemTimeError>;

/// `SystemTime::duration_since` with the epoch: how long after the epoch the
/// time lies, or the error that holds how long before. The claim is that the
/// time alone decides the answer.
#[verifier::external_body]
fn since_epoch(time: &SystemTime) -> (elapsed: Result<Duration, SystemTimeError>)
    ensures
        elapsed == elapsed_since_epoch(*time),
{
    time.duration_since(SystemTime::UNIX_EPOCH)
}

/// What `SystemTimeError::duration` gives for an error.
pub uninterp spec fn error_span(error: SystemTimeError) -> Duration;

/// `SystemTimeError::duration`: how long before the earlier time the later
/// one lies. The claim is that the error alone decides the answer.
#[verifier::external_body]
fn error_duration(error: &SystemTimeError) -> (before: Duration)
    ensures
        before == error_span(*error),
{
    error.duration()
}

/// What `Duration::as_secs` gives for a duration.
pub uninterp spec fn span_secs(duration: Duration) -> u64;

/// `Duration::as_secs`: the whole seconds of a duration. The claim is that
/// the duration alone decides them.
#[verifier::external_body]
fn whole_secs(duration: &Duration) -> (secs: u64)
    ensures
        secs == span_secs(*duration),
{
    duration.as_secs()
}

/// What `Duration::subsec_micros` gives for a duration.
pub uninterp spec fn span_micros(duration: Duration) -> u32;

/// `Duration::subsec_micros`: the part of a duration below the second, in
/// whole microseconds. The claim is that the duration alone decides it, and
/// that it is less than a second.
#[verifier::external_body]
fn subsec_micros(duration: &Duration) -> (micros: u32)
    ensures
        micros == span_micros(*duration),
        micros < 1_000_000,
{
    duration.subsec_micros()
}

/// The stamp of a time of the system clock: the stamp of its distance from
/// the epoch, which lies after the epoch where the clock can say how long
/// after, and before it where the clock says how long before.
pub open spec fn stamp_of(time: SystemTime) -> TimeVal {
    match elapsed_since_epoch(time) {
        Ok(elapsed) => TimeVal::of_offset(true, span_secs(elapsed), span_micros(elapsed)),
        Err(error) => TimeVal::of_offset(
            false,
            span_secs(error_span(error)),
            span_micros(error_span(error)),
        ),
    }
}

/// What `Duration::new` gives for seconds and nanoseconds.
pub uninterp spec fn span_of(secs: u64, nanos: u32) -> Duration;

/// `Duration::new`: the duration of so many seconds and nanoseconds. The
/// seconds that the nanoseconds carry must not overflow the seconds. The
/// claim is that the two numbers alone decide the duration.
#[verifier::external_body]
fn make_duration(secs: u64, nanos: u32) -> (duration: Duration)
    requires
        secs + nanos / 1_000_000_000 <= u64::MAX,
    ensures
        duration == span_of(secs, nanos),
{
    Duration::new(secs, nanos)
}

/// What `SystemTime::checked_add` gives for the epoch and a duration.
pub uninterp spec fn time_after_epoch(duration: Duration) -> Option<SystemTime>;

/// `SystemTime::checked_add` on the epoch: the time so long after the epoch,
/// if the clock can represent it. The claim is that the duration alone
/// decides the answer.
#[verifier::external_body]
fn epoch_plus(duration: Duration) -> (time: Option<SystemTime>)
    ensures
        time == time_after_epoch(duration),
{
    SystemTime::UNIX_EPOCH.checked_add(duration)
}

/// What `SystemTime::checked_sub` gives for the epoch and a duration.
pub uninterp spec fn time_before_epoch(duration: Duration) -> Option<SystemTime>;

/// `SystemTime::checked_sub` on the epoch: the time so long before the
/// epoch, if the clock can represent it. The claim is that the duration
/// alone decides the answer.
#[verifier::external_body]
fn epoch_minus(duration: Duration) -> (time: Option<SystemTime>)
    ensures
        time == time_before_epoch(duration),
{
    SystemTime::UNIX_EPOCH.checked_sub(duration)
}

/// The time of the system clock that a stamp names: the time that lies the
/// stamp's distance after the epoch, or before it, where the clock can
/// represent that time. A stamp without a distance from the epoch names
/// none.
pub open spec fn time_of(tv: TimeVal) -> Option<SystemTime> {
    match tv.offset() {
        None => None,
        Some((after_epoch, secs, nanos)) => if after_epoch {
            time_after_epoch(span_of(secs, nanos))
        } else {
            time_before_epoch(span_of(secs, nanos))
        },
    }
}

/// The stamp of a time of the system clock. Its microseconds are those of
/// the time's distance from the epoch, and so less than a second.
pub fn systime_to_timeval(time: &SystemTime) -> (tv: TimeVal)
    ensures
        tv == stamp_of(*time),
        0 <= tv.tv_usec < 1_000_000,
{
    match since_epoch(time) {
        Ok(elapsed) => TimeVal::from_offset(true, whole_secs(&elapsed), subsec_micros(&elapsed)),
        Err(error) => {
            let before = error_duration(&error);
            TimeVal::from_offset(false, whole_secs(&before), subsec_micros(&before))
        },
    }
}

/// The stamp of the present moment: the stamp of the time that the system
/// clock gives, whichever that is.
pub fn timeval_now() -> (tv: TimeVal)
    ensures
        exists|now: SystemTime| tv == #[trigger] stamp_of(now),
        0 <= tv.tv_usec < 1_000_000,
{
    let now = clock_now();
    systime_to_timeval(&now)
}

/// The time of the system clock that a stamp names. There is none for a
/// stamp without a distance from the epoch, nor for one that the clock
/// cannot represent.
pub fn timeval_to_systime(tv: &TimeVal) -> (time: Option<SystemTime>)
    ensures
        time == time_of(*tv),
{
    match tv.to_offset() {
        None => None,
        Some((after_epoch, secs, nanos)) => {
            let distance = make_duration(secs, nanos);
            if after_epoch {
                epoch_plus(distance)
            } else {
                epoch_minus(distance)
            }
        },
    }
}

} // verus!

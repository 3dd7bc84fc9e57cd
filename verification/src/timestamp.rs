//! Points in time with nanosecond resolution, read from the system clock and shifted through
//! `chrono`'s calendar.

use crate::model::option_view;
use vstd::prelude::*;

verus! {

/// Number of nanoseconds in one second.
pub const NANOS_PER_SECOND: u32 = 1_000_000_000;

/// The first second of `chrono`'s calendar, counted from the Unix epoch: midnight on
/// January 1 of the year -262143.
pub const CALENDAR_FIRST_SECOND: i64 = -8_334_601_228_800;

/// The last second of `chrono`'s calendar, counted from the Unix epoch: 23:59:59 on
/// December 31 of the year 262142.
pub const CALENDAR_LAST_SECOND: i64 = 8_210_266_876_799;

/// Mathematical model of a point in time: whole seconds since the Unix epoch (UTC) and the
/// nanoseconds elapsed within that second.
pub struct Instant {
    pub secs: int,
    pub nanos: int,
}

/// Whether a count of seconds since the Unix epoch falls within the calendar.
pub open spec fn within_calendar(secs: int) -> bool {
    CALENDAR_FIRST_SECOND <= secs <= CALENDAR_LAST_SECOND
}

impl Instant {
    /// The instant fits the executable representation and does not denote a leap second.
    pub open spec fn wf(self) -> bool {
        &&& i64::MIN <= self.secs <= i64::MAX
        &&& 0 <= self.nanos < NANOS_PER_SECOND
    }

    /// The instant lies within the calendar.
    pub open spec fn in_calendar(self) -> bool {
        within_calendar(self.secs)
    }

    /// The instant `seconds` later, with the fraction of the second unchanged.
    pub open spec fn plus_seconds(self, seconds: int) -> Instant {
        Instant { secs: self.secs + seconds, nanos: self.nanos }
    }

    /// `self` lies strictly before `other`.
    pub open spec fn is_before(self, other: Instant) -> bool {
        self.secs < other.secs || (self.secs == other.secs && self.nanos < other.nanos)
    }

    /// The instant `seconds` later, when both instants lie within the calendar.
    pub open spec fn shifted(self, seconds: int) -> Option<Instant> {
        if self.in_calendar() && self.plus_seconds(seconds).in_calendar() {
            Some(self.plus_seconds(seconds))
        } else {
            None
        }
    }
}

/// What a reading of the system clock can be: nothing, or a well-formed instant of the
/// calendar at or after the Unix epoch.
pub open spec fn is_clock_reading(clock: Option<Instant>) -> bool {
    clock matches Some(now) ==> now.wf() && now.in_calendar() && 0 <= now.secs
}

/// A point in time (UTC), never inside a leap second.
#[derive(Clone, Copy, Debug, PartialEq, Eq)]
pub struct Timestamp {
    secs: i64,
    nanos: u32,
}

impl View for Timestamp {
    type V = Instant;

    closed spec fn view(&self) -> Instant {
        Instant { secs: self.secs as int, nanos: self.nanos as int }
    }
}

/// The time elapsed since the Unix epoch, as whole seconds and the nanoseconds of the
/// fraction, read through `std::time::SystemTime::elapsed`.  There is no reading when the
/// system clock shows a time before the epoch.  `Duration::subsec_nanos` is documented to be
/// below one second.
#[verifier::external_body]
fn elapsed_since_epoch() -> (r: Option<(u64, u32)>)
    ensures
        r matches Some(parts) ==> parts.1 < NANOS_PER_SECOND,
{
    let elapsed = std::time::UNIX_EPOCH.elapsed().ok()?;
    Some((elapsed.as_secs(), elapsed.subsec_nanos()))
}

/// Places a count of seconds since the Unix epoch in the calendar through
/// `chrono::DateTime::from_timestamp`, which accepts exactly the seconds of the days from
/// `NaiveDate::MIN` to `NaiveDate::MAX` and is documented to round-trip with `timestamp` and
/// `timestamp_subsec_nanos`.
#[verifier::external_body]
fn chrono_from_timestamp(secs: i64, nanos: u32) -> (r: Option<Timestamp>)
    requires
        nanos < NANOS_PER_SECOND,
    ensures
        r is Some <==> within_calendar(secs as int),
        r matches Some(t) ==> t.secs == secs && t.nanos == nanos,
{
    let at = chrono::DateTime::from_timestamp(secs, nanos)?;
    Some(Timestamp { secs: at.timestamp(), nanos: at.timestamp_subsec_nanos() })
}

/// Adds whole seconds to a point in time through `chrono::DateTime::checked_add_signed`,
/// with `DateTime::from_timestamp` and `TimeDelta::try_seconds` converting the arguments.
/// There is a result exactly when the point in time and the sum both lie within the
/// calendar; a span that `TimeDelta` cannot hold leads out of the calendar from any point
/// within it.  The result is exactly `seconds` later and keeps the sub-second part.
#[verifier::external_body]
fn chrono_checked_add(at: &Timestamp, seconds: i64) -> (r: Option<Timestamp>)
    requires
        at.nanos < NANOS_PER_SECOND,
    ensures
        r is Some <==> (within_calendar(at.secs as int) && within_calendar(at.secs + seconds)),
        r matches Some(t) ==> t.secs == at.secs + seconds && t.nanos == at.nanos,
{
    let start = chrono::DateTime::from_timestamp(at.secs, at.nanos)?;
    let delta = chrono::TimeDelta::try_seconds(seconds)?;
    let end = start.checked_add_signed(delta)?;
    Some(Timestamp { secs: end.timestamp(), nanos: end.timestamp_subsec_nanos() })
}

impl Timestamp {
    #[verifier::type_invariant]
    spec fn within_second(self) -> bool {
        self.nanos < NANOS_PER_SECOND
    }

    /// A timestamp from seconds since the Unix epoch and the nanoseconds within the second.
    /// Rejects a sub-second part of one second or more.
    pub fn new(secs: i64, nanos: u32) -> (r: Option<Timestamp>)
        ensures
            r is Some <==> nanos < NANOS_PER_SECOND,
            r matches Some(t) ==> t@ == (Instant { secs: secs as int, nanos: nanos as int }),
    {
        if nanos < NANOS_PER_SECOND {
            Some(Timestamp { secs, nanos })
        } else {
            None
        }
    }

    /// Whole seconds since the Unix epoch.
    pub fn secs(&self) -> (r: i64)
        ensures
            r == self@.secs,
    {
        self.secs
    }

    /// Nanoseconds elapsed within the second.
    pub fn nanos(&self) -> (r: u32)
        ensures
            r == self@.nanos,
            r < NANOS_PER_SECOND,
    {
        proof {
            use_type_invariant(self);
        }
        self.nanos
    }

    /// The instant that the clock's reading amounts to: the seconds and nanoseconds elapsed
    /// since the Unix epoch, when there is a reading, its fraction is below one second and it
    /// lies within the calendar.
    pub open spec fn of_elapsed(elapsed: Option<(u64, u32)>) -> Option<Instant> {
        match elapsed {
            Some((secs, nanos)) => if nanos < NANOS_PER_SECOND && secs <= CALENDAR_LAST_SECOND {
                Some(Instant { secs: secs as int, nanos: nanos as int })
            } else {
                None
            },
            None => None,
        }
    }

    /// Turns what the system clock read into a timestamp.  A clock that shows no time since
    /// the epoch, or one beyond the calendar, gives none.
    pub fn from_elapsed(elapsed: Option<(u64, u32)>) -> (r: Option<Timestamp>)
        ensures
            option_view(r) == Timestamp::of_elapsed(elapsed),
    {
        match elapsed {
            Some((secs, nanos)) => {
                if nanos < NANOS_PER_SECOND && secs <= 0x7fff_ffff_ffff_ffff {
                    chrono_from_timestamp(secs as i64, nanos)
                } else {
                    None
                }
            },
            None => None,
        }
    }

    /// The current time according to the system clock, if the clock can be read as a time of
    /// the calendar since the Unix epoch.
    pub fn now() -> (r: Option<Timestamp>)
        ensures
            is_clock_reading(option_view(r)),
    {
        Timestamp::from_elapsed(elapsed_since_epoch())
    }

    /// The timestamp `seconds` later, or `None` when the calendar cannot represent it.
    pub fn checked_add_seconds(&self, seconds: i64) -> (r: Option<Timestamp>)
        ensures
            option_view(r) == self@.shifted(seconds as int),
    {
        proof {
            use_type_invariant(self);
        }
        chrono_checked_add(self, seconds)
    }

    /// Whether `self` lies strictly before `other`.
    pub fn is_before(&self, other: &Timestamp) -> (r: bool)
        ensures
            r == self@.is_before(other@),
    {
        self.secs < other.secs || (self.secs == other.secs && self.nanos < other.nanos)
    }
}

} // verus!

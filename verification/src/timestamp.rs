//! Points in time and their order.

use vstd::prelude::*;
use chrono::DateTime;

verus! {

/// The nanoseconds that can follow on `secs` whole seconds: less than a
/// second of them, or less than two where the second is the last of its
/// minute and a leap second may follow on it.
pub open spec fn valid_nanos(secs: int, nanos: int) -> bool {
    nanos < 1_000_000_000 || (nanos < 2_000_000_000 && secs % 60 == 59)
}

/// The seconds since the epoch that are sure to lie within the calendar,
/// which reaches some 262 000 years to either side.
pub open spec fn within_calendar(secs: int) -> bool {
    -8_000_000_000_000 <= secs <= 8_000_000_000_000
}

/// `chrono::DateTime::from_timestamp`, with the time that it made handed
/// back as its `timestamp` and its `timestamp_subsec_nanos`.
///
/// The time that chrono makes gives back the seconds and nanoseconds that
/// it was made from. For seconds within the calendar it makes one exactly
/// where the nanoseconds stay below a second, or below two in the last
/// second of a minute. Nothing is said of when it makes one for seconds
/// further out.
#[verifier::external_body]
fn datetime_from_timestamp(secs: i64, nsecs: u32) -> (parts: Option<(i64, u32)>)
    ensures
        parts matches Some(made) ==> made == (secs, nsecs),
        within_calendar(secs as int) ==> (parts is Some <==> valid_nanos(
            secs as int,
            nsecs as int,
        )),
{
    match DateTime::from_timestamp(secs, nsecs) {
        Some(time) => Some((time.timestamp(), time.timestamp_subsec_nanos())),
        None => None,
    }
}

/// A point in time: whole seconds since the Unix epoch and the nanoseconds
/// into that second.
///
/// Timestamps are ordered by their seconds first and by their nanoseconds
/// second, whatever the two fields hold.
#[derive(Debug, Clone, Copy, PartialEq, Eq, Hash, Structural)]
pub struct Timestamp {
    pub secs: i64,
    pub nanos: u32,
}

impl Timestamp {
    /// `self` lies strictly before `other`.
    pub open spec fn is_before(self, other: Timestamp) -> bool {
        self.secs < other.secs || (self.secs == other.secs && self.nanos < other.nanos)
    }

    /// The later of the two; `self` where they are equal.
    pub open spec fn later_of(self, other: Timestamp) -> Timestamp {
        if self.is_before(other) {
            other
        } else {
            self
        }
    }

    /// `self` moved `seconds` into the future still lies strictly before
    /// `other`.
    pub open spec fn is_before_after(self, seconds: int, other: Timestamp) -> bool {
        self.secs + seconds < other.secs || (self.secs + seconds == other.secs && self.nanos
            < other.nanos)
    }

    /// The timestamp of these seconds and nanoseconds, whatever they are.
    pub fn new(secs: i64, nanos: u32) -> (t: Timestamp)
        ensures
            t == (Timestamp { secs, nanos }),
    {
        Timestamp { secs, nanos }
    }

    /// The time `secs` seconds and `nanos` nanoseconds after the epoch, if
    /// the calendar knows such a time. For seconds within the calendar it
    /// does exactly where `valid_nanos` holds.
    pub fn from_timestamp(secs: i64, nanos: u32) -> (t: Option<Timestamp>)
        ensures
            t matches Some(ts) ==> ts == (Timestamp { secs, nanos }),
            within_calendar(secs as int) ==> (t is Some <==> valid_nanos(
                secs as int,
                nanos as int,
            )),
    {
        match datetime_from_timestamp(secs, nanos) {
            Some((secs, nanos)) => Some(Timestamp { secs, nanos }),
            None => None,
        }
    }

    /// The timestamp of a whole second.
    pub fn from_secs(secs: i64) -> (t: Timestamp)
        ensures
            t == (Timestamp { secs, nanos: 0 }),
    {
        Timestamp { secs, nanos: 0 }
    }

    /// Whether `self` lies strictly before `other`.
    pub fn lt(&self, other: &Timestamp) -> (b: bool)
        ensures
            b == self.is_before(*other),
    {
        self.secs < other.secs || (self.secs == other.secs && self.nanos < other.nanos)
    }

    /// The later of the two.
    pub fn max(self, other: Timestamp) -> (t: Timestamp)
        ensures
            t == self.later_of(other),
    {
        if self.lt(&other) {
            other
        } else {
            self
        }
    }

    /// Whether `self` plus `seconds` is still strictly before `other`. The
    /// sum is taken in the integers: it cannot overflow.
    pub fn lt_after(&self, seconds: u32, other: &Timestamp) -> (b: bool)
        ensures
            b == self.is_before_after(seconds as int, *other),
    {
        let shifted: i128 = self.secs as i128 + seconds as i128;
        let limit: i128 = other.secs as i128;
        shifted < limit || (shifted == limit && self.nanos < other.nanos)
    }
}

/// The later of an optional earlier timestamp and a new one.
pub open spec fn advance(last: Option<Timestamp>, ts: Timestamp) -> Timestamp {
    match last {
        Some(t) => t.later_of(ts),
        None => ts,
    }
}

/// The order of timestamps is strict and total.
pub proof fn lemma_order_is_total(a: Timestamp, b: Timestamp, c: Timestamp)
    ensures
        !a.is_before(a),
        a.is_before(b) || b.is_before(a) || a == b,
        a.is_before(b) ==> !b.is_before(a),
        a.is_before(b) && b.is_before(c) ==> a.is_before(c),
{
}

/// The later of two timestamps is one of them and before neither.
pub proof fn lemma_later_of_is_upper_bound(a: Timestamp, b: Timestamp)
    ensures
        a.later_of(b) == a || a.later_of(b) == b,
        !a.later_of(b).is_before(a),
        !a.later_of(b).is_before(b),
{
}

} // verus!

//! Times during flight.

use vstd::prelude::*;
use core::cmp::Ordering;
use vstd::std_specs::cmp::PartialOrdIs;
use vstd::std_specs::cmp::PartialOrdSpecImpl;

verus! {

/// A time during flight, measured in milliseconds since boot.
#[derive(Clone, Copy, Debug, PartialEq, Eq, Ord, Structural)]
pub struct FlightTime(u64);

impl View for FlightTime {
    type V = u64;

    closed spec fn view(&self) -> u64 {
        self.0
    }
}

impl FlightTime {
    /// A time of `millis` milliseconds after boot.
    pub fn from_millis(millis: u64) -> (r: Self)
        ensures
            r@ == millis,
    {
        FlightTime(millis)
    }

    /// The current time, from `embassy_time::Instant::now`. The clock is
    /// outside the library, so nothing is stated of the value.
    #[verifier::external_body]
    pub fn now() -> (r: Self) {
        FlightTime(embassy_time::Instant::now().as_millis())
    }

    /// Converts the [`FlightTime`] into a count of milliseconds.
    pub fn as_millis(self) -> (r: u64)
        ensures
            r == self@,
    {
        self.0
    }

    /// The time as whole seconds and the milliseconds past them.
    pub fn seconds_and_millis(self) -> (r: (u64, u64))
        ensures
            r.0 == self@ / 1000,
            r.1 == self@ % 1000,
            r.0 * 1000 + r.1 == self@,
    {
        (self.0 / 1000, self.0 % 1000)
    }
}

/// The count of milliseconds of a [`FlightTime`].
impl From<FlightTime> for u64 {
    fn from(value: FlightTime) -> (r: u64)
        ensures
            r == value@,
    {
        value.0
    }
}

impl vstd::std_specs::convert::FromSpecImpl<FlightTime> for u64 {
    open spec fn obeys_from_spec() -> bool {
        true
    }

    open spec fn from_spec(v: FlightTime) -> u64 {
        v@
    }
}

/// How two millisecond counts compare.
pub open spec fn millis_order(a: u64, b: u64) -> Ordering {
    if a < b {
        Ordering::Less
    } else if a == b {
        Ordering::Equal
    } else {
        Ordering::Greater
    }
}

/// Times compare as their millisecond counts.
impl PartialOrd for FlightTime {
    fn partial_cmp(&self, other: &Self) -> (r: Option<Ordering>)
        ensures
            r == Some(millis_order(self@, other@)),
    {
        if self.0 < other.0 {
            Some(Ordering::Less)
        } else if self.0 == other.0 {
            Some(Ordering::Equal)
        } else {
            Some(Ordering::Greater)
        }
    }
}

impl PartialOrdSpecImpl for FlightTime {
    open spec fn obeys_partial_cmp_spec() -> bool {
        true
    }

    open spec fn partial_cmp_spec(&self, other: &Self) -> Option<Ordering> {
        Some(millis_order(self@, other@))
    }
}

/// Times are ordered, and equal, as their millisecond counts are: `a <= b`
/// (and `<`, `>=`, `>`) on times means the same comparison of `a@` and `b@`.
pub proof fn lemma_flight_time_order(a: FlightTime, b: FlightTime)
    ensures
        a.is_le(&b) == (a@ <= b@),
        a.is_lt(&b) == (a@ < b@),
        a.is_ge(&b) == (a@ >= b@),
        a.is_gt(&b) == (a@ > b@),
        (a == b) == (a@ == b@),
{
    if a@ == b@ {
        assert(a == b);
    }
}

} // verus!

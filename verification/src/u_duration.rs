//! Spans of time, counted in microseconds.

use crate::u_timestamp::UTimestamp;
use std::ops::{Add, Sub};
use vstd::prelude::*;
use vstd::std_specs::ops::{AddSpecImpl, SubSpecImpl};

verus! {

/// The quotient of `a` by a positive `b`, rounded toward zero.
pub open spec fn div_toward_zero(a: int, b: int) -> int
    recommends
        b > 0,
{
    if a >= 0 {
        a / b
    } else {
        -((-a) / b)
    }
}

/// Whether `n` can be held in 64 signed bits.
pub open spec fn fits_i64(n: int) -> bool {
    i64::MIN <= n <= i64::MAX
}

/// A signed span of time. Its view is the number of microseconds.
#[derive(Clone, Copy, Debug, PartialEq, Eq, PartialOrd, Structural)]
pub struct UDuration {
    useconds_: i64,
}

impl View for UDuration {
    type V = int;

    closed spec fn view(&self) -> int {
        self.useconds_ as int
    }
}

impl UDuration {
    pub(crate) fn new(useconds: i64) -> (d: UDuration)
        ensures
            d@ == useconds,
    {
        UDuration { useconds_: useconds }
    }

    /// The span in microseconds.
    pub fn as_microseconds(&self) -> (r: i64)
        ensures
            r == self@,
    {
        self.useconds_
    }

    /// The span in whole milliseconds, rounded toward zero.
    pub fn as_milliseconds(&self) -> (r: i64)
        ensures
            r == div_toward_zero(self@, 1000),
    {
        self.useconds_ / 1000
    }

    /// The span in whole seconds, rounded toward zero.
    pub fn as_seconds(&self) -> (r: i64)
        ensures
            r == div_toward_zero(self@, 1_000_000),
    {
        self.useconds_ / 1000000
    }

    /// The span in whole minutes, rounded toward zero.
    pub fn as_minutes(&self) -> (r: i64)
        ensures
            r == div_toward_zero(self@, 60_000_000),
    {
        self.useconds_ / (1000000 * 60)
    }

    /// The span in whole hours, rounded toward zero.
    pub fn as_hours(&self) -> (r: i64)
        ensures
            r == div_toward_zero(self@, 3_600_000_000),
    {
        self.useconds_ / (1000000 * 3600)
    }

    /// The span of `useconds` microseconds.
    pub closed spec fn of(useconds: int) -> UDuration {
        UDuration { useconds_: useconds as i64 }
    }

    /// The span made of a count of microseconds has that count as its view.
    pub proof fn lemma_of(useconds: int)
        requires
            fits_i64(useconds),
        ensures
            UDuration::of(useconds)@ == useconds,
    {
    }

    /// Two spans of the same length are the same span.
    pub proof fn lemma_view_decides(a: UDuration, b: UDuration)
        requires
            a@ == b@,
        ensures
            a == b,
    {
    }
}

impl Default for UDuration {
    /// The empty span.
    fn default() -> (d: UDuration)
        ensures
            d@ == 0,
    {
        UDuration { useconds_: 0 }
    }
}

impl Add<UDuration> for UDuration {
    type Output = UDuration;

    /// The two spans together. The sum has to fit in 64 bits.
    fn add(self, other: UDuration) -> (sum: UDuration)
        ensures
            sum@ == self@ + other@,
    {
        UDuration::new(self.useconds_ + other.useconds_)
    }
}

impl AddSpecImpl<UDuration> for UDuration {
    open spec fn obeys_add_spec() -> bool {
        true
    }

    open spec fn add_req(self, other: UDuration) -> bool {
        fits_i64(self@ + other@)
    }

    open spec fn add_spec(self, other: UDuration) -> UDuration {
        UDuration::of(self@ + other@)
    }
}

impl Add<UTimestamp> for UDuration {
    type Output = UTimestamp;

    /// The point in time this span after `other`. It has to fit in 64 bits.
    fn add(self, other: UTimestamp) -> (sum: UTimestamp)
        ensures
            sum@ == self@ + other@,
    {
        let sum = other + self;
        proof {
            UTimestamp::lemma_of(self@ + other@);
            UTimestamp::lemma_view_decides(sum, UTimestamp::of(self@ + other@));
        }
        sum
    }
}

impl AddSpecImpl<UTimestamp> for UDuration {
    open spec fn obeys_add_spec() -> bool {
        true
    }

    open spec fn add_req(self, other: UTimestamp) -> bool {
        fits_i64(self@ + other@)
    }

    open spec fn add_spec(self, other: UTimestamp) -> UTimestamp {
        UTimestamp::of(self@ + other@)
    }
}

impl Sub<UDuration> for UDuration {
    type Output = UDuration;

    /// This span shortened by `other`. The difference has to fit in 64 bits.
    fn sub(self, other: UDuration) -> (difference: UDuration)
        ensures
            difference@ == self@ - other@,
    {
        UDuration::new(self.useconds_ - other.useconds_)
    }
}

impl SubSpecImpl<UDuration> for UDuration {
    open spec fn obeys_sub_spec() -> bool {
        true
    }

    open spec fn sub_req(self, other: UDuration) -> bool {
        fits_i64(self@ - other@)
    }

    open spec fn sub_spec(self, other: UDuration) -> UDuration {
        UDuration::of(self@ - other@)
    }
}

/// The span of `value` microseconds.
pub fn microseconds(value: i64) -> (d: UDuration)
    ensures
        d@ == value,
{
    UDuration::new(value)
}

/// The span of `value` milliseconds, which has to fit in 64 bits of
/// microseconds.
pub fn milliseconds(value: i64) -> (d: UDuration)
    requires
        fits_i64(value * 1000),
    ensures
        d@ == value * 1000,
{
    UDuration::new(value * 1000)
}

/// The span of `value` seconds, which has to fit in 64 bits of microseconds.
pub fn seconds(value: i64) -> (d: UDuration)
    requires
        fits_i64(value * 1_000_000),
    ensures
        d@ == value * 1_000_000,
{
    UDuration::new(value * 1000000)
}

/// The span of `value` minutes, which has to fit in 64 bits of microseconds.
pub fn minutes(value: i64) -> (d: UDuration)
    requires
        fits_i64(value * 60_000_000),
    ensures
        d@ == value * 60_000_000,
{
    UDuration::new(value * 1000000 * 60)
}

/// The span of `value` hours, which has to fit in 64 bits of microseconds.
pub fn hours(value: i64) -> (d: UDuration)
    requires
        fits_i64(value * 3_600_000_000),
    ensures
        d@ == value * 3_600_000_000,
{
    UDuration::new(value * 1000000 * 3600)
}

} // verus!

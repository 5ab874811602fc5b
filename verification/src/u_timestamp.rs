//! Points in time, counted in microseconds since the epoch.

use crate::u_duration::{fits_i64, microseconds, UDuration};
use std::ops::{Add, Sub};
use vstd::prelude::*;
use vstd::std_specs::ops::{AddSpecImpl, SubSpecImpl};

verus! {

/// A point in time. Its view is the number of microseconds since the epoch.
#[derive(Clone, Copy, Debug, PartialEq, Eq, Structural)]
pub struct UTimestamp {
    useconds_: i64,
}

impl View for UTimestamp {
    type V = int;

    closed spec fn view(&self) -> int {
        self.useconds_ as int
    }
}

impl UTimestamp {
    fn new(useconds: i64) -> (t: UTimestamp)
        ensures
            t@ == useconds,
    {
        UTimestamp { useconds_: useconds }
    }

    /// The point in time that lies `duration` after the epoch.
    pub fn from_duration(duration: UDuration) -> (t: UTimestamp)
        ensures
            t@ == duration@,
    {
        UTimestamp::new(duration.as_microseconds())
    }

    /// The span from the epoch to this point in time.
    pub fn time_since_epoch(&self) -> (d: UDuration)
        ensures
            d@ == self@,
    {
        microseconds(self.useconds_)
    }

    /// The point in time `useconds` microseconds after the epoch.
    pub closed spec fn of(useconds: int) -> UTimestamp {
        UTimestamp { useconds_: useconds as i64 }
    }

    /// The point in time made of a count of microseconds has that count as
    /// its view.
    pub proof fn lemma_of(useconds: int)
        requires
            fits_i64(useconds),
        ensures
            UTimestamp::of(useconds)@ == useconds,
    {
    }

    /// Two points in time with the same count are the same point.
    pub proof fn lemma_view_decides(a: UTimestamp, b: UTimestamp)
        requires
            a@ == b@,
        ensures
            a == b,
    {
    }
}

impl Default for UTimestamp {
    /// The epoch.
    fn default() -> (t: UTimestamp)
        ensures
            t@ == 0,
    {
        UTimestamp { useconds_: 0 }
    }
}

impl Add<UDuration> for UTimestamp {
    type Output = UTimestamp;

    /// The point in time `other` after this one. It has to fit in 64 bits.
    fn add(self, other: UDuration) -> (sum: UTimestamp)
        ensures
            sum@ == self@ + other@,
    {
        let sum = UTimestamp::new(self.useconds_ + other.as_microseconds());
        proof {
            UTimestamp::lemma_of(self@ + other@);
        }
        sum
    }
}

impl AddSpecImpl<UDuration> for UTimestamp {
    open spec fn obeys_add_spec() -> bool {
        true
    }

    open spec fn add_req(self, other: UDuration) -> bool {
        fits_i64(self@ + other@)
    }

    open spec fn add_spec(self, other: UDuration) -> UTimestamp {
        UTimestamp::of(self@ + other@)
    }
}

impl Sub<UDuration> for UTimestamp {
    type Output = UTimestamp;

    /// The point in time `other` before this one. It has to fit in 64 bits.
    fn sub(self, other: UDuration) -> (difference: UTimestamp)
        ensures
            difference@ == self@ - other@,
    {
        let difference = UTimestamp::new(self.useconds_ - other.as_microseconds());
        proof {
            UTimestamp::lemma_of(self@ - other@);
        }
        difference
    }
}

impl SubSpecImpl<UDuration> for UTimestamp {
    open spec fn obeys_sub_spec() -> bool {
        true
    }

    open spec fn sub_req(self, other: UDuration) -> bool {
        fits_i64(self@ - other@)
    }

    open spec fn sub_spec(self, other: UDuration) -> UTimestamp {
        UTimestamp::of(self@ - other@)
    }
}

impl Sub<UTimestamp> for UTimestamp {
    type Output = UDuration;

    /// The span from `other` to this point in time. It has to fit in 64 bits.
    fn sub(self, other: UTimestamp) -> (difference: UDuration)
        ensures
            difference@ == self@ - other@,
    {
        let difference = microseconds(self.useconds_ - other.useconds_);
        proof {
            UDuration::lemma_of(self@ - other@);
            UDuration::lemma_view_decides(difference, UDuration::of(self@ - other@));
        }
        difference
    }
}

impl SubSpecImpl<UTimestamp> for UTimestamp {
    open spec fn obeys_sub_spec() -> bool {
        true
    }

    open spec fn sub_req(self, other: UTimestamp) -> bool {
        fits_i64(self@ - other@)
    }

    open spec fn sub_spec(self, other: UTimestamp) -> UDuration {
        UDuration::of(self@ - other@)
    }
}

} // verus!

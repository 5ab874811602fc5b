//! Timestamps and durations as short texts for diagnostics.

use crate::text::{decimal_text, push_decimal};
use crate::time::{magnitude, push_s_ms_us, s_ms_us_text};
use crate::u_duration::{microseconds, UDuration};
use crate::u_timestamp::UTimestamp;
use vstd::prelude::*;
use vstd::string::StringExecFns;

verus! {

/// The sign written before a count: a minus for negative counts, nothing
/// otherwise.
pub open spec fn sign_text(n: int) -> Seq<char> {
    if n < 0 {
        "-"@
    } else {
        Seq::empty()
    }
}

/// A signed count of microseconds as `<s>s:<ms>ms:<us>us`, with a minus
/// sign in front if it is negative.
pub open spec fn signed_s_ms_us_text(useconds: int) -> Seq<char> {
    sign_text(useconds) + s_ms_us_text(magnitude(useconds))
}

/// A signed count of microseconds in the largest unit that divides it:
/// `<n>us` unless it is a whole number of milliseconds, `<n>ms` unless that
/// is a whole number of seconds, and `<n>s` otherwise; with a minus sign in
/// front if it is negative.
pub open spec fn largest_unit_text(useconds: int) -> Seq<char> {
    let us = magnitude(useconds);
    if us % 1000 != 0 {
        sign_text(useconds) + decimal_text(us) + "us"@
    } else if (us / 1000) % 1000 != 0 {
        sign_text(useconds) + decimal_text(us / 1000) + "ms"@
    } else {
        sign_text(useconds) + decimal_text(us / 1_000_000) + "s"@
    }
}

/// Formatting helpers. The type has no values of interest; its functions
/// are what it is for.
pub struct Utils {}

impl Utils {
    /// The time from `time_reference` to `timestamp` as
    /// `<s>s:<ms>ms:<us>us`, with a minus sign in front if `timestamp` is the
    /// earlier of the two. Timestamps count microseconds since 1970, so a
    /// reference such as the start of the session keeps the seconds short.
    pub fn to_string_s_ms_us(timestamp: UTimestamp, time_reference: UTimestamp) -> (s: String)
        ensures
            s@ == signed_s_ms_us_text(timestamp@ - time_reference@),
    {
        let to: i64 = timestamp.time_since_epoch().as_microseconds();
        let from: i64 = time_reference.time_since_epoch().as_microseconds();
        let difference: i128 = to as i128 - from as i128;
        let mut out = String::new();
        let t: u64 = if difference < 0 {
            out.append("-");
            (-difference) as u64
        } else {
            difference as u64
        };
        push_s_ms_us(&mut out, t);
        out
    }

    /// A duration in the largest unit that divides it: microseconds, else
    /// milliseconds, else seconds; with a minus sign if it is negative.
    pub fn to_string_us(duration: UDuration) -> (s: String)
        ensures
            s@ == largest_unit_text(duration@),
    {
        let value: i64 = duration.as_microseconds();
        let us: u64 = crate::time::magnitude_of(value);
        let mut out = String::new();
        if value < 0 {
            out.append("-");
        }
        if us % 1000 != 0 {
            push_decimal(&mut out, us);
            out.append("us");
        } else {
            let ms = us / 1000;
            if ms % 1000 != 0 {
                push_decimal(&mut out, ms);
                out.append("ms");
            } else {
                let s = ms / 1000;
                push_decimal(&mut out, s);
                out.append("s");
            }
        }
        out
    }

    /// The time from the epoch to `t`, as `to_string_s_ms_us` writes it.
    pub fn relative_time(t: UTimestamp) -> (s: String)
        ensures
            s@ == signed_s_ms_us_text(t@),
    {
        let reference = UTimestamp::from_duration(microseconds(0));
        Utils::to_string_s_ms_us(t, reference)
    }
}

} // verus!

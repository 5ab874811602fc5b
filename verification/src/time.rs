//! Durations written as seconds, milliseconds and microseconds.

use crate::text::{decimal_text, push_decimal};
use crate::u_duration::UDuration;
use vstd::prelude::*;
use vstd::string::StringExecFns;

verus! {

/// The absolute value of `n`.
pub open spec fn magnitude(n: int) -> nat {
    if n < 0 {
        (-n) as nat
    } else {
        n as nat
    }
}

/// A count of microseconds written as `<s>s:<ms>ms:<us>us`: whole seconds,
/// then the milliseconds and the microseconds that are left, each below 1000.
pub open spec fn s_ms_us_text(useconds: nat) -> Seq<char> {
    decimal_text(useconds / 1_000_000) + "s:"@ + decimal_text(useconds / 1000 % 1000) + "ms:"@
        + decimal_text(useconds % 1000) + "us"@
}

/// The absolute value of a 64-bit count. It always fits in 64 unsigned bits.
pub fn magnitude_of(value: i64) -> (m: u64)
    ensures
        m == magnitude(value as int),
{
    if value >= 0 {
        value as u64
    } else if value == i64::MIN {
        0x8000_0000_0000_0000
    } else {
        (-value) as u64
    }
}

/// Appends `useconds` microseconds to `out` as `<s>s:<ms>ms:<us>us`.
pub fn push_s_ms_us(out: &mut String, useconds: u64)
    ensures
        final(out)@ == old(out)@ + s_ms_us_text(useconds as nat),
{
    let us = useconds % 1000;
    let ms = useconds / 1000;
    let s = ms / 1000;
    let ms = ms % 1000;
    push_decimal(out, s);
    out.append("s:");
    push_decimal(out, ms);
    out.append("ms:");
    push_decimal(out, us);
    out.append("us");
}

/// The length of a duration as `<s>s:<ms>ms:<us>us`. The sign is dropped: a
/// negative duration is written like the positive one of the same length.
pub fn to_string_seconds(duration: UDuration) -> (s: String)
    ensures
        s@ == s_ms_us_text(magnitude(duration@)),
{
    let t = magnitude_of(duration.as_microseconds());
    let mut out = String::new();
    push_s_ms_us(&mut out, t);
    out
}

} // verus!

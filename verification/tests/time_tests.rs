use replicode::time::{magnitude_of, push_s_ms_us, to_string_seconds};
use replicode::u_duration::{hours, microseconds, milliseconds, minutes, seconds, UDuration};
use replicode::u_timestamp::UTimestamp;
use replicode::utils::Utils;

#[test]
fn duration_units() {
    assert_eq!(microseconds(5).as_microseconds(), 5);
    assert_eq!(milliseconds(5).as_microseconds(), 5_000);
    assert_eq!(seconds(5).as_microseconds(), 5_000_000);
    assert_eq!(minutes(5).as_microseconds(), 300_000_000);
    assert_eq!(hours(5).as_microseconds(), 18_000_000_000);
    assert_eq!(hours(-2).as_microseconds(), -7_200_000_000);
    assert_eq!(microseconds(i64::MIN).as_microseconds(), i64::MIN);
}

#[test]
fn duration_readings_round_toward_zero() {
    let d = microseconds(7_384_123_456);
    assert_eq!(d.as_microseconds(), 7_384_123_456);
    assert_eq!(d.as_milliseconds(), 7_384_123);
    assert_eq!(d.as_seconds(), 7_384);
    assert_eq!(d.as_minutes(), 123);
    assert_eq!(d.as_hours(), 2);
    let d = microseconds(-7_384_123_456);
    assert_eq!(d.as_milliseconds(), -7_384_123);
    assert_eq!(d.as_seconds(), -7_384);
    assert_eq!(d.as_minutes(), -123);
    assert_eq!(d.as_hours(), -2);
    assert_eq!(microseconds(-999).as_milliseconds(), 0);
    assert_eq!(microseconds(999).as_milliseconds(), 0);
    assert_eq!(microseconds(-1000).as_milliseconds(), -1);
}

#[test]
fn duration_default_is_empty() {
    assert_eq!(UDuration::default().as_microseconds(), 0);
    assert_eq!(UDuration::default(), microseconds(0));
}

#[test]
fn duration_arithmetic() {
    assert_eq!((seconds(2) + milliseconds(500)).as_microseconds(), 2_500_000);
    assert_eq!((seconds(2) - milliseconds(500)).as_microseconds(), 1_500_000);
    assert_eq!((milliseconds(500) - seconds(2)).as_microseconds(), -1_500_000);
    assert!(milliseconds(500) < seconds(2));
    assert!(microseconds(-1) < microseconds(0));
    assert_eq!(milliseconds(1000), seconds(1));
}

#[test]
fn timestamp_arithmetic() {
    let t = UTimestamp::from_duration(seconds(10));
    assert_eq!(t.time_since_epoch().as_microseconds(), 10_000_000);
    assert_eq!((t + seconds(1)).time_since_epoch().as_microseconds(), 11_000_000);
    assert_eq!((seconds(1) + t).time_since_epoch().as_microseconds(), 11_000_000);
    assert_eq!((t - seconds(1)).time_since_epoch().as_microseconds(), 9_000_000);
    let u = UTimestamp::from_duration(seconds(4));
    assert_eq!((t - u).as_microseconds(), 6_000_000);
    assert_eq!((u - t).as_microseconds(), -6_000_000);
    assert_eq!(UTimestamp::default().time_since_epoch().as_microseconds(), 0);
    assert_eq!(UTimestamp::default(), UTimestamp::from_duration(microseconds(0)));
}

#[test]
fn magnitudes() {
    assert_eq!(magnitude_of(0), 0);
    assert_eq!(magnitude_of(5), 5);
    assert_eq!(magnitude_of(-5), 5);
    assert_eq!(magnitude_of(i64::MAX), 9_223_372_036_854_775_807);
    assert_eq!(magnitude_of(i64::MIN), 9_223_372_036_854_775_808);
}

#[test]
fn seconds_milliseconds_microseconds() {
    assert_eq!(to_string_seconds(microseconds(0)), "0s:0ms:0us");
    assert_eq!(to_string_seconds(microseconds(1)), "0s:0ms:1us");
    assert_eq!(to_string_seconds(microseconds(999)), "0s:0ms:999us");
    assert_eq!(to_string_seconds(microseconds(1_000)), "0s:1ms:0us");
    assert_eq!(to_string_seconds(microseconds(1_234_567)), "1s:234ms:567us");
    assert_eq!(to_string_seconds(microseconds(-1_234_567)), "1s:234ms:567us");
    assert_eq!(to_string_seconds(seconds(3600)), "3600s:0ms:0us");
    assert_eq!(to_string_seconds(microseconds(i64::MAX)), "9223372036854s:775ms:807us");
    assert_eq!(to_string_seconds(microseconds(i64::MIN)), "9223372036854s:775ms:808us");
    let mut out = String::from("t=");
    push_s_ms_us(&mut out, 61_001_002);
    assert_eq!(out, "t=61s:1ms:2us");
}

#[test]
fn time_between_two_timestamps() {
    let at = |us: i64| UTimestamp::from_duration(microseconds(us));
    assert_eq!(Utils::to_string_s_ms_us(at(0), at(0)), "0s:0ms:0us");
    assert_eq!(Utils::to_string_s_ms_us(at(1_234_567), at(0)), "1s:234ms:567us");
    assert_eq!(Utils::to_string_s_ms_us(at(0), at(1_234_567)), "-1s:234ms:567us");
    assert_eq!(Utils::to_string_s_ms_us(at(5_000_000), at(4_999_999)), "0s:0ms:1us");
    assert_eq!(Utils::to_string_s_ms_us(at(4_999_999), at(5_000_000)), "-0s:0ms:1us");
    assert_eq!(
        Utils::to_string_s_ms_us(at(i64::MAX), at(i64::MIN)),
        "18446744073709s:551ms:615us"
    );
    assert_eq!(
        Utils::to_string_s_ms_us(at(i64::MIN), at(i64::MAX)),
        "-18446744073709s:551ms:615us"
    );
}

#[test]
fn time_since_the_epoch() {
    let at = |us: i64| UTimestamp::from_duration(microseconds(us));
    assert_eq!(Utils::relative_time(at(0)), "0s:0ms:0us");
    assert_eq!(Utils::relative_time(at(1_500_000)), "1s:500ms:0us");
    assert_eq!(Utils::relative_time(at(-1)), "-0s:0ms:1us");
    assert_eq!(Utils::relative_time(at(i64::MAX)), "9223372036854s:775ms:807us");
    assert_eq!(Utils::relative_time(at(i64::MIN)), "-9223372036854s:775ms:808us");
}

#[test]
fn duration_in_its_largest_unit() {
    assert_eq!(Utils::to_string_us(microseconds(0)), "0s");
    assert_eq!(Utils::to_string_us(microseconds(1)), "1us");
    assert_eq!(Utils::to_string_us(microseconds(1_001)), "1001us");
    assert_eq!(Utils::to_string_us(microseconds(1_000)), "1ms");
    assert_eq!(Utils::to_string_us(microseconds(1_500_000)), "1500ms");
    assert_eq!(Utils::to_string_us(microseconds(2_000_000)), "2s");
    assert_eq!(Utils::to_string_us(microseconds(-2_000_000)), "-2s");
    assert_eq!(Utils::to_string_us(microseconds(-250_000)), "-250ms");
    assert_eq!(Utils::to_string_us(microseconds(-7)), "-7us");
    assert_eq!(Utils::to_string_us(hours(1)), "3600s");
    assert_eq!(Utils::to_string_us(microseconds(i64::MIN)), "-9223372036854775808us");
}

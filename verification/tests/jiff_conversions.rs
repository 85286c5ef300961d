use jiff::tz::{Offset as JiffOffset, TimeZone};
use jiff::Timestamp;

use magnus::error::ExceptionClass;
use magnus::time::jiff_time::{
    fallback_warning, jiff_explicit_fixed_offset, jiff_time_zone_from_time,
    jiff_timestamp_from_timespec, jiff_timestamp_from_utc_fields, local_nanoseconds,
    local_seconds, timespec_from_jiff, timezone_object, zoned_time_plan, CivilFields, DstSource, JiffTimeZone, JiffTimestamp,
    JiffZoned, RubyZoneFacts, ZoneSource, ZonedTimePlan,
};
use magnus::time::Timespec;

fn model(t: Timestamp) -> JiffTimestamp {
    JiffTimestamp { second: t.as_second(), nanosecond: t.subsec_nanosecond() }
}

fn ruby_timespec(ts: Timespec) -> Timespec {
    let total = ts.tv_sec as i128 * 1_000_000_000 + ts.tv_nsec as i128;
    Timespec {
        tv_sec: total.div_euclid(1_000_000_000) as i64,
        tv_nsec: total.rem_euclid(1_000_000_000) as i64,
    }
}

fn fields(year: i16, month: i8, day: i8, hour: i8, minute: i8, second: i8) -> CivilFields {
    CivilFields { year, month, day, hour, minute, second }
}

#[test]
fn jiff_timestamp_from_ruby_nano_times() {
    let cases = [
        (0, 0),
        (1, 0),
        (-1, 0),
        (1, 123_456_789),
        (-1, 500_000_000),
        (0, 1),
        (0, 999_999_999),
    ];
    for (sec, nsec) in cases {
        let ts = ruby_timespec(Timespec { tv_sec: sec, tv_nsec: nsec });
        let got = jiff_timestamp_from_timespec(ts).unwrap();
        assert_eq!(got, model(Timestamp::new(sec, nsec as i32).unwrap()));
    }
}

#[test]
fn jiff_timestamp_new_normalizes_signs() {
    assert_eq!(
        JiffTimestamp::new(-1, 500_000_000),
        Some(JiffTimestamp { second: 0, nanosecond: -500_000_000 })
    );
    assert_eq!(
        JiffTimestamp::new(2, -999_999_999),
        Some(JiffTimestamp { second: 1, nanosecond: 1 })
    );
    assert_eq!(JiffTimestamp::new(0, 1_000_000_000), None);
    assert_eq!(JiffTimestamp::new(Timestamp::MIN.as_second(), -1), None);
}

#[test]
fn jiff_timestamp_limits_round_trip() {
    for expected in [Timestamp::MIN, Timestamp::MAX] {
        let ts = timespec_from_jiff(model(expected));
        assert_eq!(jiff_timestamp_from_timespec(ruby_timespec(ts)).unwrap(), model(expected));
    }
    for nanos in [1_i128, 123_456_789, 999_999_999, -500_000_000] {
        let expected = Timestamp::from_nanosecond(nanos).unwrap();
        let ts = timespec_from_jiff(model(expected));
        assert_eq!(jiff_timestamp_from_timespec(ruby_timespec(ts)).unwrap(), model(expected));
    }
    let negative = timespec_from_jiff(model(Timestamp::from_nanosecond(-500_000_000).unwrap()));
    assert_eq!(negative, Timespec { tv_sec: 0, tv_nsec: -500_000_000 });
    assert_eq!(ruby_timespec(negative), Timespec { tv_sec: -1, tv_nsec: 500_000_000 });
}

#[test]
fn jiff_timestamp_from_offset_times() {
    let instant = model(Timestamp::new(1_654_013_280, 123_456_789).unwrap());
    let got = jiff_timestamp_from_timespec(Timespec { tv_sec: 1_654_013_280, tv_nsec: 123_456_789 });
    assert_eq!(got.unwrap(), instant);
}

#[test]
fn jiff_timestamp_out_of_range() {
    for sec in [-377_705_023_202_i64, 253_402_207_201] {
        let err = jiff_timestamp_from_timespec(Timespec { tv_sec: sec, tv_nsec: 0 }).unwrap_err();
        assert!(err.is_kind_of(ExceptionClass::RangeError));
        assert!(err.message.contains("out of Time range"));
    }
    let err = jiff_timestamp_from_timespec(Timespec { tv_sec: 0, tv_nsec: i64::from(i32::MAX) + 1 }).unwrap_err();
    assert!(err.is_kind_of(ExceptionClass::RangeError));
}

#[test]
fn jiff_utc_fields_to_timestamp() {
    assert_eq!(
        jiff_timestamp_from_utc_fields(fields(1970, 1, 1, 0, 0, 0)).unwrap(),
        JiffTimestamp { second: 0, nanosecond: 0 }
    );
    assert_eq!(
        jiff_timestamp_from_utc_fields(fields(2024, 1, 11, 7, 30, 0)).unwrap().second,
        1_704_958_200
    );
    let err = jiff_timestamp_from_utc_fields(fields(2023, 2, 29, 0, 0, 0)).unwrap_err();
    assert!(err.is_kind_of(ExceptionClass::ArgError));
    let err = jiff_timestamp_from_utc_fields(fields(-9999, 1, 1, 0, 0, 0)).unwrap_err();
    assert!(err.is_kind_of(ExceptionClass::RangeError));
    assert_eq!(err.message, "out of Time range");
}

#[test]
fn jiff_zone_local_to_utc_uses_initial_timestamp_once() {
    let new_york = TimeZone::get("America/New_York").unwrap();
    let initial = model(Timestamp::new(1_730_611_800, 0).unwrap());
    let mut zone = JiffTimeZone::new_for_timestamp(new_york, initial);
    assert_eq!(zone.local_to_utc(None).unwrap(), 1_730_611_800);
    assert!(zone.initial_timestamp.is_none());
    // the same local time is ambiguous once the known instant is gone
    let err = zone.local_to_utc(Some(fields(2024, 11, 3, 1, 30, 0))).unwrap_err();
    assert!(err.is_kind_of(ExceptionClass::ArgError));
}

#[test]
fn jiff_zone_local_to_utc_resolves_fields() {
    let new_york = TimeZone::get("America/New_York").unwrap();
    let mut zone = JiffTimeZone::new(new_york);
    assert_eq!(zone.local_to_utc(Some(fields(2024, 1, 11, 2, 30, 0))).unwrap(), 1_704_958_200);
    assert_eq!(
        zone.local_to_utc(Some(fields(2024, 3, 10, 3, 30, 0))).unwrap(),
        jiff_timestamp_from_utc_fields(fields(2024, 3, 10, 7, 30, 0)).unwrap().second
    );
    for gap_or_fold in [fields(2024, 3, 10, 2, 30, 0), fields(2024, 11, 3, 1, 30, 0)] {
        let err = zone.local_to_utc(Some(gap_or_fold)).unwrap_err();
        assert!(err.is_kind_of(ExceptionClass::ArgError));
    }
    let err = zone.local_to_utc(Some(fields(2024, 13, 1, 0, 0, 0))).unwrap_err();
    assert!(err.is_kind_of(ExceptionClass::ArgError));
}

#[test]
fn jiff_zone_utc_to_local_abbr_and_dst() {
    let zone = JiffTimeZone::new(TimeZone::get("America/New_York").unwrap());
    // 2024-07-09T02:46:44Z is EDT, 2024-01-11T02:46:44Z is EST
    assert_eq!(zone.utc_to_local(fields(2024, 7, 9, 2, 46, 44)).unwrap(), 1_720_493_204 - 14_400);
    assert_eq!(zone.utc_to_local(fields(2024, 1, 11, 2, 46, 44)).unwrap(), 1_704_941_204 - 18_000);
    assert_eq!(zone.abbr(Timespec { tv_sec: 1_720_493_204, tv_nsec: 0 }).unwrap(), "EDT");
    assert_eq!(zone.abbr(Timespec { tv_sec: 1_704_941_204, tv_nsec: 0 }).unwrap(), "EST");
    assert!(zone.is_dst(DstSource::Resolved(1_720_493_204)).unwrap());
    assert!(!zone.is_dst(DstSource::Fields(fields(2024, 1, 11, 2, 46, 44))).unwrap());
    let err = zone.is_dst(DstSource::Resolved(i64::MAX)).unwrap_err();
    assert!(err.is_kind_of(ExceptionClass::RangeError));
    assert_eq!(err.message, "out of Time range");
    let err = zone.abbr(Timespec { tv_sec: 253_402_207_201, tv_nsec: 0 }).unwrap_err();
    assert!(err.is_kind_of(ExceptionClass::RangeError));
}

#[test]
fn jiff_zone_names() {
    let zone = JiffTimeZone::find_timezone("America/New_York").unwrap();
    assert!(zone.initial_timestamp.is_none());
    assert_eq!(zone.name().unwrap(), "America/New_York");
    assert_eq!(zone.to_s(), "America/New_York");
    assert!(JiffTimeZone::find_timezone("Not/A_Zone").is_none());
    let fixed = JiffTimeZone::new(TimeZone::fixed(JiffOffset::from_seconds(19_800).unwrap()));
    let err = fixed.name().unwrap_err();
    assert!(err.is_kind_of(ExceptionClass::TypeError));
    assert_eq!(err.message, "jiff timezone does not have a restorable name");
    assert_eq!(fixed.to_s(), "Jiff timezone");
}

#[test]
fn jiff_time_zone_from_ruby_time() {
    let facts = |jiff_zone, is_utc, zone_is_nil, utc_offset| RubyZoneFacts { jiff_zone, is_utc, zone_is_nil, utc_offset };
    let new_york = TimeZone::get("America/New_York").unwrap();
    match jiff_time_zone_from_time(facts(Some(new_york.clone()), false, false, -18_000)).unwrap() {
        ZoneSource::Jiff(tz) => assert_eq!(tz, new_york),
        _ => panic!("expected the Jiff zone"),
    }
    let utc = jiff_time_zone_from_time(facts(None, true, false, 0)).unwrap();
    assert!(matches!(utc, ZoneSource::Utc));
    assert_eq!(utc.into_time_zone(), TimeZone::UTC);
    let fixed = jiff_time_zone_from_time(facts(None, false, true, 19_800)).unwrap();
    assert!(matches!(fixed, ZoneSource::Fixed(19_800)));
    assert_eq!(fixed.into_time_zone(), TimeZone::fixed(JiffOffset::from_seconds(19_800).unwrap()));
    let err = jiff_time_zone_from_time(facts(None, false, true, 1 << 40)).unwrap_err();
    assert!(err.is_kind_of(ExceptionClass::RangeError));
    assert_eq!(err.message, "UTC offset out of range for jiff::tz::Offset");
    let err = jiff_time_zone_from_time(facts(None, false, true, 100_000)).unwrap_err();
    assert!(err.is_kind_of(ExceptionClass::RangeError));
    assert!(err.message.starts_with("UTC offset out of range for jiff::tz::Offset: "));
    let err = jiff_time_zone_from_time(facts(None, false, false, 3_600)).unwrap_err();
    assert!(err.is_kind_of(ExceptionClass::TypeError));
    assert_eq!(err.message, "Ruby Time timezone cannot be represented losslessly as jiff::TimeZone");
}

#[test]
fn jiff_explicit_fixed_offsets() {
    assert_eq!(jiff_explicit_fixed_offset(&TimeZone::UTC), None);
    assert_eq!(jiff_explicit_fixed_offset(&TimeZone::unknown()), None);
    assert_eq!(jiff_explicit_fixed_offset(&TimeZone::get("America/New_York").unwrap()), None);
    let fixed = TimeZone::fixed(JiffOffset::from_seconds(-86_399).unwrap());
    assert_eq!(jiff_explicit_fixed_offset(&fixed), Some(-86_399));
}

#[test]
fn jiff_zoned_time_plans() {
    let epoch = JiffTimestamp { second: 0, nanosecond: 0 };
    let utc = ZonedTimePlan::Utc(Timespec { tv_sec: 0, tv_nsec: 0 });
    match magnus::time::jiff_time::zoned_time_plan(JiffZoned { timestamp: epoch, time_zone: TimeZone::UTC }) {
        ZonedTimePlan::Utc(ts) => assert!(matches!(utc, ZonedTimePlan::Utc(u) if u == ts)),
        _ => panic!("expected a UTC time"),
    }
    for seconds in [-86_399, 86_399] {
        let tz = TimeZone::fixed(JiffOffset::from_seconds(seconds).unwrap());
        match magnus::time::jiff_time::zoned_time_plan(JiffZoned { timestamp: epoch, time_zone: tz }) {
            ZonedTimePlan::Fixed(ts, offset) => {
                assert_eq!(ts, Timespec { tv_sec: 0, tv_nsec: 0 });
                assert_eq!(offset.as_c_int(), seconds);
            }
            _ => panic!("expected a fixed offset"),
        }
    }
    for offset in [JiffOffset::MIN, JiffOffset::MAX] {
        let tz = TimeZone::fixed(offset);
        match magnus::time::jiff_time::zoned_time_plan(JiffZoned { timestamp: epoch, time_zone: tz }) {
            ZonedTimePlan::UtcWithWarning(ts, err) => {
                assert_eq!(ts, Timespec { tv_sec: 0, tv_nsec: 0 });
                assert!(err.is_kind_of(ExceptionClass::ArgError));
                assert_eq!(
                    err.message,
                    format!("utc_offset {} out of range (-86400 to 86400)", offset.seconds())
                );
            }
            _ => panic!("expected a UTC time with a warning"),
        }
    }
    let instant = model(Timestamp::new(1_720_493_204, 123_456_789).unwrap());
    let new_york = TimeZone::get("America/New_York").unwrap();
    match magnus::time::jiff_time::zoned_time_plan(JiffZoned { timestamp: instant, time_zone: new_york.clone() }) {
        ZonedTimePlan::Zone { local_nanoseconds, zone, utc } => {
            assert_eq!(local_nanoseconds, (1_720_493_204_i128 - 14_400) * 1_000_000_000 + 123_456_789);
            assert_eq!(zone.time_zone, new_york);
            assert_eq!(zone.initial_timestamp, Some(instant));
            assert_eq!(utc, Timespec { tv_sec: 1_720_493_204, tv_nsec: 123_456_789 });
        }
        _ => panic!("expected a time with a zone object"),
    }
    match magnus::time::jiff_time::zoned_time_plan(JiffZoned { timestamp: epoch, time_zone: TimeZone::unknown() }) {
        ZonedTimePlan::Zone { local_nanoseconds, .. } => assert_eq!(local_nanoseconds, 0),
        _ => panic!("expected a time with a zone object"),
    }
}

#[test]
fn jiff_local_arithmetic() {
    let t = JiffTimestamp { second: -2, nanosecond: -500_000_000 };
    assert_eq!(t.as_nanosecond(), -2_500_000_000);
    assert_eq!(local_nanoseconds(t, 3_600), 3_597_500_000_000);
    assert_eq!(local_seconds(t, -18_000).unwrap(), -18_002);
    let max = model(Timestamp::MAX);
    assert_eq!(local_seconds(max, 93_599).unwrap(), 253_402_207_200 + 93_599);
}

#[test]
fn jiff_fallback_warning_text() {
    assert_eq!(
        fallback_warning("ArgumentError: utc_offset 93599 out of range (-86400 to 86400)"),
        "could not represent jiff timezone in Ruby Time (ArgumentError: utc_offset 93599 out of range (-86400 to 86400)); using UTC"
    );
}

#[test]
fn jiff_utc_fields_at_the_range_limits() {
    assert_eq!(
        jiff_timestamp_from_utc_fields(fields(9999, 12, 30, 22, 0, 0)).unwrap(),
        JiffTimestamp { second: 253_402_207_200, nanosecond: 0 }
    );
    let err = jiff_timestamp_from_utc_fields(fields(9999, 12, 30, 22, 0, 1)).unwrap_err();
    assert!(err.is_kind_of(ExceptionClass::RangeError));
    assert_eq!(
        jiff_timestamp_from_utc_fields(fields(-9999, 1, 2, 1, 59, 59)).unwrap(),
        JiffTimestamp { second: -377_705_023_201, nanosecond: 0 }
    );
    let err = jiff_timestamp_from_utc_fields(fields(-9999, 1, 2, 1, 59, 58)).unwrap_err();
    assert!(err.is_kind_of(ExceptionClass::RangeError));
    assert_eq!(
        jiff_timestamp_from_utc_fields(fields(2000, 2, 29, 23, 59, 59)).unwrap().second,
        951_868_799
    );
    assert_eq!(
        jiff_timestamp_from_utc_fields(fields(1969, 12, 31, 23, 59, 59)).unwrap().second,
        -1
    );
}

#[test]
fn jiff_timezone_objects() {
    let new_york = TimeZone::get("America/New_York").unwrap();
    let zone = timezone_object(Some(new_york.clone())).unwrap();
    assert_eq!(zone.time_zone, new_york);
    assert!(zone.initial_timestamp.is_none());
    assert!(timezone_object(None).is_none());
    for name in ["UTC", "utc", "uTc"] {
        assert_eq!(JiffTimeZone::find_timezone(name).unwrap().time_zone, TimeZone::UTC);
    }
}

#[test]
fn jiff_zoned_times_round_trip() {
    let facts = |jiff_zone, is_utc, zone_is_nil, utc_offset| RubyZoneFacts { jiff_zone, is_utc, zone_is_nil, utc_offset };
    let new_york = TimeZone::get("America/New_York").unwrap();
    let fixed = TimeZone::fixed(JiffOffset::from_seconds(19_800).unwrap());
    let instants = [(1_704_941_204, 123_456_789), (0, -500_000_000), (-1, -5), (-86_400, 0)];
    for (second, nanosecond) in instants {
    let instant = model(Timestamp::new(second, nanosecond).unwrap());
    for tz in [TimeZone::UTC, fixed.clone(), new_york.clone()] {
        let back = match zoned_time_plan(JiffZoned { timestamp: instant, time_zone: tz.clone() }) {
            ZonedTimePlan::Utc(ts) => {
                assert_eq!(jiff_timestamp_from_timespec(ruby_timespec(ts)).unwrap(), instant);
                facts(None, true, false, 0)
            }
            ZonedTimePlan::Fixed(ts, offset) => {
                assert_eq!(jiff_timestamp_from_timespec(ruby_timespec(ts)).unwrap(), instant);
                facts(None, false, true, offset.as_c_int() as i64)
            }
            ZonedTimePlan::Zone { local_nanoseconds, mut zone, .. } => {
                assert_eq!(local_nanoseconds, (second as i128 - 18_000) * 1_000_000_000 + nanosecond as i128);
                let seconds = zone.local_to_utc(None).unwrap();
                let nanos = local_nanoseconds.rem_euclid(1_000_000_000) as i64;
                let ts = Timespec { tv_sec: seconds, tv_nsec: nanos };
                assert_eq!(jiff_timestamp_from_timespec(ruby_timespec(ts)).unwrap(), instant);
                facts(Some(zone.time_zone.clone()), false, false, -18_000)
            }
            ZonedTimePlan::UtcWithWarning(..) => panic!("the offset is within Ruby's range"),
        };
        assert_eq!(jiff_time_zone_from_time(back).unwrap().into_time_zone(), tz);
    }
    }
}

#[test]
fn jiff_zone_local_to_utc_rounds_stored_seconds_down() {
    let new_york = TimeZone::get("America/New_York").unwrap();
    let before_epoch = model(Timestamp::new(0, -500_000_000).unwrap());
    let mut zone = JiffTimeZone::new_for_timestamp(new_york.clone(), before_epoch);
    assert_eq!(zone.local_to_utc(None).unwrap(), -1);
    let after_epoch = model(Timestamp::new(0, 500_000_000).unwrap());
    let mut zone = JiffTimeZone::new_for_timestamp(new_york, after_epoch);
    assert_eq!(zone.local_to_utc(None).unwrap(), 0);
}

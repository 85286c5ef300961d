use chrono::{DateTime, Datelike, FixedOffset, TimeZone, Utc};

use magnus::error::ExceptionClass;
use magnus::time::chrono_time::{
    chrono_fixed_from_timespec, chrono_fixed_time_args, chrono_utc_from_timespec,
    chrono_utc_time_args, timespec_from_chrono_utc, ChronoFixed, ChronoUtc, CHRONO_MAX_SECS,
    CHRONO_MIN_SECS,
};
use magnus::time::{Offset, Timespec};

fn utc_of(dt: ChronoUtc) -> DateTime<Utc> {
    DateTime::from_timestamp(dt.secs, dt.nanos).unwrap()
}

fn fixed_of(dt: ChronoFixed) -> DateTime<FixedOffset> {
    utc_of(dt.utc).with_timezone(&FixedOffset::east_opt(dt.offset_seconds).unwrap())
}

fn model(dt: &DateTime<Utc>) -> ChronoUtc {
    ChronoUtc { secs: dt.timestamp(), nanos: dt.timestamp_subsec_nanos() }
}

fn ruby_timespec(ts: Timespec) -> Timespec {
    let total = ts.tv_sec as i128 * 1_000_000_000 + ts.tv_nsec as i128;
    Timespec {
        tv_sec: total.div_euclid(1_000_000_000) as i64,
        tv_nsec: total.rem_euclid(1_000_000_000) as i64,
    }
}

#[test]
fn chrono_utc_from_ruby_times() {
    // Time.at(0, 10, :nsec)
    let t = utc_of(chrono_utc_from_timespec(Timespec { tv_sec: 0, tv_nsec: 10 }).unwrap());
    assert_eq!(t.year(), 1970);
    assert_eq!(t.month(), 1);
    assert_eq!(t.day(), 1);
    assert_eq!(t.timestamp_subsec_nanos(), 10);
    // Time.new(1971, 1, 1, 2, 2, 2.0000001, "Z")
    let dt = utc_of(chrono_utc_from_timespec(Timespec { tv_sec: 31_543_322, tv_nsec: 99 }).unwrap());
    assert_eq!(&dt.to_rfc3339(), "1971-01-01T02:02:02.000000099+00:00");
    // Time.new(1950, 1, 1, 0, 0, 0, "Z")
    let dt = utc_of(chrono_utc_from_timespec(Timespec { tv_sec: -631_152_000, tv_nsec: 0 }).unwrap());
    assert_eq!(&dt.to_rfc3339(), "1950-01-01T00:00:00+00:00");
    // Time.new(1971, 1, 1, 2, 2, 2.0000001, "-07:00")
    let dt = utc_of(chrono_utc_from_timespec(Timespec { tv_sec: 31_568_522, tv_nsec: 99 }).unwrap());
    assert_eq!(&dt.to_rfc3339(), "1971-01-01T09:02:02.000000099+00:00");
}

#[test]
fn chrono_fixed_from_ruby_times() {
    let ts = Timespec { tv_sec: 1_654_013_280, tv_nsec: 123_456_789 };
    let dt = fixed_of(chrono_fixed_from_timespec(-25_200, ts).unwrap());
    assert_eq!(&dt.to_rfc3339(), "2022-05-31T09:08:00.123456789-07:00");
    let ts = Timespec { tv_sec: 1_653_968_280, tv_nsec: 123_456_789 };
    let dt = fixed_of(chrono_fixed_from_timespec(19_800, ts).unwrap());
    assert_eq!(&dt.to_rfc3339(), "2022-05-31T09:08:00.123456789+05:30");
}

#[test]
fn chrono_conversion_errors() {
    let err = chrono_utc_from_timespec(Timespec { tv_sec: 0, tv_nsec: -1 }).unwrap_err();
    assert!(err.is_kind_of(ExceptionClass::ArgError));
    assert_eq!(err.message, "time out of range");
    let err = chrono_utc_from_timespec(Timespec { tv_sec: 0, tv_nsec: 1_000_000_000 }).unwrap_err();
    assert_eq!(err.message, "time out of range");
    let err = chrono_fixed_from_timespec(86_400, Timespec { tv_sec: 0, tv_nsec: 0 }).unwrap_err();
    assert!(err.is_kind_of(ExceptionClass::ArgError));
    assert_eq!(err.message, "invalid UTC offset");
    let err = chrono_fixed_from_timespec(86_400, Timespec { tv_sec: 0, tv_nsec: -1 }).unwrap_err();
    assert_eq!(err.message, "time out of range");
}

#[test]
fn chrono_utc_into_timespec() {
    let before = DateTime::<Utc>::UNIX_EPOCH - chrono::TimeDelta::milliseconds(500);
    assert_eq!(timespec_from_chrono_utc(model(&before)), Timespec { tv_sec: 0, tv_nsec: -500_000_000 });
    let before = DateTime::<Utc>::UNIX_EPOCH - chrono::TimeDelta::milliseconds(1_500);
    assert_eq!(timespec_from_chrono_utc(model(&before)), Timespec { tv_sec: -1, tv_nsec: -500_000_000 });
    let after = Utc.with_ymd_and_hms(2022, 5, 31, 16, 8, 0).unwrap();
    let (ts, offset) = chrono_utc_time_args(model(&after));
    assert_eq!(ts, Timespec { tv_sec: 1_654_013_280, tv_nsec: 0 });
    assert_eq!(offset, Offset::utc());
}

#[test]
fn chrono_fixed_into_timespec() {
    let dt = FixedOffset::west_opt(25_200).unwrap().with_ymd_and_hms(2022, 5, 31, 9, 8, 0).unwrap();
    let fixed = ChronoFixed { utc: model(&dt.with_timezone(&Utc)), offset_seconds: dt.offset().local_minus_utc() };
    let (ts, offset) = chrono_fixed_time_args(fixed);
    assert_eq!(ts, Timespec { tv_sec: 1_654_013_280, tv_nsec: 0 });
    assert_eq!(offset.as_c_int(), -25_200);
}

#[test]
fn chrono_round_trip() {
    for dt in [
        DateTime::<Utc>::UNIX_EPOCH,
        DateTime::<Utc>::UNIX_EPOCH - chrono::TimeDelta::milliseconds(500),
        DateTime::<Utc>::UNIX_EPOCH - chrono::TimeDelta::nanoseconds(1_999_999_999),
        Utc.with_ymd_and_hms(2022, 5, 31, 16, 8, 0).unwrap(),
    ] {
        let ts = timespec_from_chrono_utc(model(&dt));
        let back = chrono_utc_from_timespec(ruby_timespec(ts)).unwrap();
        assert_eq!(utc_of(back), dt);
    }
}

#[test]
fn chrono_range_limits() {
    assert_eq!(CHRONO_MIN_SECS, DateTime::<Utc>::MIN_UTC.timestamp());
    assert_eq!(CHRONO_MAX_SECS, DateTime::<Utc>::MAX_UTC.timestamp());
    let earliest = chrono_utc_from_timespec(Timespec { tv_sec: CHRONO_MIN_SECS, tv_nsec: 0 }).unwrap();
    assert_eq!(utc_of(earliest), DateTime::<Utc>::MIN_UTC);
    let latest = chrono_utc_from_timespec(Timespec { tv_sec: CHRONO_MAX_SECS, tv_nsec: 999_999_999 }).unwrap();
    assert_eq!(utc_of(latest), DateTime::<Utc>::MAX_UTC);
    let (ts, _) = chrono_utc_time_args(model(&DateTime::<Utc>::MIN_UTC));
    assert_eq!(ts, Timespec { tv_sec: CHRONO_MIN_SECS, tv_nsec: 0 });
}

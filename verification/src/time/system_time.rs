//! Conversions between Ruby `Time` and `std::time::SystemTime`.
//!
//! A `SystemTime` is handled here as its distance from the UNIX epoch and the
//! side of the epoch it lies on, which is what the conversions read from it
//! (`SystemTime::duration_since`) and write to it (`UNIX_EPOCH + duration` or
//! `UNIX_EPOCH - duration`).

use vstd::prelude::*;

use vstd::arithmetic::div_mod::lemma_fundamental_div_mod_converse;

use crate::error::{Error, ExceptionClass};
use crate::time::{ruby_timespec, Timespec, NANOS_PER_SECOND};

verus! {

/// A `SystemTime` as a `Duration` away from the UNIX epoch.
#[derive(Clone, Copy, Debug, PartialEq, Eq, Structural)]
pub struct SystemTimeParts {
    /// Whether the time lies before the epoch.
    pub before_epoch: bool,
    /// Whole seconds away from the epoch (`Duration::as_secs`).
    pub secs: u64,
    /// Nanoseconds beyond those seconds (`Duration::subsec_nanos`).
    pub subsec_nanos: u32,
}

impl SystemTimeParts {
    /// The nanoseconds are those of a `Duration`: below one second.
    pub open spec fn wf(&self) -> bool {
        self.subsec_nanos < 1_000_000_000
    }

    /// The instant in nanoseconds since the epoch, negative before it.
    pub open spec fn signed_nanoseconds(&self) -> int {
        let distance = self.secs * 1_000_000_000 + self.subsec_nanos;
        if self.before_epoch {
            -distance
        } else {
            distance
        }
    }
}

/// The seconds and nanoseconds that `time_nano_new` gets for a `SystemTime`:
/// both negated for a time before the epoch.
pub open spec fn nano_args(t: SystemTimeParts) -> (int, int) {
    if t.before_epoch {
        (-(t.secs as int), -(t.subsec_nanos as int))
    } else {
        (t.secs as int, t.subsec_nanos as int)
    }
}

/// The `SystemTime` made from a `timespec` with non-negative nanoseconds:
/// `|tv_sec|` seconds plus `tv_nsec` nanoseconds away from the epoch, before
/// it when `tv_sec` is negative.
pub open spec fn parts_of_timespec(sec: int, nsec: int) -> SystemTimeParts {
    let magnitude = if sec < 0 { -sec } else { sec };
    SystemTimeParts {
        before_epoch: sec < 0,
        secs: (magnitude + nsec / 1_000_000_000) as u64,
        subsec_nanos: (nsec % 1_000_000_000) as u32,
    }
}

/// The seconds and nanoseconds to create a Ruby `Time` for `t` with
/// `time_nano_new`.
pub fn system_time_nano_args(t: SystemTimeParts) -> (r: (i64, i64))
    requires
        t.secs <= i64::MAX,
    ensures
        r.0 == nano_args(t).0,
        r.1 == nano_args(t).1,
        r.0 * 1_000_000_000 + r.1 == t.signed_nanoseconds(),
{
    let secs = t.secs as i64;
    let nanos = t.subsec_nanos as i64;
    if t.before_epoch {
        (-secs, -nanos)
    } else {
        (secs, nanos)
    }
}

/// The `SystemTime` for a Ruby `Time` whose `timespec` is `ts`; an
/// `ArgumentError` when its nanoseconds are negative.
pub fn system_time_from_timespec(ts: Timespec) -> (r: Result<SystemTimeParts, Error>)
    ensures
        r is Ok <==> ts.tv_nsec >= 0,
        r matches Ok(p) ==> p == parts_of_timespec(ts.tv_sec as int, ts.tv_nsec as int) && p.wf(),
        r matches Ok(p) ==> p.secs == (if ts.tv_sec < 0 { -ts.tv_sec } else { ts.tv_sec as int })
            + ts.tv_nsec / 1_000_000_000,
        r matches Ok(p) ==> p.before_epoch == (ts.tv_sec < 0),
        r matches Ok(p) ==> p.secs * 1_000_000_000 + p.subsec_nanos
            == (if ts.tv_sec < 0 { -ts.tv_sec } else { ts.tv_sec as int }) * 1_000_000_000 + ts.tv_nsec,
        r matches Err(e) ==> e.class == ExceptionClass::ArgError
            && e.message@ == "time nanos must not be negative"@,
{
    if ts.tv_nsec >= 0 {
        let magnitude: u64 = if ts.tv_sec >= 0 {
            ts.tv_sec as u64
        } else if ts.tv_sec == i64::MIN {
            9_223_372_036_854_775_808u64
        } else {
            (-ts.tv_sec) as u64
        };
        let nanos = ts.tv_nsec as u64;
        let secs = magnitude + nanos / (NANOS_PER_SECOND as u64);
        let subsec_nanos = (nanos % (NANOS_PER_SECOND as u64)) as u32;
        proof {
            lemma_system_time_from_timespec_distance(ts.tv_sec as int, ts.tv_nsec as int);
        }
        Ok(SystemTimeParts { before_epoch: ts.tv_sec < 0, secs, subsec_nanos })
    } else {
        Err(Error::new(ExceptionClass::ArgError, String::from_str("time nanos must not be negative")))
    }
}

/// A `SystemTime` at or after the epoch, or a whole number of seconds before
/// it, comes back unchanged from the Ruby `Time` made from it.
pub proof fn lemma_system_time_round_trip(t: SystemTimeParts)
    requires
        t.wf(),
        t.secs <= i64::MAX,
        t.before_epoch ==> t.subsec_nanos == 0 && t.secs > 0,
    ensures
        ({
            let (sec, nsec) = nano_args(t);
            let (rsec, rnsec) = ruby_timespec(sec, nsec);
            &&& rnsec >= 0
            &&& parts_of_timespec(rsec, rnsec) == t
        }),
{
    let (sec, nsec) = nano_args(t);
    lemma_fundamental_div_mod_converse(sec * 1_000_000_000 + nsec, 1_000_000_000, sec, nsec);
    lemma_fundamental_div_mod_converse(nsec, 1_000_000_000, 0, nsec);
}

/// The Ruby `Time` made for a `SystemTime` is at the same instant: the
/// seconds and nanoseconds handed to `time_nano_new` add up to the
/// `SystemTime`'s signed distance from the epoch, for times on either side
/// of it, with or without a fraction of a second. Ruby's timespec of that
/// `Time` splits the same instant into whole seconds, rounded down, and the
/// nanoseconds beyond them.
pub proof fn lemma_system_time_instant(t: SystemTimeParts)
    requires
        t.wf(),
    ensures
        ({
            let (sec, nsec) = nano_args(t);
            let (rsec, rnsec) = ruby_timespec(sec, nsec);
            &&& sec * 1_000_000_000 + nsec == t.signed_nanoseconds()
            &&& rsec * 1_000_000_000 + rnsec == t.signed_nanoseconds()
            &&& 0 <= rnsec < 1_000_000_000
        }),
{
    let (sec, nsec) = nano_args(t);
    let total = sec * 1_000_000_000 + nsec;
    vstd::arithmetic::div_mod::lemma_fundamental_div_mod(total, 1_000_000_000);
}

/// The `SystemTime` made from a Ruby timespec with non-negative nanoseconds
/// lies on the side of the epoch that the timespec's seconds give (before
/// it exactly when they are negative), at a distance of `|tv_sec|` seconds
/// plus `tv_nsec` nanoseconds, with fewer than a second of nanoseconds left
/// over.
pub proof fn lemma_system_time_from_timespec_distance(sec: int, nsec: int)
    requires
        i64::MIN <= sec <= i64::MAX,
        0 <= nsec <= i64::MAX,
    ensures
        ({
            let p = parts_of_timespec(sec, nsec);
            let magnitude = if sec < 0 { -sec } else { sec };
            &&& p.before_epoch == (sec < 0)
            &&& p.secs * 1_000_000_000 + p.subsec_nanos == magnitude * 1_000_000_000 + nsec
            &&& p.subsec_nanos < 1_000_000_000
        }),
{
    vstd::arithmetic::div_mod::lemma_fundamental_div_mod(nsec, 1_000_000_000);
    let magnitude = if sec < 0 { -sec } else { sec };
    assert(0 <= nsec / 1_000_000_000 <= 9_223_372_036_854_775_807int / 1_000_000_000) by {
        vstd::arithmetic::div_mod::lemma_div_is_ordered(nsec, 9_223_372_036_854_775_807, 1_000_000_000);
        vstd::arithmetic::div_mod::lemma_div_pos_is_pos(nsec, 1_000_000_000);
    }
    assert(magnitude + nsec / 1_000_000_000 <= u64::MAX);
}

} // verus!

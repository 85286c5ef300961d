# magnus (time and regexp conversions)

The conversions between Ruby's `Time` and Rust's time types
(`std::time::SystemTime`, `jiff::Timestamp`, `jiff::Zoned`,
`chrono::DateTime<Utc>`, `chrono::DateTime<FixedOffset>`), the UTC offsets
and timespecs they pass to Ruby, and the `Regexp`/`Time` value wrappers,
written in Verus with their contracts proved.

Layout:

- `src/` — the verified library.
  - `value.rs`: Ruby values as the conversions read them.
  - `error.rs`: the Ruby exceptions the conversions raise.
  - `decimal.rs`: decimal text of integers.
  - `r_regexp.rs`: `RRegexp`.
  - `time/mod.rs`: `Timespec`, `Offset`, `OffsetError`, `Time`.
  - `time/system_time.rs`, `time/jiff_time.rs`, `time/chrono_time.rs`: the
    conversions, with their round-trip laws.
  - `time/jiff_calls.rs`, `time/chrono_calls.rs`: the calls into Jiff and
    chrono, with the contracts taken from those crates' sources.
- `tests/` — tests of the library.
- `app/` — the glue that talks to a Ruby interpreter through `rb-sys`.

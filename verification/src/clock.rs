//! Readings of the clock, and the whole seconds between two of them.
use crate::text::tdiv;
use std::time::{SystemTime, UNIX_EPOCH};
use vstd::prelude::*;

verus! {

/// An instant: whole seconds since the Unix epoch and the nanoseconds past
/// that second (more than 999,999,999 only during a leap second).
#[derive(Debug, Clone, Copy, PartialEq, Eq)]
pub struct Timestamp {
    pub secs: i64,
    pub nanos: u32,
}

impl Timestamp {
    /// The instant in nanoseconds since the epoch.
    pub open spec fn total_nanos(self) -> int {
        self.secs * 1_000_000_000 + self.nanos
    }
}

/// The whole seconds from `start` to `now`, rounded towards zero (negative
/// when the clock went back).
pub open spec fn whole_seconds_between(start: Timestamp, now: Timestamp) -> int {
    tdiv(now.total_nanos() - start.total_nanos(), 1_000_000_000)
}

#[verifier::external_type_specification]
#[verifier::external_body]
pub struct ExSystemTime(SystemTime);

/// `SystemTime::now` (std): the system clock's reading, which depends on the
/// machine; nothing is claimed of it.
#[verifier::external_body]
fn system_now() -> SystemTime {
    SystemTime::now()
}

/// `SystemTime::duration_since(UNIX_EPOCH)` (std): `Ok` with how long after the
/// epoch the reading is, `Err` with how long before it, each as whole seconds
/// and the nanoseconds past them (`Duration::subsec_nanos`, below one second).
#[verifier::external_body]
fn since_epoch(t: SystemTime) -> (r: Result<(u64, u32), (u64, u32)>)
    ensures
        match r {
            Ok((_, n)) => n < 1_000_000_000,
            Err((_, n)) => n < 1_000_000_000,
        },
{
    match t.duration_since(UNIX_EPOCH) {
        Ok(d) => Ok((d.as_secs(), d.subsec_nanos())),
        Err(e) => Err((e.duration().as_secs(), e.duration().subsec_nanos())),
    }
}

/// The instant, in nanoseconds since the epoch, that a reading `since_epoch`
/// gives stands for.
pub open spec fn epoch_offset_nanos(r: Result<(u64, u32), (u64, u32)>) -> int {
    match r {
        Ok((s, n)) => s * 1_000_000_000 + n,
        Err((s, n)) => -(s * 1_000_000_000 + n),
    }
}

/// The instant an offset from the epoch stands for: exactly that instant when
/// its seconds fit in `i64`, else the latest (or earliest) whole second that
/// does.
pub fn timestamp_from_epoch_offset(r: Result<(u64, u32), (u64, u32)>) -> (t: Timestamp)
    requires
        match r {
            Ok((_, n)) => n < 1_000_000_000,
            Err((_, n)) => n < 1_000_000_000,
        },
    ensures
        t.nanos < 1_000_000_000,
        match r {
            Ok((s, _)) => if s <= i64::MAX {
                t.total_nanos() == epoch_offset_nanos(r)
            } else {
                t == (Timestamp { secs: i64::MAX, nanos: 0 })
            },
            Err((s, _)) => if s <= i64::MAX {
                t.total_nanos() == epoch_offset_nanos(r)
            } else {
                t == (Timestamp { secs: i64::MIN, nanos: 0 })
            },
        },
{
    match r {
        Ok((s, n)) => if s <= (i64::MAX as u64) {
            Timestamp { secs: s as i64, nanos: n }
        } else {
            Timestamp { secs: i64::MAX, nanos: 0 }
        },
        Err((s, n)) => if s <= (i64::MAX as u64) {
            if n == 0 {
                Timestamp { secs: -(s as i64), nanos: 0 }
            } else {
                Timestamp { secs: -(s as i64) - 1, nanos: 1_000_000_000 - n }
            }
        } else {
            Timestamp { secs: i64::MIN, nanos: 0 }
        },
    }
}

/// The system clock's reading now, as an instant. chrono's `Utc::now` reads the
/// same std clock but panics on a reading before the epoch, and its
/// `From<SystemTime>` panics on one outside its calendar; this gives an
/// instant for every reading.
pub fn utc_now() -> (t: Timestamp)
    ensures
        t.nanos < 1_000_000_000,
{
    timestamp_from_epoch_offset(since_epoch(system_now()))
}

/// A decimal digit.
pub open spec fn is_digit(c: char) -> bool {
    '0' <= c <= '9'
}

/// The number two decimal digits at `i` and `i + 1` write.
pub open spec fn two_digit_value(s: Seq<char>, i: int) -> int {
    ((s[i] as int) - ('0' as int)) * 10 + ((s[i + 1] as int) - ('0' as int))
}

/// A year as chrono's `%Y` writes it: four digits for the years 0 to 9999,
/// else a sign and at least four digits.
pub open spec fn is_year_text(y: Seq<char>) -> bool {
    ||| y.len() == 4 && forall|i: int| 0 <= i < 4 ==> is_digit(#[trigger] y[i])
    ||| y.len() >= 5 && (y[0] == '+' || y[0] == '-') && forall|i: int| 1 <= i < y.len() ==> is_digit(#[trigger] y[i])
}

/// A date as chrono's `%Y-%m-%d` writes it: the year, a month from `01` to
/// `12` and a day from `01` to `31`, joined by `-`.
pub open spec fn is_date_text(s: Seq<char>) -> bool {
    let n = s.len();
    &&& n >= 10
    &&& is_year_text(s.take(n - 6))
    &&& s[n - 6] == '-'
    &&& is_digit(s[n - 5]) && is_digit(s[n - 4])
    &&& 1 <= two_digit_value(s, n - 5) <= 12
    &&& s[n - 3] == '-'
    &&& is_digit(s[n - 2]) && is_digit(s[n - 1])
    &&& 1 <= two_digit_value(s, n - 2) <= 31
}

/// chrono's `DateTime::from_timestamp`, `with_timezone(&Local)` and
/// `format("%Y-%m-%d")`: the date of the instant in the machine's time zone.
/// `from_timestamp` gives `None` only outside chrono's calendar, so within
/// 8e12 seconds (about 253,000 years) of the epoch the result is `Some`; the `requires` keeps the
/// instant there, where chrono's time-zone lookup has no arithmetic that can
/// fail, and where the local date (less than a day from the UTC one, as
/// chrono's `FixedOffset` is) lies within chrono's years. The text is what
/// chrono's documentation of `%Y`, `%m` and `%d` gives: the year zero-padded to
/// four digits, with a sign outside the years 0 to 9999, then the month and
/// the day, each zero-padded to two digits. Which date it is depends on the
/// time zone and is not claimed. chrono unwraps the offset it finds in the
/// system's time-zone data, and panics when that data is malformed (an offset
/// of a day or more); that depends on the machine, not on the arguments.
#[verifier::external_body]
fn local_date_of(t: Timestamp) -> (r: Option<String>)
    requires
        -8_000_000_000_000 <= t.secs <= 8_000_000_000_000,
        t.nanos < 1_000_000_000,
    ensures
        r is Some,
        is_date_text(r->Some_0@),
{
    match chrono::DateTime::from_timestamp(t.secs, t.nanos) {
        Some(d) => Some(d.with_timezone(&chrono::Local).format("%Y-%m-%d").to_string()),
        None => None,
    }
}

/// Today's date in the machine's time zone, as `%Y-%m-%d` writes it. A clock
/// reading further than 8e12 seconds from the epoch (where chrono itself
/// would panic) is dated as the instant at that reach.
pub(crate) fn local_date_today() -> (d: String)
    ensures
        is_date_text(d@),
{
    let now = utc_now();
    let t = if now.secs > 8_000_000_000_000 {
        Timestamp { secs: 8_000_000_000_000, nanos: 0 }
    } else if now.secs < -8_000_000_000_000 {
        Timestamp { secs: -8_000_000_000_000, nanos: 0 }
    } else {
        now
    };
    match local_date_of(t) {
        Some(d) => d,
        None => String::new(),
    }
}

/// The whole seconds from `start` to `now`, as `(now - start).num_seconds()`.
pub fn seconds_between(start: Timestamp, now: Timestamp) -> (s: i128)
    ensures
        s == whole_seconds_between(start, now),
        -0x2_0000_0000_0000_0000 < s < 0x2_0000_0000_0000_0000,
{
    let a: i128 = (start.secs as i128) * 1_000_000_000 + (start.nanos as i128);
    let b: i128 = (now.secs as i128) * 1_000_000_000 + (now.nanos as i128);
    let d: i128 = b - a;
    assert(-0x2_0000_0000_0000_0000 * 1_000_000_000 < d < 0x2_0000_0000_0000_0000 * 1_000_000_000);
    if d >= 0 {
        let q = d / 1_000_000_000;
        assert(q < 0x2_0000_0000_0000_0000) by (nonlinear_arith)
            requires
                q == d / 1_000_000_000,
                0 <= d < 0x2_0000_0000_0000_0000 * 1_000_000_000,
        ;
        q
    } else {
        let q = -((-d) / 1_000_000_000);
        assert(-q < 0x2_0000_0000_0000_0000) by (nonlinear_arith)
            requires
                -q == (-d) / 1_000_000_000,
                0 < -d < 0x2_0000_0000_0000_0000 * 1_000_000_000,
        ;
        q
    }
}

} // verus!

//! The clock: the local time stamp that records carry, and the Unix
//! milliseconds that environment ids are made from.
use vstd::prelude::*;

verus! {

#[verifier::external_type_specification]
#[verifier::external_body]
pub struct ExSystemTime(std::time::SystemTime);

#[verifier::external_type_specification]
#[verifier::external_body]
pub struct ExSystemTimeError(std::time::SystemTimeError);

/// The earliest instant a stamp is made for: 0002-01-01T00:00:00Z, in
/// seconds from the Unix epoch.
pub const STAMP_MIN_SECS: i64 = -62104060800i64;

/// The latest second a stamp is made for: 9998-12-31T23:59:59Z, in
/// seconds from the Unix epoch. Between the two bounds the local date,
/// whatever the time zone, lies in the years 1 to 9999.
pub const STAMP_MAX_SECS: i64 = 253370764799i64;

pub open spec fn is_digit(c: char) -> bool {
    '0' <= c <= '9'
}

/// The positions of the digits of the date and the time in a stamp.
pub open spec fn is_date_time_digit_position(i: int) -> bool {
    0 <= i < 4 || 5 <= i < 7 || 8 <= i < 10 || 11 <= i < 13 || 14 <= i < 16 || 17 <= i < 19
}

/// An RFC 3339 stamp as chrono's `to_rfc3339` writes one for a local date
/// in the years 1 to 9999: `YYYY-MM-DDTHH:MM:SS`, then a fraction of 3, 6
/// or 9 digits after `.` unless the nanoseconds are 0, then the offset as
/// `+HH:MM` or `-HH:MM`.
pub open spec fn is_rfc3339_stamp(s: Seq<char>) -> bool {
    let n = s.len();
    &&& n == 25 || n == 29 || n == 32 || n == 35
    &&& forall|i: int| is_date_time_digit_position(i) ==> is_digit(#[trigger] s[i])
    &&& s[4] == '-' && s[7] == '-' && s[10] == 'T' && s[13] == ':' && s[16] == ':'
    &&& n > 25 ==> s[19] == '.' && forall|i: int| 20 <= i < n - 6 ==> is_digit(#[trigger] s[i])
    &&& s[n - 6] == '+' || s[n - 6] == '-'
    &&& is_digit(s[n - 5]) && is_digit(s[n - 4]) && s[n - 3] == ':'
    &&& is_digit(s[n - 2]) && is_digit(s[n - 1])
}

/// `std::time::SystemTime::now`: the current system time. Nothing is
/// claimed of it.
#[verifier::external_body]
fn system_time_now() -> (t: std::time::SystemTime) {
    std::time::SystemTime::now()
}

/// `SystemTime::duration_since(UNIX_EPOCH)`: the time elapsed since the
/// Unix epoch, or an error when the clock stands before it. Nothing is
/// claimed of which.
#[verifier::external_body]
fn since_unix_epoch(t: &std::time::SystemTime) -> (d: Result<
    core::time::Duration,
    std::time::SystemTimeError,
>) {
    t.duration_since(std::time::UNIX_EPOCH)
}

/// `SystemTimeError::duration`: how far the clock stands before the epoch.
/// The duration is opaque here, so nothing is claimed of it.
#[verifier::external_body]
fn time_error_duration(e: &std::time::SystemTimeError) -> (d: core::time::Duration) {
    e.duration()
}

/// `Duration::as_millis`: whole milliseconds of a duration. The duration
/// is opaque here, so nothing is claimed of the number.
#[verifier::external_body]
fn duration_millis(d: &core::time::Duration) -> (ms: u128) {
    d.as_millis()
}

/// `Duration::as_secs`: whole seconds of a duration. The duration is
/// opaque here, so nothing is claimed of the number.
#[verifier::external_body]
fn duration_whole_secs(d: &core::time::Duration) -> (s: u64) {
    d.as_secs()
}

/// `Duration::subsec_nanos`: the fractional part of a duration in
/// nanoseconds, which the documentation says is always less than one
/// billion.
#[verifier::external_body]
fn duration_subsec_nanos(d: &core::time::Duration) -> (n: u32)
    ensures
        n < 1_000_000_000,
{
    d.subsec_nanos()
}

/// `chrono::DateTime::<Utc>::from_timestamp`, moved to the machine's time
/// zone by `with_timezone(&Local)` and rendered by `to_rfc3339`. The three
/// calls stand in this one item because the `DateTime<Tz>` between them
/// carries a `Tz: TimeZone` bound on an outside trait, so it cannot be
/// declared here. `from_timestamp` gives `None` only for seconds out of
/// chrono's range or nanoseconds of a second or more; the `requires`
/// leaves both out, so the result is `Some`. Within the bounds the local
/// date lies in the years 1 to 9999, and `write_rfc3339` then writes the
/// shape of `is_rfc3339_stamp`. Left unsaid: which date and offset it shows;
/// they depend on the machine's time zone.
#[verifier::external_body]
fn local_rfc3339(secs: i64, nanos: u32) -> (s: Option<String>)
    requires
        STAMP_MIN_SECS <= secs <= STAMP_MAX_SECS,
        nanos < 1_000_000_000,
    ensures
        s is Some,
        is_rfc3339_stamp(s->0@),
{
    chrono::DateTime::<chrono::Utc>::from_timestamp(secs, nanos).map(
        |d| d.with_timezone(&chrono::Local).to_rfc3339(),
    )
}

/// Where a clock reading stands relative to the Unix epoch.
#[derive(Debug, PartialEq, Eq)]
pub enum EpochOffset {
    /// So long after the epoch.
    After { secs: u64, nanos: u32 },
    /// So long before the epoch.
    Before { secs: u64, nanos: u32 },
}

/// The nanoseconds of an offset from the epoch, signed.
pub open spec fn offset_nanos(o: EpochOffset) -> int {
    match o {
        EpochOffset::After { secs, nanos } => secs * 1_000_000_000 + nanos,
        EpochOffset::Before { secs, nanos } => -(secs * 1_000_000_000 + nanos),
    }
}

pub open spec fn offset_nanos_below_one_second(o: EpochOffset) -> bool {
    match o {
        EpochOffset::After { nanos, .. } => nanos < 1_000_000_000,
        EpochOffset::Before { nanos, .. } => nanos < 1_000_000_000,
    }
}

/// The instant a stamp is made for, as Unix seconds and nanoseconds: the
/// reading itself within the stamp bounds, else the nearer bound.
pub fn stamp_instant(o: EpochOffset) -> (r: (i64, u32))
    requires
        offset_nanos_below_one_second(o),
    ensures
        STAMP_MIN_SECS <= r.0 <= STAMP_MAX_SECS,
        r.1 < 1_000_000_000,
        STAMP_MIN_SECS * 1_000_000_000 <= offset_nanos(o) <= STAMP_MAX_SECS * 1_000_000_000
            + 999_999_999 ==> r.0 * 1_000_000_000 + r.1 == offset_nanos(o),
        offset_nanos(o) < STAMP_MIN_SECS * 1_000_000_000 ==> r == (STAMP_MIN_SECS, 0u32),
        offset_nanos(o) > STAMP_MAX_SECS * 1_000_000_000 + 999_999_999 ==> r == (
            STAMP_MAX_SECS,
            0u32,
        ),
{
    match o {
        EpochOffset::After { secs, nanos } => {
            if secs <= 253370764799u64 {
                (secs as i64, nanos)
            } else {
                (STAMP_MAX_SECS, 0)
            }
        },
        EpochOffset::Before { secs, nanos } => {
            if nanos == 0 {
                if secs <= 62104060800u64 {
                    (0i64 - secs as i64, 0)
                } else {
                    (STAMP_MIN_SECS, 0)
                }
            } else {
                if secs < 62104060800u64 {
                    (0i64 - secs as i64 - 1, 1_000_000_000 - nanos)
                } else {
                    (STAMP_MIN_SECS, 0)
                }
            }
        },
    }
}

/// The current reading of the clock relative to the Unix epoch.
fn epoch_offset_now() -> (o: EpochOffset)
    ensures
        offset_nanos_below_one_second(o),
{
    let now = system_time_now();
    match since_unix_epoch(&now) {
        Ok(d) => EpochOffset::After { secs: duration_whole_secs(&d), nanos: duration_subsec_nanos(&d) },
        Err(e) => {
            let d = time_error_duration(&e);
            EpochOffset::Before { secs: duration_whole_secs(&d), nanos: duration_subsec_nanos(&d) }
        },
    }
}

/// The local time stamp for Unix `secs` and `nanos` within the stamp
/// bounds.
pub fn local_stamp_at(secs: i64, nanos: u32) -> (s: String)
    requires
        STAMP_MIN_SECS <= secs <= STAMP_MAX_SECS,
        nanos < 1_000_000_000,
    ensures
        is_rfc3339_stamp(s@),
{
    match local_rfc3339(secs, nanos) {
        Some(s) => s,
        None => {
            assert(false);
            String::new()
        },
    }
}

/// The current local time as an RFC 3339 stamp, the stamp that creation
/// and update times carry. A clock outside the years 2 to 9998 is stamped
/// with the nearer bound (see `stamp_instant`).
pub fn current_timestamp() -> (s: String)
    ensures
        is_rfc3339_stamp(s@),
{
    let (secs, nanos) = stamp_instant(epoch_offset_now());
    local_stamp_at(secs, nanos)
}

/// Milliseconds since the Unix epoch from the clock reading: the elapsed
/// milliseconds, or 0 when the clock stands before the epoch (`None`).
pub fn millis_or_zero(elapsed: Option<u128>) -> (ms: u128)
    ensures
        ms == match elapsed {
            Some(m) => m,
            None => 0,
        },
{
    match elapsed {
        Some(m) => m,
        None => 0,
    }
}

/// Milliseconds since the Unix epoch; 0 when the clock stands before it.
pub fn current_millis() -> u128 {
    let now = system_time_now();
    let elapsed = match since_unix_epoch(&now) {
        Ok(d) => Some(duration_millis(&d)),
        Err(_) => None,
    };
    millis_or_zero(elapsed)
}

} // verus!

use vstd::prelude::*;
use std::time::{Duration, SystemTime, SystemTimeError};

verus! {

#[verifier::external_type_specification]
#[verifier::external_body]
pub struct ExSystemTime(SystemTime);

#[verifier::external_type_specification]
#[verifier::external_body]
pub struct ExSystemTimeError(SystemTimeError);

/// Relies on `SystemTime::now`: the current wall-clock time, of which nothing is known.
#[verifier::external_body]
fn system_now() -> SystemTime {
    SystemTime::now()
}

/// Relies on `SystemTime::duration_since`, against `UNIX_EPOCH`: the time elapsed since
/// the epoch, or an error when `t` lies before it.
#[verifier::external_body]
fn since_unix_epoch(t: &SystemTime) -> Result<Duration, SystemTimeError> {
    t.duration_since(std::time::UNIX_EPOCH)
}

/// Relies on `Duration::as_secs`: the whole seconds in `d`.
#[verifier::external_body]
fn whole_secs(d: &Duration) -> u64 {
    d.as_secs()
}

/// Relies on `Duration::subsec_nanos`: the fractional part of `d` in nanoseconds,
/// which is always less than one billion.
#[verifier::external_body]
fn subsec_nanos(d: &Duration) -> (r: u32)
    ensures
        r < 1_000_000_000,
{
    d.subsec_nanos()
}

/// A clock reading as whole seconds and nanoseconds since the Unix epoch, or `None`
/// for a clock set before the epoch.
pub open spec fn valid_reading(reading: Option<(u64, u32)>) -> bool {
    reading matches Some((_, n)) ==> n < 1_000_000_000
}

/// The whole milliseconds of a reading, truncated; zero for a reading before the epoch.
pub open spec fn millis_of(reading: Option<(u64, u32)>) -> u128 {
    match reading {
        Some((s, n)) => (s * 1000 + n / 1_000_000) as u128,
        None => 0,
    }
}

/// `a` is no later than `b`.
pub open spec fn reading_le(a: Option<(u64, u32)>, b: Option<(u64, u32)>) -> bool {
    match (a, b) {
        (None, _) => true,
        (Some(_), None) => false,
        (Some((s1, n1)), Some((s2, n2))) => s1 < s2 || (s1 == s2 && n1 <= n2),
    }
}

/// Reads the wall clock as seconds and nanoseconds since the Unix epoch.
pub fn clock_reading() -> (r: Option<(u64, u32)>)
    ensures
        valid_reading(r),
{
    match since_unix_epoch(&system_now()) {
        Ok(d) => Some((whole_secs(&d), subsec_nanos(&d))),
        Err(_) => None,
    }
}

/// Whole milliseconds since the epoch of a clock reading, truncated; zero for a
/// reading before the epoch.
pub fn timestamp_from(reading: Option<(u64, u32)>) -> (r: u128)
    requires
        valid_reading(reading),
    ensures
        r == millis_of(reading),
{
    match reading {
        Some((s, n)) => {
            assert(s * 1000 + n / 1_000_000 <= 18_446_744_073_709_551_615 * 1000 + 999)
                by (nonlinear_arith)
                requires
                    s <= 18_446_744_073_709_551_615u64,
                    n < 1_000_000_000,
            ;
            (s as u128) * 1000 + (n / 1_000_000) as u128
        },
        None => 0,
    }
}

/// Milliseconds since the Unix epoch by the wall clock: the whole milliseconds of
/// some reading of it, which is zero for a clock set before the epoch.
pub fn get_timestamp() -> (r: u128)
    ensures
        exists|reading: Option<(u64, u32)>| valid_reading(reading) && r == #[trigger] millis_of(reading),
{
    let reading = clock_reading();
    let r = timestamp_from(reading);
    assert(valid_reading(reading) && r == millis_of(reading));
    r
}

/// A later clock reading never gives fewer milliseconds.
pub proof fn lemma_millis_monotone(a: Option<(u64, u32)>, b: Option<(u64, u32)>)
    requires
        valid_reading(a),
        valid_reading(b),
        reading_le(a, b),
    ensures
        millis_of(a) <= millis_of(b),
{
    if let (Some((s1, n1)), Some((s2, n2))) = (a, b) {
        let (s1, n1, s2, n2) = (s1 as int, n1 as int, s2 as int, n2 as int);
        if s1 < s2 {
            assert(n1 / 1_000_000 < 1000);
            assert(s1 * 1000 + 1000 <= s2 * 1000) by (nonlinear_arith)
                requires
                    s1 < s2,
            ;
        } else {
            assert(n1 / 1_000_000 <= n2 / 1_000_000) by (nonlinear_arith)
                requires
                    n1 <= n2,
                    0 <= n1,
            ;
        }
    }
}

/// Milliseconds from `start_ms` to `end_ms`; zero when the clock went backwards.
pub open spec fn elapsed_between(start_ms: u128, end_ms: u128) -> u128 {
    if end_ms >= start_ms {
        (end_ms - start_ms) as u128
    } else {
        0
    }
}

pub fn elapsed_ms(start_ms: u128, end_ms: u128) -> (r: u128)
    ensures
        r == elapsed_between(start_ms, end_ms),
{
    if end_ms >= start_ms {
        end_ms - start_ms
    } else {
        0
    }
}

} // verus!

//! The clock and the timestamp formatter — the library's only outside
//! calls.
//!
//! What `chrono` renders for a given timestamp and format string is a pure
//! function of the two, but far too intricate to restate; it is named
//! `utc_format_of` and every contract that mentions a rendered timestamp
//! speaks of that name. The clock itself is read through std and reduced to
//! plain values by verified, overflow-checked code, so no call here can
//! panic, whatever the system clock is set to.

use core::fmt::Write as FmtWrite;

use vstd::prelude::*;

verus! {

/// The bytes `chrono` renders for the UTC instant `(secs, nanos)` under the
/// format string `fmt`, or `None` when it rejects the timestamp or the
/// format string.
pub uninterp spec fn utc_format_of(secs: i64, nanos: u32, fmt: Seq<u8>) -> Option<Seq<u8>>;

/// Relies on chrono's `DateTime::<Utc>::from_timestamp`, `DateTime::format`
/// and the `Display` of `DelayedFormat`: the rendered text is a function of
/// the timestamp and the format string alone, and rendering fails (with
/// `fmt::Error`, here `None`) exactly when chrono rejects one of them.
#[verifier::external_body]
pub fn utc_format(secs: i64, nanos: u32, fmt: &[u8]) -> (r: Option<Vec<u8>>)
    ensures
        r is Some <==> utc_format_of(secs, nanos, fmt@) is Some,
        r matches Some(v) ==> utc_format_of(secs, nanos, fmt@) matches Some(b) && v@ == b,
{
    let dt = match chrono::DateTime::<chrono::Utc>::from_timestamp(secs, nanos) {
        Some(dt) => dt,
        None => return None,
    };
    let fmt_str = String::from_utf8_lossy(fmt);
    let mut out = String::new();
    match write!(out, "{}", dt.format(&fmt_str)) {
        Ok(()) => Some(out.into_bytes()),
        Err(_) => None,
    }
}

/// Relies on std's `SystemTime::now` and `duration_since(UNIX_EPOCH)`:
/// neither panics; the pair is the clock's whole-second and subsecond
/// distance from the Unix epoch, on the side the flag says (`true` for a
/// clock before the epoch); a `Duration`'s subsecond nanoseconds are below
/// a billion.
#[verifier::external_body]
fn now_since_epoch() -> (r: (bool, u64, u32))
    ensures
        r.2 < 1_000_000_000,
{
    match std::time::SystemTime::now().duration_since(std::time::UNIX_EPOCH) {
        Ok(d) => (false, d.as_secs(), d.subsec_nanos()),
        Err(e) => (true, e.duration().as_secs(), e.duration().subsec_nanos()),
    }
}

/// The current UTC time, as seconds since the Unix epoch and subsecond
/// nanoseconds. A clock before the epoch mirrors to a negative second
/// count; a distance too large for `i64` saturates. The call never fails,
/// whatever the clock reads.
pub fn now_utc() -> (r: (i64, u32))
    ensures
        r.1 < 1_000_000_000,
{
    let (before, secs, nanos) = now_since_epoch();
    if !before {
        if secs <= i64::MAX as u64 {
            (secs as i64, nanos)
        } else {
            (i64::MAX, nanos)
        }
    } else if nanos == 0 {
        if secs <= i64::MAX as u64 {
            (-(secs as i64), 0)
        } else {
            (i64::MIN, 0)
        }
    } else {
        if secs <= i64::MAX as u64 {
            (-(secs as i64) - 1, 1_000_000_000 - nanos)
        } else {
            (i64::MIN, 1_000_000_000 - nanos)
        }
    }
}

} // verus!

//! Instants on the UTC time line and the session timer.
use crate::text::{decimal_padded, decimal_string_padded};
use vstd::prelude::*;
use vstd::string::StringExecFns;

verus! {

/// An instant in UTC: whole seconds since the Unix epoch and the
/// nanoseconds past that second.
#[derive(Clone, Copy, Debug, PartialEq, Eq, Structural)]
pub struct Timestamp {
    pub secs: i64,
    pub nanos: u32,
}

impl Timestamp {
    /// The Unix epoch, 1970-01-01T00:00:00Z.
    pub fn unix_epoch() -> (t: Timestamp)
        ensures
            t.secs == 0,
            t.nanos == 0,
    {
        Timestamp { secs: 0, nanos: 0 }
    }
}

impl Default for Timestamp {
    fn default() -> (t: Timestamp)
        ensures
            t.secs == 0,
            t.nanos == 0,
    {
        Timestamp::unix_epoch()
    }
}

/// The current instant, read from `chrono::Utc::now`. The clock is read, so
/// nothing is stated of the value.
#[verifier::external_body]
pub(crate) fn now() -> Timestamp {
    let t = chrono::Utc::now();
    Timestamp { secs: t.timestamp(), nanos: t.timestamp_subsec_nanos() }
}

/// The signed number of nanoseconds from `earlier` to `later`.
pub open spec fn nanos_between(earlier: Timestamp, later: Timestamp) -> int {
    (later.secs - earlier.secs) * 1_000_000_000 + (later.nanos - earlier.nanos)
}

/// Whole seconds elapsed from `started` to `now`, never negative and
/// saturating at `u64::MAX` (the session timer).
pub open spec fn elapsed_secs(started: Timestamp, now: Timestamp) -> int {
    let n = nanos_between(started, now);
    if n <= 0 {
        0
    } else if n / 1_000_000_000 > u64::MAX {
        u64::MAX as int
    } else {
        n / 1_000_000_000
    }
}

/// Whole seconds elapsed from `started` to `now`, clamped at zero.
pub fn elapsed_seconds(started: Timestamp, now: Timestamp) -> (s: u64)
    ensures
        s == elapsed_secs(started, now),
{
    let ds: i128 = (now.secs as i128) - (started.secs as i128);
    let dn: i128 = (now.nanos as i128) - (started.nanos as i128);
    assert(-0x1_0000_0000_0000_0000 <= ds <= 0x1_0000_0000_0000_0000);
    assert(ds * 1_000_000_000 <= 0x1_0000_0000_0000_0000 * 1_000_000_000) by (nonlinear_arith)
        requires ds <= 0x1_0000_0000_0000_0000;
    assert(ds * 1_000_000_000 >= -0x1_0000_0000_0000_0000 * 1_000_000_000) by (nonlinear_arith)
        requires ds >= -0x1_0000_0000_0000_0000;
    let n: i128 = ds * 1_000_000_000 + dn;
    if n <= 0 {
        0
    } else {
        let q: i128 = n / 1_000_000_000;
        if q > u64::MAX as i128 {
            u64::MAX
        } else {
            q as u64
        }
    }
}

/// `HH:MM:SS` for a duration of `secs` seconds: hours, minutes and seconds,
/// each at least two digits.
pub open spec fn hms(secs: nat) -> Seq<char> {
    decimal_padded(secs / 3600, 2) + seq![':'] + decimal_padded((secs % 3600) / 60, 2) + seq![':']
        + decimal_padded(secs % 60, 2)
}

/// The session timer text, `"{:02}:{:02}:{:02}"` of hours, minutes, seconds.
pub fn format_hms(secs: u64) -> (s: String)
    ensures
        s@ == hms(secs as nat),
{
    let mut s = decimal_string_padded(secs / 3600, 2);
    s.append(":");
    let m = decimal_string_padded((secs % 3600) / 60, 2);
    s.append(m.as_str());
    s.append(":");
    let r = decimal_string_padded(secs % 60, 2);
    s.append(r.as_str());
    proof {
        reveal_strlit(":");
    }
    s
}

} // verus!

//! Wall-clock readings. The clock itself is outside the proved world; the
//! two readings come through trusted wrappers, and everything computed from
//! them is verified against the reading as an argument.

use vstd::prelude::*;

verus! {

/// Relies on chrono's `Utc::now` and `DateTime::timestamp_millis`:
/// milliseconds since the Unix epoch by the system clock (0 for times the
/// result type cannot carry). Of a clock reading nothing more is promised.
#[verifier::external_body]
pub fn now_unix_millis() -> (r: u64) {
    u64::try_from(chrono::Utc::now().timestamp_millis()).unwrap_or(0)
}

/// Relies on chrono's `Local::now` and `DateTime::format` with `%H:%M:%S`:
/// the rendering is always two digits, a colon, two digits, a colon, two
/// digits — eight characters.
#[verifier::external_body]
pub fn local_clock_hms() -> (r: String)
    ensures
        r@.len() == 8,
{
    chrono::Local::now().format("%H:%M:%S").to_string()
}

/// The blink phase for a given clock reading: on for one 700 ms half-period
/// out of every two.
pub open spec fn blink_phase(ms: u64) -> bool {
    (ms / 700) % 2 == 0
}

pub fn blink_on_at(ms: u64) -> (r: bool)
    ensures
        r == blink_phase(ms),
{
    (ms / 700) % 2 == 0
}

/// The blink phase right now, read from the clock.
pub fn slow_blink_on() -> bool {
    blink_on_at(now_unix_millis())
}

} // verus!

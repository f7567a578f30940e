//! Points in time in UTC, and values of free-form metadata.

use vstd::prelude::*;

use crate::clock::{since_epoch, subsec_nanos, system_now, whole_seconds};

verus! {

#[verifier::external_type_specification]
#[verifier::external_body]
pub struct ExJsonValue(serde_json::Value);

#[verifier::external_type_specification]
#[verifier::external_body]
pub struct ExJsonError(serde_json::Error);

/// A point in time in UTC: whole seconds since the Unix epoch and the
/// nanoseconds past that second.
#[derive(Clone, Copy, Debug, PartialEq, Eq, Structural)]
pub struct UtcTime {
    pub secs: i64,
    pub nanos: u32,
}

/// The current time: whole seconds since the Unix epoch (taken as an `i64`)
/// and the nanoseconds past them; the epoch itself when the clock reads a
/// time before it. The value rests on the clock.
pub fn utc_now() -> (t: UtcTime)
    ensures
        t.nanos < 1_000_000_000,
{
    match since_epoch(&system_now()) {
        Ok(d) => UtcTime { secs: whole_seconds(&d) as i64, nanos: subsec_nanos(&d) },
        Err(_) => UtcTime { secs: 0, nanos: 0 },
    }
}

} // verus!

//! Wall-clock time in whole seconds since the Unix epoch.

use vstd::prelude::*;

verus! {

#[verifier::external_type_specification]
#[verifier::external_body]
pub struct ExSystemTime(std::time::SystemTime);

#[verifier::external_type_specification]
#[verifier::external_body]
pub struct ExSystemTimeError(std::time::SystemTimeError);

/// Current wall-clock time (std `SystemTime::now`); nothing is known of its value.
#[verifier::external_body]
pub(crate) fn system_now() -> std::time::SystemTime {
    std::time::SystemTime::now()
}

/// Time elapsed from the Unix epoch to `t` (std `SystemTime::duration_since`);
/// an error when `t` lies before the epoch. Nothing is stated of the value.
#[verifier::external_body]
pub(crate) fn since_epoch(t: &std::time::SystemTime) -> Result<core::time::Duration, std::time::SystemTimeError> {
    t.duration_since(std::time::UNIX_EPOCH)
}

/// Whole seconds of a duration (std `Duration::as_secs`); the duration is opaque here.
#[verifier::external_body]
pub(crate) fn whole_seconds(d: &core::time::Duration) -> u64 {
    d.as_secs()
}

/// Nanoseconds past the whole seconds of a duration (std
/// `Duration::subsec_nanos`), which the documentation states is below one
/// billion.
#[verifier::external_body]
pub(crate) fn subsec_nanos(d: &core::time::Duration) -> (n: u32)
    ensures
        n < 1_000_000_000,
{
    d.subsec_nanos()
}

/// The timestamp for `secs` whole seconds since the Unix epoch (taken as
/// an `i64`), or 0 when the clock read a time before the epoch (`None`).
pub(crate) fn timestamp_from(secs: Option<u64>) -> (t: i64)
    ensures
        t == match secs {
            Some(s) => s as i64,
            None => 0i64,
        },
{
    match secs {
        Some(s) => s as i64,
        None => 0,
    }
}

/// Current time in seconds since the Unix epoch, 0 when the clock reads a time
/// before the epoch (see [`timestamp_from`]). The value rests on the clock.
pub(crate) fn current_timestamp() -> i64 {
    let secs = match since_epoch(&system_now()) {
        Ok(d) => Some(whole_seconds(&d)),
        Err(_) => None,
    };
    timestamp_from(secs)
}

} // verus!

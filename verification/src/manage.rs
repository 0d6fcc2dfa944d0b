//! One-time camera management: when a supervisor is the managing one for its
//! camera, it checks the camera's clock after logging in and, if the clock is
//! unset, sets it from the host's current time — preferring a local,
//! timezone-aware reading and falling back to UTC. Failures here are logged
//! by the caller and never abort the stream.
//!
//! The camera's clock travels as plain values: seconds since the Unix epoch,
//! plus the UTC offset the wall-clock reading carried.

use vstd::prelude::*;

verus! {

/// What to do about the camera's clock.
#[derive(Clone, Copy, Debug, PartialEq, Eq, Structural)]
pub enum ClockPlan {
    /// The camera already has a time; leave it alone.
    AlreadySet,
    /// The camera has no time; set it to this instant, rendered in the
    /// wall clock's UTC offset.
    SetTo { unix_seconds: i64, offset_seconds: i32 },
}

/// Relies on time::OffsetDateTime::now_local, now_utc, unix_timestamp and
/// UtcOffset::whole_seconds: the current instant in seconds since the Unix
/// epoch, together with the local UTC offset in seconds when the platform
/// can determine one and the UTC offset (zero) otherwise.
#[verifier::external_body]
fn now_unix_and_offset() -> (i64, i32) {
    let now = time::OffsetDateTime::now_local().unwrap_or_else(|_| time::OffsetDateTime::now_utc());
    (now.unix_timestamp(), now.offset().whole_seconds())
}

/// Decide the clock plan from the camera's reported time and a reading of
/// the host clock: an unset camera clock is set to that reading, a set one
/// is left alone.
pub fn plan_clock_sync(cam_time: Option<i64>, now_unix_seconds: i64, now_offset_seconds: i32) -> (p:
    ClockPlan)
    ensures
        cam_time is Some ==> p is AlreadySet,
        cam_time is None ==> p == (ClockPlan::SetTo {
            unix_seconds: now_unix_seconds,
            offset_seconds: now_offset_seconds,
        }),
{
    match cam_time {
        Some(_) => ClockPlan::AlreadySet,
        None => ClockPlan::SetTo {
            unix_seconds: now_unix_seconds,
            offset_seconds: now_offset_seconds,
        },
    }
}

/// Decide the clock plan against the host clock as it stands now. Whatever
/// instant the host clock returns, a set camera clock is left alone and an
/// unset one is given a value.
pub fn plan_clock_sync_now(cam_time: Option<i64>) -> (p: ClockPlan)
    ensures
        cam_time is Some ==> p is AlreadySet,
        cam_time is None ==> p is SetTo,
{
    let (unix_seconds, offset_seconds) = now_unix_and_offset();
    plan_clock_sync(cam_time, unix_seconds, offset_seconds)
}

/// After setting the clock, the camera is asked again: only a now-set clock
/// confirms the write (an unchanged `None` means the user lacks the right).
pub fn clock_sync_confirmed(cam_time_after: Option<i64>) -> (r: bool)
    ensures
        r == (cam_time_after is Some),
{
    match cam_time_after {
        Some(_) => true,
        None => false,
    }
}

} // verus!

use vstd::prelude::*;

verus! {

/// One tick of the fixed simulation step (1/60 s), to the nearest microsecond.
pub const TICK_MICROS: i64 = 16_667;

/// Half a second, in microseconds.
pub const HALF_SECOND_MICROS: i64 = 500_000;

/// A timeout so long that it never runs out in play.
pub const NEVER_MICROS: i64 = i64::MAX;

/// A countdown after `dt` has elapsed. It only runs while it is still at or
/// above zero, and only forward in time; once below zero it stays put, so
/// "below zero" means "expired".
pub open spec fn spec_count_down(t: i64, dt: i64) -> i64 {
    if dt >= 0 && t >= 0 {
        (t - dt) as i64
    } else {
        t
    }
}

/// A countdown restarted at `amount`; a negative restart value is ignored.
pub open spec fn spec_restart(t: i64, amount: i64) -> i64 {
    if amount >= 0 {
        amount
    } else {
        t
    }
}

/// Advances a countdown by `dt` microseconds.
pub fn count_down(t: i64, dt: i64) -> (r: i64)
    ensures
        r == spec_count_down(t, dt),
{
    if dt >= 0 && t >= 0 {
        t - dt
    } else {
        t
    }
}

/// Restarts a countdown at `amount` microseconds.
pub fn restart(t: i64, amount: i64) -> (r: i64)
    ensures
        r == spec_restart(t, amount),
{
    if amount >= 0 {
        amount
    } else {
        t
    }
}

} // verus!

//! Frame pacing: the fixed interval that the loop sleeps after each frame.

use vstd::prelude::*;

verus! {

pub const NANOS_PER_SECOND: u32 = 1_000_000_000;

/// Nanoseconds between frames at `rate_hz` frames per second, rounded down.
pub open spec fn frame_interval(rate_hz: int) -> int {
    NANOS_PER_SECOND as int / rate_hz
}

/// Nanoseconds to sleep after each frame at `rate_hz` frames per second.
pub fn frame_interval_nanos(rate_hz: u32) -> (nanos: u32)
    requires
        rate_hz > 0,
    ensures
        nanos == frame_interval(rate_hz as int),
{
    NANOS_PER_SECOND / rate_hz
}

/// The sleeps of `rate_hz` frames in a row add up to one second, short of it
/// by less than `rate_hz` nanoseconds.
pub proof fn pacing_fills_one_second(rate_hz: int)
    requires
        0 < rate_hz,
    ensures
        NANOS_PER_SECOND - rate_hz < rate_hz * frame_interval(rate_hz) <= NANOS_PER_SECOND,
{
    let second = NANOS_PER_SECOND as int;
    assert(second == rate_hz * (second / rate_hz) + second % rate_hz && 0 <= second % rate_hz
        < rate_hz) by (nonlinear_arith)
        requires
            0 < rate_hz,
    ;
}

} // verus!

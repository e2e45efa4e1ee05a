//! Points in time, as nanoseconds of a clock that never runs backwards.
//!
//! The library reads no clock. It is told the time and keeps it.

use vstd::prelude::*;

verus! {

/// The time that has passed between `time` and `now`. No time has passed
/// where the clock has not moved on.
pub open spec fn time_passed(now: u64, time: u64) -> u64 {
    if now >= time {
        (now - time) as u64
    } else {
        0
    }
}

/// The time that has passed between `time` and `now`.
pub fn get_time_passed(now: u64, time: Option<u64>) -> (passed: u64)
    requires
        time is Some,
    ensures
        passed == time_passed(now, time->0),
{
    let time = time.unwrap();
    if now >= time {
        now - time
    } else {
        0
    }
}

/// When the program started.
#[derive(Debug, Clone, Copy, PartialEq, Eq, Structural)]
pub struct ProgramStartTime {
    start_time: u64,
}

impl ProgramStartTime {
    /// The time the program started.
    pub closed spec fn spec_get_time(&self) -> u64 {
        self.start_time
    }

    /// Records `now` as the time the program started.
    pub fn new(now: u64) -> (r: Self)
        ensures
            r.spec_get_time() == now,
    {
        ProgramStartTime { start_time: now }
    }

    /// The time the program started.
    #[verifier::when_used_as_spec(spec_get_time)]
    pub fn get_time(&self) -> (r: u64)
        ensures
            r == self.spec_get_time(),
    {
        self.start_time
    }
}

/// When the first frame was drawn.
#[derive(Debug, Clone, Copy, PartialEq, Eq, Structural)]
pub struct FirstFrameTime {
    start_time: u64,
}

impl FirstFrameTime {
    /// The time the first frame was drawn.
    pub closed spec fn spec_get_time(&self) -> u64 {
        self.start_time
    }

    /// Records `now` as the time the first frame was drawn.
    pub fn new(now: u64) -> (r: Self)
        ensures
            r.spec_get_time() == now,
    {
        FirstFrameTime { start_time: now }
    }

    /// The time the first frame was drawn.
    #[verifier::when_used_as_spec(spec_get_time)]
    pub fn get_time(&self) -> (r: u64)
        ensures
            r == self.spec_get_time(),
    {
        self.start_time
    }
}

} // verus!

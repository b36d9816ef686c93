use vstd::prelude::*;

verus! {

/// A one-second rolling tick counter for diagnostics: each loop iteration
/// steps it with the current clock reading, and once per second it reports
/// how many iterations the last second held.
#[derive(Clone, Copy, PartialEq, Eq, Structural, Debug)]
pub struct FrameCounter {
    pub frame_count: u32,
    pub previous_second: u64,
}

/// One step of the counter at clock reading `now` (nanoseconds): when a full
/// second has passed (or the clock jumped backwards), the count so far is
/// reported and the window restarts at `now`; the new frame is then counted,
/// saturating at the counter's capacity.
pub open spec fn counter_step_model(c: FrameCounter, now: u64) -> (FrameCounter, Option<u32>) {
    let rolled = now < c.previous_second || now - c.previous_second > 1_000_000_000;
    let report = if rolled {
        Some(c.frame_count)
    } else {
        None
    };
    let count = if rolled {
        0u32
    } else {
        c.frame_count
    };
    let base = FrameCounter {
        frame_count: count,
        previous_second: if rolled {
            now
        } else {
            c.previous_second
        },
    };
    let stepped = FrameCounter {
        frame_count: if base.frame_count < u32::MAX {
            (base.frame_count + 1) as u32
        } else {
            u32::MAX
        },
        previous_second: base.previous_second,
    };
    (stepped, report)
}

/// Relies on time::precise_time_ns: the current value of a high-resolution
/// performance counter, in nanoseconds since an unspecified epoch. Nothing
/// is assumed of the value returned.
#[verifier::external_body]
fn now_ns() -> u64 {
    time::precise_time_ns()
}

impl FrameCounter {
    pub fn new() -> (c: FrameCounter)
        ensures
            c == (FrameCounter { frame_count: 0, previous_second: 0 }),
    {
        FrameCounter { frame_count: 0, previous_second: 0 }
    }

    /// Step the counter at the given clock reading.
    pub fn step(&mut self, now: u64) -> (report: Option<u32>)
        ensures
            (*final(self), report) == counter_step_model(*old(self), now),
    {
        let mut report: Option<u32> = None;
        if now < self.previous_second || now - self.previous_second > 1_000_000_000 {
            report = Some(self.frame_count);
            self.frame_count = 0;
            self.previous_second = now;
        }
        if self.frame_count < u32::MAX {
            self.frame_count = self.frame_count + 1;
        }
        report
    }

    /// Step the counter at the clock's current reading.
    pub fn tick(&mut self) -> (report: Option<u32>)
        ensures
            exists|now: u64| (*final(self), report) == (#[trigger] counter_step_model(
                *old(self),
                now,
            )),
    {
        let now = now_ns();
        let report = self.step(now);
        proof {
            assert((*self, report) == counter_step_model(*old(self), now));
        }
        report
    }
}

} // verus!

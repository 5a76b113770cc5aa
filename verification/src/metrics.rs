//! Rolling rate estimate for the capture loop. Rates are carried in
//! thousandths of a frame per second and intervals in microseconds, so the
//! smoothing is exact integer arithmetic.

use vstd::prelude::*;

verus! {

/// The instantaneous rate, in milli-frames per second, of a frame interval of
/// `dt_us` microseconds: 10^9 / dt.
pub open spec fn inst_rate_milli(dt_us: int) -> int
    recommends
        dt_us > 0,
{
    1_000_000_000int / dt_us
}

/// One smoothing step: nine parts the old estimate, one part the new reading,
/// rounded down.
pub open spec fn smoothed(fps: int, inst: int) -> int {
    (9 * fps + inst) / 10
}

/// Rolling metrics owned by the capture loop.
pub struct Metrics {
    /// Smoothed rate in milli-frames per second.
    pub fps_milli: u32,
}

impl Metrics {
    /// A fresh estimate, before any frame has arrived.
    pub fn new() -> (r: Metrics)
        ensures
            r.fps_milli == 0,
    {
        Metrics { fps_milli: 0 }
    }

    /// Feeds one frame interval into the estimate. A zero interval leaves the
    /// estimate unchanged; otherwise the estimate moves one smoothing step
    /// toward the instantaneous rate.
    pub fn update(&mut self, dt_us: u64)
        ensures
            dt_us == 0 ==> *final(self) == *old(self),
            dt_us > 0 ==> final(self).fps_milli == smoothed(
                old(self).fps_milli as int,
                inst_rate_milli(dt_us as int),
            ),
    {
        if dt_us == 0 {
            return;
        }
        let inst: u64 = 1_000_000_000u64 / dt_us;
        assert(inst <= 1_000_000_000u64) by (nonlinear_arith)
            requires
                inst == 1_000_000_000u64 as int / dt_us as int,
                dt_us >= 1,
        ;
        let next: u64 = (9 * (self.fps_milli as u64) + inst) / 10;
        proof {
            lemma_smoothing_bounded(self.fps_milli as int, inst as int);
        }
        self.fps_milli = next as u32;
    }

    /// The current smoothed rate.
    pub fn fps_milli(&self) -> (r: u32)
        ensures
            r == self.fps_milli,
    {
        self.fps_milli
    }
}

/// A smoothing step never leaves the interval spanned by the old estimate and
/// the new reading.
pub proof fn lemma_smoothing_bounded(fps: int, inst: int)
    requires
        0 <= fps,
        0 <= inst,
    ensures
        fps <= inst ==> fps <= smoothed(fps, inst) <= inst,
        inst <= fps ==> inst <= smoothed(fps, inst) <= fps,
{
    if fps <= inst {
        assert(fps <= (9 * fps + inst) / 10 <= inst) by (nonlinear_arith)
            requires
                0 <= fps <= inst,
        ;
    } else {
        assert(inst <= (9 * fps + inst) / 10 <= fps) by (nonlinear_arith)
            requires
                0 <= inst <= fps,
        ;
    }
}

/// A smoothing step fed a reading on the same side as the last one moves
/// strictly toward it while the gap is ten or more: the estimate converges
/// onto a steady rate.
pub proof fn lemma_smoothing_converges(fps: int, inst: int)
    requires
        0 <= fps,
        0 <= inst,
    ensures
        fps + 10 <= inst ==> smoothed(fps, inst) > fps,
        inst + 10 <= fps ==> smoothed(fps, inst) < fps,
{
    if fps + 10 <= inst {
        assert((9 * fps + inst) / 10 > fps) by (nonlinear_arith)
            requires
                0 <= fps,
                fps + 10 <= inst,
        ;
    }
    if inst + 10 <= fps {
        assert((9 * fps + inst) / 10 < fps) by (nonlinear_arith)
            requires
                0 <= inst,
                inst + 10 <= fps,
        ;
    }
}

} // verus!

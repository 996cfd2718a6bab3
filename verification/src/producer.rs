//! The sampling side of a recording: how many frames, how far apart, and
//! when to stop.

use vstd::prelude::*;
use crate::error::CaptureError;
use crate::region::Bound2;

verus! {

/// The highest frame rate a recording may ask for.
pub const MAX_FPS: u32 = 60;

/// A frame rate is usable when it lies in `(0, MAX_FPS]`.
pub open spec fn fps_valid(fps: u32) -> bool {
    0 < fps <= MAX_FPS
}

/// Frames in a recording: rate times length, rounded toward zero.
pub open spec fn frame_budget(fps: u32, duration_ms: u32) -> int {
    (fps * duration_ms) / 1000
}

/// Nanoseconds from one frame to the next.
pub open spec fn frame_interval_ns(fps: u32) -> int {
    1_000_000_000int / (fps as int)
}

/// Nanoseconds from the start of a recording to its deadline.
pub open spec fn deadline_ns(duration_ms: u32) -> int {
    duration_ms * 1_000_000
}

/// Accepts a frame rate in `(0, MAX_FPS]` and reports any other.
pub fn check_fps(fps: u32) -> (r: Result<(), CaptureError>)
    ensures
        r is Ok <==> fps_valid(fps),
        r is Err ==> r == Err::<(), CaptureError>(CaptureError::InvalidFps),
{
    if fps == 0 || fps > MAX_FPS {
        Err(CaptureError::InvalidFps)
    } else {
        Ok(())
    }
}

/// What the producer does next.
#[derive(Debug, Copy, Clone)]
pub enum ProducerStep {
    /// Read this region from the screen and send the frame on.
    Grab(Bound2),
    /// Stop: close the channel, send nothing more.
    Finish,
}

/// The sampling task's bookkeeping for one recording.
#[derive(Debug, Copy, Clone)]
pub struct Producer {
    /// The region that every frame shows.
    pub region: Bound2,
    /// How many frames the recording may hold.
    pub budget: u32,
    /// Pause after each frame, in nanoseconds.
    pub interval_ns: u64,
    /// Nanoseconds after the start at which sampling ends.
    pub deadline_ns: u64,
    /// Frames sent so far.
    pub emitted: u32,
    /// Whether a read of the screen has failed.
    pub failed: bool,
}

impl Producer {
    /// No more frames were sent than the budget allows.
    pub open spec fn wf(&self) -> bool {
        self.emitted <= self.budget
    }

    /// The bookkeeping of a recording that has sent nothing yet.
    pub open spec fn fresh(region: Bound2, fps: u32, duration_ms: u32) -> Producer {
        Producer {
            region,
            budget: frame_budget(fps, duration_ms) as u32,
            interval_ns: frame_interval_ns(fps) as u64,
            deadline_ns: deadline_ns(duration_ms) as u64,
            emitted: 0,
            failed: false,
        }
    }

    /// The decision at the top of an iteration, `now_ns` after the start,
    /// with the stop flag as it was read.
    pub open spec fn decide(&self, now_ns: u64, cancelled: bool) -> ProducerStep {
        if cancelled || self.failed || self.emitted >= self.budget || now_ns >= self.deadline_ns {
            ProducerStep::Finish
        } else {
            ProducerStep::Grab(self.region)
        }
    }

    /// The bookkeeping after one more frame was sent.
    pub open spec fn advanced(&self) -> Producer {
        Producer { emitted: (self.emitted + 1) as u32, ..*self }
    }

    /// Sets up the sampling of `region` at `fps` frames a second for
    /// `duration_ms` milliseconds. A frame rate outside `(0, MAX_FPS]` is
    /// reported and nothing is set up.
    pub fn new(region: Bound2, fps: u32, duration_ms: u32) -> (r: Result<Producer, CaptureError>)
        ensures
            r is Ok <==> fps_valid(fps),
            r is Ok ==> r.unwrap() == Producer::fresh(region, fps, duration_ms) && r.unwrap().wf(),
            r is Ok ==> r.unwrap().budget == frame_budget(fps, duration_ms),
            r is Ok ==> r.unwrap().interval_ns == frame_interval_ns(fps),
            r is Ok ==> r.unwrap().deadline_ns == deadline_ns(duration_ms),
            r is Err ==> r == Err::<Producer, CaptureError>(CaptureError::InvalidFps),
    {
        if fps == 0 || fps > MAX_FPS {
            return Err(CaptureError::InvalidFps);
        }
        assert(fps * duration_ms <= 60 * 0xFFFF_FFFF) by (nonlinear_arith)
            requires
                0 <= fps <= 60,
                0 <= duration_ms <= 0xFFFF_FFFF,
        ;
        let product: u64 = (fps as u64) * (duration_ms as u64);
        let budget: u64 = product / 1000;
        assert(budget <= 0xFFFF_FFFF);
        let interval_ns: u64 = 1_000_000_000u64 / (fps as u64);
        let deadline: u64 = (duration_ms as u64) * 1_000_000;
        Ok(
            Producer {
                region,
                budget: budget as u32,
                interval_ns,
                deadline_ns: deadline,
                emitted: 0,
                failed: false,
            },
        )
    }

    /// Decides, at the top of an iteration, whether to read another frame.
    /// Sampling ends once the stop flag is seen, a read has failed, the budget
    /// is used up or the deadline has come.
    pub fn poll(&self, now_ns: u64, cancelled: bool) -> (step: ProducerStep)
        ensures
            step == self.decide(now_ns, cancelled),
    {
        if cancelled || self.failed || self.emitted >= self.budget || now_ns >= self.deadline_ns {
            ProducerStep::Finish
        } else {
            ProducerStep::Grab(self.region)
        }
    }

    /// Records that one frame went out, and returns the pause before the
    /// next iteration, in nanoseconds: always one frame interval.
    pub fn frame_sent(&mut self) -> (pause_ns: u64)
        requires
            old(self).emitted < old(self).budget,
        ensures
            *final(self) == old(self).advanced(),
            final(self).wf(),
            pause_ns == old(self).interval_ns,
    {
        self.emitted = self.emitted + 1;
        self.interval_ns
    }

    /// Records that the screen could not be read: sampling ends, and what
    /// was sent before stays sent.
    pub fn grab_failed(&mut self)
        ensures
            *final(self) == (Producer { failed: true, ..*old(self) }),
            forall|now_ns: u64, cancelled: bool|
                final(self).decide(now_ns, cancelled) == ProducerStep::Finish,
    {
        self.failed = true;
    }
}

} // verus!

//! Frame cycling of the ball's sprite sheet, timed in microseconds.
use vstd::prelude::*;

verus! {

/// Which frame of a looping sprite animation is shown, and for how long it has been.
#[derive(Clone, Copy, Debug, PartialEq, Eq, Structural)]
pub struct BallAnimation {
    pub current_frame: u32,
    pub total_frames: u32,
    /// How long each frame stays, in microseconds.
    pub frame_duration: u64,
    /// Time spent on the current frame, in microseconds.
    pub timer: u64,
}

impl BallAnimation {
    pub open spec fn wf(self) -> bool {
        self.total_frames > 0 && self.current_frame < self.total_frames
    }

    /// An animation of `total_frames` frames of `frame_duration` microseconds each,
    /// starting on its first frame.
    pub fn new(total_frames: u32, frame_duration: u64) -> (r: BallAnimation)
        requires
            total_frames > 0,
        ensures
            r.wf(),
            r == (BallAnimation { current_frame: 0, total_frames, frame_duration, timer: 0 }),
    {
        BallAnimation { current_frame: 0, total_frames, frame_duration, timer: 0 }
    }

    /// Lets `dt` microseconds pass: once the current frame has lasted its
    /// duration, the next frame is shown (after the last comes the first) and its
    /// timer starts from zero. Returns whether the frame changed.
    pub fn advance(&mut self, dt: u64) -> (r: bool)
        requires
            old(self).wf(),
        ensures
            final(self).wf(),
            final(self).total_frames == old(self).total_frames,
            final(self).frame_duration == old(self).frame_duration,
            ({
                let t = old(self).timer + dt;
                let t = if t > u64::MAX { u64::MAX as int } else { t };
                &&& r == (t >= old(self).frame_duration)
                &&& r ==> final(self).timer == 0 && final(self).current_frame == (old(self).current_frame
                    + 1) % (old(self).total_frames as int)
                &&& !r ==> final(self).timer == t && final(self).current_frame == old(self).current_frame
            }),
    {
        let ghost c = self.current_frame as int;
        let ghost n = self.total_frames as int;
        assert((c + 1) % n == if c + 1 == n {
            0
        } else {
            c + 1
        }) by (nonlinear_arith)
            requires
                0 <= c < n,
        ;
        self.timer = self.timer.saturating_add(dt);
        if self.timer >= self.frame_duration {
            self.timer = 0;
            self.current_frame = if self.current_frame + 1 == self.total_frames {
                0
            } else {
                self.current_frame + 1
            };
            true
        } else {
            false
        }
    }
}

} // verus!

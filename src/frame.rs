use vstd::prelude::*;

verus! {

/// Milliseconds from `then` to `now` on a clock that wraps at 2^32.
pub open spec fn ticks_since(now: u32, then: u32) -> int {
    if now >= then {
        now - then
    } else {
        now + 0x1_0000_0000 - then
    }
}

fn elapsed(now: u32, then: u32) -> (r: u32)
    ensures
        r == ticks_since(now, then),
{
    if now >= then {
        now - then
    } else {
        (u32::MAX - then) + now + 1
    }
}

/// What the frame loop does next.
#[derive(Clone, Copy, Debug, PartialEq, Eq, Structural)]
pub enum FramePace {
    /// Too early for a frame: wait this many milliseconds.
    Wait(u32),
    /// Draw a frame now.
    Render,
}

/// Paces frames to one per `interval` milliseconds and counts frames per second.
#[derive(Clone, Copy, Debug, PartialEq, Eq, Structural)]
pub struct FrameTimer {
    pub interval: u32,
    /// Time of the last frame drawn.
    pub prev: u32,
    /// Time of the last call.
    pub ticks: u32,
    /// Frames drawn in the current second.
    pub fps: u32,
    /// Frames drawn in the last full second.
    pub last_fps: u32,
    /// Start of the current second.
    pub last_second: u32,
    /// Milliseconds between the last two frames drawn.
    pub elapsed_ms: u32,
}

impl FrameTimer {
    pub fn new(interval: u32) -> (r: FrameTimer)
        ensures
            r == (FrameTimer {
                interval,
                prev: 0,
                ticks: 0,
                fps: 0,
                last_fps: 0,
                last_second: 0,
                elapsed_ms: 0,
            }),
    {
        FrameTimer { interval, prev: 0, ticks: 0, fps: 0, last_fps: 0, last_second: 0, elapsed_ms: 0 }
    }

    /// The timer after a call at time `now`, and what to do.
    pub open spec fn spec_frame_cap(self, now: u32) -> (FrameTimer, FramePace) {
        let delta = ticks_since(now, self.prev);
        let t = FrameTimer { ticks: now, ..self };
        if delta < self.interval {
            (t, FramePace::Wait((self.interval - delta) as u32))
        } else {
            let drawn = FrameTimer {
                prev: now,
                fps: if self.fps == u32::MAX { 0 } else { (self.fps + 1) as u32 },
                elapsed_ms: delta as u32,
                ..t
            };
            if ticks_since(now, self.last_second) > 1000 {
                (FrameTimer { last_fps: drawn.fps, last_second: now, fps: 0, ..drawn }, FramePace::Render)
            } else {
                (drawn, FramePace::Render)
            }
        }
    }

    /// Decides, at time `now`, whether to draw a frame or how long to wait;
    /// on a frame, counts it and rolls the count over once a second.
    pub fn frame_cap(&mut self, now: u32) -> (r: FramePace)
        ensures
            (*final(self), r) == old(self).spec_frame_cap(now),
    {
        let delta = elapsed(now, self.prev);
        self.ticks = now;
        if delta < self.interval {
            return FramePace::Wait(self.interval - delta);
        }
        self.prev = now;
        self.fps = self.fps.wrapping_add(1);
        self.elapsed_ms = delta;
        if elapsed(now, self.last_second) > 1000 {
            self.last_fps = self.fps;
            self.last_second = now;
            self.fps = 0;
        }
        FramePace::Render
    }
}

} // verus!

//! Sprite-sheet animation: a frame index that walks a strip at a fixed rate.

use vstd::prelude::*;

verus! {

/// Milliseconds in one second.
pub const MILLIS_PER_SECOND: u32 = 1000;

/// The animation state of one sprite.
///
/// `frame` walks from `first` to `last` and then starts over. A frame is
/// shown for `1 / fps` seconds; a rate of zero freezes the sprite.
#[derive(Clone, Copy, Debug, PartialEq, Eq, Structural)]
pub struct Animation {
    pub first: usize,
    pub last: usize,
    pub fps: u8,
    /// Time the current frame has been shown, in milliseconds.
    pub elapsed_ms: u32,
    pub frame: usize,
}

impl Animation {
    /// An animation that shows its first frame and has just begun timing it.
    pub open spec fn fresh(first: usize, last: usize, fps: u8) -> Animation {
        Animation { first, last, fps, elapsed_ms: 0, frame: first }
    }

    /// Whether the current frame has been shown for its full period once
    /// `dt_ms` more milliseconds have passed.
    pub open spec fn due(self, dt_ms: u32) -> bool {
        self.fps > 0 && (self.elapsed_ms + dt_ms) * self.fps >= MILLIS_PER_SECOND
    }

    /// The frame that follows the current one, wrapping past `last` to `first`.
    pub open spec fn next_frame(self) -> usize {
        if self.frame >= self.last {
            self.first
        } else {
            (self.frame + 1) as usize
        }
    }

    /// The state after a frame of `dt_ms` milliseconds.
    pub open spec fn advanced(self, dt_ms: u32) -> Animation {
        if self.due(dt_ms) {
            Animation { frame: self.next_frame(), elapsed_ms: 0, ..self }
        } else if self.fps == 0 {
            self
        } else {
            Animation { elapsed_ms: (self.elapsed_ms + dt_ms) as u32, ..self }
        }
    }

    /// Starts an animation over the frames `first..=last` at `fps` frames per second.
    pub fn new(first: usize, last: usize, fps: u8) -> (a: Animation)
        ensures
            a == Animation::fresh(first, last, fps),
    {
        Animation { first, last, fps, elapsed_ms: 0, frame: first }
    }

    /// Lets `dt_ms` milliseconds pass: at most one frame change per call, and
    /// the time that ran past the change is dropped.
    pub fn advance(&mut self, dt_ms: u32)
        ensures
            *final(self) == old(self).advanced(dt_ms),
    {
        if self.fps == 0 {
            return ;
        }
        let shown: u64 = self.elapsed_ms as u64 + dt_ms as u64;
        assert(shown * self.fps <= 0x1_FFFF_FFFE * 255) by (nonlinear_arith)
            requires
                0 <= shown <= 0x1_FFFF_FFFE,
                0 <= self.fps <= 255,
        ;
        let scaled: u64 = shown * (self.fps as u64);
        if scaled >= MILLIS_PER_SECOND as u64 {
            self.frame = if self.frame >= self.last {
                self.first
            } else {
                self.frame + 1
            };
            self.elapsed_ms = 0;
        } else {
            assert(shown < MILLIS_PER_SECOND) by (nonlinear_arith)
                requires
                    shown * self.fps < MILLIS_PER_SECOND,
                    self.fps >= 1,
                    shown >= 0,
            ;
            self.elapsed_ms = shown as u32;
        }
    }
}

} // verus!

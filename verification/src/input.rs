//! The keys a player holds, and the direction they add up to.

use vstd::prelude::*;

verus! {

/// The keys that are held during one frame.
#[derive(Clone, Copy, Debug, PartialEq, Eq, Structural)]
pub struct Input {
    pub left: bool,
    pub right: bool,
    pub up: bool,
    pub down: bool,
    pub shoot: bool,
}

/// A direction of travel: each axis is -1, 0 or 1.
#[derive(Clone, Copy, Debug, PartialEq, Eq, Structural)]
pub struct Intent {
    pub x: i8,
    pub y: i8,
}

/// What two opposing keys add up to on their axis.
pub open spec fn axis(negative: bool, positive: bool) -> int {
    (if positive { 1int } else { 0int }) - (if negative { 1int } else { 0int })
}

impl Input {
    /// No key held.
    pub open spec fn idle() -> Input {
        Input { left: false, right: false, up: false, down: false, shoot: false }
    }

    /// The direction the held keys ask for.
    pub open spec fn intent_of(self) -> Intent {
        Intent { x: axis(self.left, self.right) as i8, y: axis(self.down, self.up) as i8 }
    }

    /// An input with no key held.
    pub fn none() -> (i: Input)
        ensures
            i == Input::idle(),
    {
        Input { left: false, right: false, up: false, down: false, shoot: false }
    }

    /// Adds up the held direction keys. Opposing keys cancel.
    pub fn intent(&self) -> (i: Intent)
        ensures
            i == self.intent_of(),
            i.x == axis(self.left, self.right),
            i.y == axis(self.down, self.up),
            self.left && self.right ==> i.x == 0,
            self.up && self.down ==> i.y == 0,
    {
        let mut x: i8 = 0;
        let mut y: i8 = 0;
        if self.left {
            x = x - 1;
        }
        if self.right {
            x = x + 1;
        }
        if self.up {
            y = y + 1;
        }
        if self.down {
            y = y - 1;
        }
        Intent { x, y }
    }
}

} // verus!

//! The input state that the games read on each frame.

use vstd::prelude::*;

verus! {

/// One key or button: whether it is held, and whether it was pressed during
/// this frame (a rising edge).
#[derive(Clone, Copy, Debug, PartialEq, Eq, Structural)]
pub struct Button {
    pub is_down: bool,
    pub went_down: bool,
}

/// The keys that the games read.
#[derive(Clone, Copy, Debug, PartialEq, Eq, Structural)]
pub struct Keys {
    pub left: Button,
    pub right: Button,
    pub up: Button,
    pub down: Button,
    pub w: Button,
    pub s: Button,
    pub space: Button,
}

impl Button {
    /// A button that is up and was not pressed.
    pub fn released() -> (r: Button)
        ensures
            !r.is_down && !r.went_down,
    {
        Button { is_down: false, went_down: false }
    }

    /// A button held down, pressed during this frame.
    pub fn pressed() -> (r: Button)
        ensures
            r.is_down && r.went_down,
    {
        Button { is_down: true, went_down: true }
    }

    /// A button held down since an earlier frame.
    pub fn held() -> (r: Button)
        ensures
            r.is_down && !r.went_down,
    {
        Button { is_down: true, went_down: false }
    }
}

impl Keys {
    pub open spec fn all_released(self) -> bool {
        &&& !self.left.is_down && !self.left.went_down
        &&& !self.right.is_down && !self.right.went_down
        &&& !self.up.is_down && !self.up.went_down
        &&& !self.down.is_down && !self.down.went_down
        &&& !self.w.is_down && !self.w.went_down
        &&& !self.s.is_down && !self.s.went_down
        &&& !self.space.is_down && !self.space.went_down
    }

    /// No key held or pressed.
    pub fn none() -> (r: Keys)
        ensures
            r.all_released(),
    {
        let b = Button::released();
        Keys { left: b, right: b, up: b, down: b, w: b, s: b, space: b }
    }
}

} // verus!

//! The visible field.

use vstd::prelude::*;

verus! {

/// Half the width of the window the game opens with, in sub-units.
pub const WINDOW_HALF_WIDTH_PX: u32 = 256_000_000;

/// Half the height of the window the game opens with, in sub-units.
pub const WINDOW_HALF_HEIGHT_PX: u32 = 256_000_000;

/// The visible field: a rectangle around the origin, given by half its width
/// and half its height in sub-units.
#[derive(Clone, Copy, Debug, PartialEq, Eq, Structural)]
pub struct WindowInfo {
    /// Distance from the origin to the left and to the right edge.
    pub half_width: u32,
    /// Distance from the origin to the bottom and to the top edge.
    pub half_height: u32,
}

impl WindowInfo {
    /// The horizontal position of the left edge.
    pub open spec fn min_x(self) -> int {
        -(self.half_width as int)
    }

    /// The horizontal position of the right edge.
    pub open spec fn max_x(self) -> int {
        self.half_width as int
    }

    /// The vertical position of the bottom edge.
    pub open spec fn min_y(self) -> int {
        -(self.half_height as int)
    }

    /// The vertical position of the top edge.
    pub open spec fn max_y(self) -> int {
        self.half_height as int
    }

    /// The field of the window the game opens with.
    pub fn new() -> (window: WindowInfo)
        ensures
            window == (WindowInfo {
                half_width: WINDOW_HALF_WIDTH_PX,
                half_height: WINDOW_HALF_HEIGHT_PX,
            }),
    {
        WindowInfo { half_width: WINDOW_HALF_WIDTH_PX, half_height: WINDOW_HALF_HEIGHT_PX }
    }
}

} // verus!

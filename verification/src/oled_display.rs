//! Layout of the 128x64 OLED display: a dial on the right half, text on the left.
use vstd::prelude::*;

verus! {

/// Width of the display in pixels.
pub const DISPLAY_WIDTH: i32 = 128;

/// Height of the display in pixels.
pub const DISPLAY_HEIGHT: i32 = 64;

/// Errors of the OLED display driver.
#[derive(Clone, Copy, PartialEq, Eq, Structural, Debug)]
pub enum OLEDError {
    Draw,
    DriverInit,
    Flush,
    I2CBus,
}

/// Placement of the dial on the right half of the display: the bounding
/// square of its circle and the segment that points to the anchor angle.
#[derive(Clone, Copy, PartialEq, Eq, Structural, Debug)]
pub struct DialLayout {
    /// Left edge of the circle's bounding square.
    pub corner_x: i32,
    /// Top edge of the circle's bounding square.
    pub corner_y: i32,
    /// Diameter of the circle.
    pub diameter: u32,
    /// Horizontal position where the anchor segment starts.
    pub center_x: i32,
    /// Vertical position where the anchor segment starts.
    pub center_y: i32,
    /// Length of the anchor segment.
    pub needle_length: i32,
}

/// The dial: a circle inset by 2 pixels in the right half of the display,
/// and an anchor segment from the circle's center, 2 pixels longer than
/// half the display's height.
pub open spec fn spec_dial_layout() -> DialLayout {
    DialLayout {
        corner_x: (2 + DISPLAY_WIDTH / 2) as i32,
        corner_y: 2,
        diameter: (DISPLAY_HEIGHT - 4) as u32,
        center_x: (DISPLAY_WIDTH * 3 / 4) as i32,
        center_y: (DISPLAY_HEIGHT / 2) as i32,
        needle_length: (2 + DISPLAY_HEIGHT / 2) as i32,
    }
}

/// Where the dial is drawn.
pub fn dial_layout() -> (layout: DialLayout)
    ensures
        layout == spec_dial_layout(),
{
    DialLayout {
        corner_x: 2 + DISPLAY_WIDTH / 2,
        corner_y: 2,
        diameter: (DISPLAY_HEIGHT - 4) as u32,
        center_x: DISPLAY_WIDTH * 3 / 4,
        center_y: DISPLAY_HEIGHT / 2,
        needle_length: 2 + DISPLAY_HEIGHT / 2,
    }
}

} // verus!

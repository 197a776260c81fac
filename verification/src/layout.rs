//! The fixed two-region layout: a constant-width rail spanning the full
//! window height, and a content region filling the remainder.

use vstd::prelude::*;

verus! {

/// Width of the side rail, in pixels.
pub const TOOLBAR_WIDTH: u32 = 70;

/// An axis-aligned rectangle in window coordinates.
#[derive(Clone, Copy, PartialEq, Eq, Structural, Debug)]
pub struct Rect {
    pub x: u32,
    pub y: u32,
    pub width: u32,
    pub height: u32,
}

/// The rail rectangle for a window of the given height.
pub open spec fn rail_rect(height: u32) -> Rect {
    Rect { x: 0, y: 0, width: TOOLBAR_WIDTH, height }
}

/// The content rectangle for a window of the given size: everything right of
/// the rail.
pub open spec fn content_rect(width: u32, height: u32) -> Rect {
    Rect { x: TOOLBAR_WIDTH, y: 0, width: (width - TOOLBAR_WIDTH) as u32, height }
}

/// Bounds of the rail surface for a window of the given height.
pub fn toolbar_bounds(height: u32) -> (r: Rect)
    ensures
        r == rail_rect(height),
{
    Rect { x: 0, y: 0, width: TOOLBAR_WIDTH, height }
}

/// Bounds of the content region for a window of the given size.  The window
/// is never narrower than the rail.
pub fn content_bounds(width: u32, height: u32) -> (r: Rect)
    requires
        width >= TOOLBAR_WIDTH,
    ensures
        r == content_rect(width, height),
{
    Rect { x: TOOLBAR_WIDTH, y: 0, width: width - TOOLBAR_WIDTH, height }
}

} // verus!

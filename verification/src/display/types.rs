use vstd::prelude::*;

verus! {

/// The size of a window or display in pixels.
#[derive(Debug, Copy, Clone, PartialEq, Eq, Structural)]
pub struct Size {
    /// The width of the display in pixels.
    pub width: u32,
    /// The height of the display in pixels.
    pub height: u32,
}

impl Size {
    pub fn new(width: u32, height: u32) -> (r: Size)
        ensures
            r.width == width,
            r.height == height,
    {
        Size { width, height }
    }
}

/// The position of a window's top-left corner on the screen: `x` is the
/// distance from the left edge, `y` the distance from the top.
#[derive(Debug, Copy, Clone, PartialEq, Eq, Structural)]
pub struct Position {
    /// The horizontal position of the window.
    pub x: i32,
    /// The vertical position of the window.
    pub y: i32,
}

impl Position {
    pub fn new(x: i32, y: i32) -> (r: Position)
        ensures
            r.x == x,
            r.y == y,
    {
        Position { x, y }
    }
}

} // verus!

use vstd::prelude::*;

verus! {

/// The width and height of a 2D space, generic over the numeric type.
#[derive(Debug, Default, Copy, Clone)]
pub struct Dimension2D<T> {
    pub width: T,
    pub height: T,
}

impl<T> Dimension2D<T> {
    pub fn new(width: T, height: T) -> (r: Self)
        ensures
            r.width == width,
            r.height == height,
    {
        Self { width, height }
    }
}

/// The width, height and depth of a 3D space, generic over the numeric
/// type.
#[derive(Debug, Default, Copy, Clone)]
pub struct Dimension3D<T> {
    pub width: T,
    pub height: T,
    pub depth: T,
}

impl<T> Dimension3D<T> {
    pub fn new(width: T, height: T, depth: T) -> (r: Self)
        ensures
            r.width == width,
            r.height == height,
            r.depth == depth,
    {
        Self { width, height, depth }
    }
}

} // verus!

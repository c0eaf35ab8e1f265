//! Pixel extents of a drawable surface.

use vstd::prelude::*;

verus! {

/// Width and height of a surface, an image or a viewport, in pixels.
#[derive(Clone, Copy, Debug, PartialEq, Eq, Structural)]
pub struct Extent {
    pub width: u32,
    pub height: u32,
}

impl Extent {
    /// An extent covers no pixel when either dimension is zero.
    pub open spec fn empty(self) -> bool {
        self.width == 0 || self.height == 0
    }

    /// Both dimensions lie between those of `min` and `max`, bounds included.
    pub open spec fn within(self, min: Extent, max: Extent) -> bool {
        &&& min.width <= self.width <= max.width
        &&& min.height <= self.height <= max.height
    }

    pub fn new(width: u32, height: u32) -> (e: Extent)
        ensures
            e == (Extent { width, height }),
    {
        Extent { width, height }
    }

    pub fn is_empty(&self) -> (r: bool)
        ensures
            r == self.empty(),
    {
        self.width == 0 || self.height == 0
    }

    pub fn is_within(&self, min: &Extent, max: &Extent) -> (r: bool)
        ensures
            r == self.within(*min, *max),
    {
        min.width <= self.width && self.width <= max.width && min.height <= self.height
            && self.height <= max.height
    }
}

} // verus!

//! Rectangles, sizes and positions.
use vstd::prelude::*;

verus! {

/// A rectangle as the ability framework reports it.
#[derive(Clone, Copy, Debug, PartialEq, Eq, Structural)]
pub struct Rect {
    pub top: i32,
    pub left: i32,
    pub width: i32,
    pub height: i32,
}

/// A window size as the ability framework reports it.
#[derive(Clone, Copy, Debug, PartialEq, Eq, Structural)]
pub struct Size {
    pub width: i32,
    pub height: i32,
}

/// A size in physical pixels.
#[derive(Clone, Copy, Debug, PartialEq, Eq, Hash, Structural)]
pub struct PhysicalSize {
    pub width: u32,
    pub height: u32,
}

/// A position in physical pixels.
#[derive(Clone, Copy, Debug, PartialEq, Eq, Hash, Structural)]
pub struct PhysicalPosition<P> {
    pub x: P,
    pub y: P,
}

/// A signed extent read as an unsigned one: what is negative wraps around.
pub open spec fn unsigned_extent(extent: int) -> int {
    if extent >= 0 {
        extent
    } else {
        extent + 0x1_0000_0000
    }
}

/// Reads a signed extent as an unsigned one.
fn unsigned(extent: i32) -> (r: u32)
    ensures
        r == unsigned_extent(extent as int),
{
    assert(extent < 0 ==> extent as u32 == extent + 0x1_0000_0000) by (bit_vector);
    assert(extent >= 0 ==> extent as u32 == extent) by (bit_vector);
    #[verifier::truncate]
    (extent as u32)
}

impl PhysicalSize {
    /// The size with the given signed extents.
    pub open spec fn of_extents(width: int, height: int) -> PhysicalSize {
        PhysicalSize {
            width: unsigned_extent(width) as u32,
            height: unsigned_extent(height) as u32,
        }
    }

    /// The size with the given signed extents.
    pub fn from_extents(width: i32, height: i32) -> (size: PhysicalSize)
        ensures
            size == PhysicalSize::of_extents(width as int, height as int),
    {
        PhysicalSize { width: unsigned(width), height: unsigned(height) }
    }
}

impl Rect {
    /// Whether both extents are positive.
    pub open spec fn has_area(self) -> bool {
        self.width > 0 && self.height > 0
    }

    /// The size of the rectangle.
    pub open spec fn size(self) -> PhysicalSize {
        PhysicalSize::of_extents(self.width as int, self.height as int)
    }

    /// The size of the rectangle.
    pub fn physical_size(&self) -> (size: PhysicalSize)
        ensures
            size == self.size(),
    {
        PhysicalSize::from_extents(self.width, self.height)
    }
}

/// An extent that is not negative is kept as it is, and no two extents become the same.
pub proof fn law_extents_keep_apart(a: i32, b: i32)
    ensures
        a >= 0 ==> unsigned_extent(a as int) == a,
        0 <= unsigned_extent(a as int) <= u32::MAX,
        unsigned_extent(a as int) == unsigned_extent(b as int) ==> a == b,
{
}

/// A size has the width and the height that it was made from, each kept as it is unless it is
/// negative, and then raised by 2^32.
pub proof fn law_sizes_keep_their_extents(width: i32, height: i32)
    ensures
        width >= 0 ==> PhysicalSize::of_extents(width as int, height as int).width == width,
        width < 0 ==> PhysicalSize::of_extents(width as int, height as int).width == width
            + 0x1_0000_0000,
        height >= 0 ==> PhysicalSize::of_extents(width as int, height as int).height == height,
        height < 0 ==> PhysicalSize::of_extents(width as int, height as int).height == height
            + 0x1_0000_0000,
{
}

/// The size of a rectangle is its width and its height, wherever it lies, and it has an area
/// exactly if neither is zero or negative.
pub proof fn law_rectangle_size(rect: Rect, moved: Rect)
    requires
        moved.width == rect.width,
        moved.height == rect.height,
    ensures
        rect.width >= 0 ==> rect.size().width == rect.width,
        rect.width < 0 ==> rect.size().width == rect.width + 0x1_0000_0000,
        rect.height >= 0 ==> rect.size().height == rect.height,
        rect.height < 0 ==> rect.size().height == rect.height + 0x1_0000_0000,
        rect.size() == moved.size(),
        rect.has_area() <==> !(rect.width <= 0 || rect.height <= 0),
{
}

} // verus!

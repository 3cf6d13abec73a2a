//! Plain geometry and colour values used by the display buffers.
//!
//! These mirror the coordinate model of `embedded-graphics`: a `Point` has signed
//! coordinates, a `Size` is unsigned, and a `Rectangle` covers the half-open range
//! `top_left .. top_left + size` on both axes.
use embedded_graphics::geometry::Point as EgPoint;
use embedded_graphics::geometry::Size as EgSize;
use embedded_graphics::primitives::Rectangle as EgRectangle;
use vstd::prelude::*;

verus! {

/// A point on the drawing plane.
#[derive(Clone, Copy, Debug, PartialEq, Eq, Structural)]
pub struct Point {
    pub x: i32,
    pub y: i32,
}

/// A width and height in pixels.
#[derive(Clone, Copy, Debug, PartialEq, Eq, Structural)]
pub struct Size {
    pub width: u32,
    pub height: u32,
}

/// An axis-aligned rectangle given by its top left corner and its size.
#[derive(Clone, Copy, Debug, PartialEq, Eq, Structural)]
pub struct Rectangle {
    pub top_left: Point,
    pub size: Size,
}

/// A single coloured pixel.
#[derive(Clone, Copy, Debug, PartialEq, Eq)]
pub struct Pixel<C>(pub Point, pub C);

/// A two-state colour.
#[derive(Clone, Copy, Debug, PartialEq, Eq, Structural)]
pub enum BinaryColor {
    Off,
    On,
}

/// A 2-bit grayscale colour; the luma is always below 4.
#[derive(Clone, Copy, Debug, PartialEq, Eq, Structural)]
pub struct Gray2 {
    luma: u8,
}

/// The logic level of a digital pin.
#[derive(Clone, Copy, Debug, PartialEq, Eq, Structural)]
pub enum PinState {
    Low,
    High,
}

impl Point {
    /// Creates a point from its coordinates.
    pub fn new(x: i32, y: i32) -> (p: Point)
        ensures
            p.x == x,
            p.y == y,
    {
        Point { x, y }
    }

    /// The origin.
    pub fn zero() -> (p: Point)
        ensures
            p.x == 0,
            p.y == 0,
    {
        Point { x: 0, y: 0 }
    }
}

impl Size {
    /// Creates a size from a width and a height.
    pub fn new(width: u32, height: u32) -> (s: Size)
        ensures
            s.width == width,
            s.height == height,
    {
        Size { width, height }
    }
}

impl Rectangle {
    /// Creates a rectangle from its top left corner and its size.
    pub fn new(top_left: Point, size: Size) -> (r: Rectangle)
        ensures
            r.top_left == top_left,
            r.size == size,
    {
        Rectangle { top_left, size }
    }

    /// The rectangle holds the point.
    pub open spec fn spec_contains(self, p: Point) -> bool {
        &&& self.top_left.x <= p.x < self.top_left.x + self.size.width
        &&& self.top_left.y <= p.y < self.top_left.y + self.size.height
    }

    /// The rectangle covers no pixel.
    pub open spec fn is_empty(self) -> bool {
        self.size.width == 0 || self.size.height == 0
    }

    /// A rectangle that covers pixels has its far corner inside the `i32` range.
    pub open spec fn fits(self) -> bool {
        self.is_empty() || (self.size.width <= i32::MAX && self.size.height <= i32::MAX
            && self.top_left.x + self.size.width <= i32::MAX && self.top_left.y + self.size.height
            <= i32::MAX)
    }

    /// Returns whether the rectangle covers no pixel or has its far corner inside the `i32`
    /// range.
    pub fn in_range(&self) -> (r: bool)
        ensures
            r == self.fits(),
    {
        if self.size.width == 0 || self.size.height == 0 {
            true
        } else {
            let max: i64 = i32::MAX as i64;
            let w: i64 = self.size.width as i64;
            let h: i64 = self.size.height as i64;
            w <= max && h <= max && (self.top_left.x as i64) + w <= max && (self.top_left.y as i64)
                + h <= max
        }
    }

    /// Returns the bottom right corner, or `None` for a rectangle that covers no pixel.
    pub fn bottom_right(&self) -> (r: Option<Point>)
        requires
            self.fits(),
        ensures
            self.is_empty() ==> r is None,
            !self.is_empty() ==> r == Some(
                Point {
                    x: (self.top_left.x + self.size.width - 1) as i32,
                    y: (self.top_left.y + self.size.height - 1) as i32,
                },
            ),
    {
        if self.size.width > 0 && self.size.height > 0 {
            let w: i32 = self.size.width as i32;
            let h: i32 = self.size.height as i32;
            Some(Point { x: self.top_left.x + w - 1, y: self.top_left.y + h - 1 })
        } else {
            None
        }
    }
}

/// The smaller of two integers.
pub open spec fn min_int(a: int, b: int) -> int {
    if a <= b {
        a
    } else {
        b
    }
}

/// The larger of two integers.
pub open spec fn max_int(a: int, b: int) -> int {
    if a >= b {
        a
    } else {
        b
    }
}

/// The two rectangles share at least one pixel.
pub open spec fn overlap(a: Rectangle, b: Rectangle) -> bool {
    &&& !a.is_empty()
    &&& !b.is_empty()
    &&& max_int(a.top_left.x as int, b.top_left.x as int) < min_int(
        a.top_left.x + a.size.width,
        b.top_left.x + b.size.width,
    )
    &&& max_int(a.top_left.y as int, b.top_left.y as int) < min_int(
        a.top_left.y + a.size.height,
        b.top_left.y + b.size.height,
    )
}

/// Computes the common part of two rectangles with `embedded_graphics`.
///
/// Trusted: calls `embedded_graphics::primitives::Rectangle::intersection`. Its source builds
/// the rectangle spanned by the componentwise maximum of the top left corners and the
/// componentwise minimum of the bottom right corners when the two rectangles overlap;
/// otherwise it returns `Rectangle::zero()`, or one of the two rectangles when that one covers
/// no pixel. The contract claims the first case exactly, and of the others only that the
/// result covers no pixel. The call computes `top_left + size` of each rectangle that covers
/// pixels, which overflows unless the rectangle fits the `i32` range.
#[verifier::external_body]
pub(crate) fn intersection(a: &Rectangle, b: &Rectangle) -> (r: Rectangle)
    requires
        a.fits(),
        b.fits(),
    ensures
        !overlap(*a, *b) ==> r.is_empty(),
        overlap(*a, *b) ==> r.top_left.x == max_int(a.top_left.x as int, b.top_left.x as int)
            && r.top_left.y == max_int(a.top_left.y as int, b.top_left.y as int) && r.size.width
            == min_int(a.top_left.x + a.size.width, b.top_left.x + b.size.width) - r.top_left.x
            && r.size.height == min_int(a.top_left.y + a.size.height, b.top_left.y + b.size.height)
            - r.top_left.y,
{
    let ea = EgRectangle::new(
        EgPoint::new(a.top_left.x, a.top_left.y),
        EgSize::new(a.size.width, a.size.height),
    );
    let eb = EgRectangle::new(
        EgPoint::new(b.top_left.x, b.top_left.y),
        EgSize::new(b.size.width, b.size.height),
    );
    let er = ea.intersection(&eb);
    Rectangle {
        top_left: Point { x: er.top_left.x, y: er.top_left.y },
        size: Size { width: er.size.width, height: er.size.height },
    }
}

impl BinaryColor {
    /// Whether this is the `On` colour.
    pub fn is_on(&self) -> (r: bool)
        ensures
            r == (*self == BinaryColor::On),
    {
        match self {
            BinaryColor::On => true,
            BinaryColor::Off => false,
        }
    }

    /// The other colour.
    pub fn invert(&self) -> (r: BinaryColor)
        ensures
            r != *self,
    {
        match self {
            BinaryColor::On => BinaryColor::Off,
            BinaryColor::Off => BinaryColor::On,
        }
    }
}

impl Gray2 {
    #[verifier::type_invariant]
    spec fn luma_in_range(self) -> bool {
        self.luma < 4
    }

    /// The value is a valid 2-bit grayscale colour.
    pub closed spec fn wf(self) -> bool {
        self.luma < 4
    }

    /// The luma value.
    pub closed spec fn spec_luma(self) -> u8 {
        self.luma
    }

    /// The grayscale colour with the lowest two bits of `luma`.
    pub closed spec fn from_luma(luma: u8) -> Gray2 {
        Gray2 { luma: luma % 4 }
    }

    /// A colour built from a luma is valid and keeps the luma's lowest two bits.
    pub broadcast proof fn lemma_from_luma(luma: u8)
        ensures
            #[trigger] Gray2::from_luma(luma).wf(),
            Gray2::from_luma(luma).spec_luma() == luma % 4,
    {
    }

    /// A valid colour is the one built from its own luma.
    pub broadcast proof fn lemma_wf(g: Gray2)
        requires
            g.wf(),
        ensures
            #[trigger] Gray2::from_luma(g.spec_luma()) == g,
            g.spec_luma() < 4,
    {
    }

    /// Creates a grayscale colour; bits above the lowest two are dropped.
    pub fn new(luma: u8) -> (g: Gray2)
        ensures
            g == Gray2::from_luma(luma),
            g.wf(),
            g.spec_luma() == luma % 4,
    {
        assert(luma & 3 == luma % 4) by (bit_vector);
        Gray2 { luma: luma & 3 }
    }

    /// Returns the luma value, between 0 and 3.
    pub fn luma(&self) -> (r: u8)
        ensures
            r == self.spec_luma(),
            r < 4,
            self.wf(),
    {
        proof {
            use_type_invariant(self);
        }
        self.luma
    }
}

pub broadcast group group_gray2 {
    Gray2::lemma_from_luma,
    Gray2::lemma_wf,
}

} // verus!

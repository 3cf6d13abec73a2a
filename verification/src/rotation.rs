//! Rotating drawing coordinates by quarter turns.
use crate::canvas::{
    area_len, area_point, contiguous_pixels, drawn_color, lemma_area_point, lemma_drawn_color_push,
    solid_pixels, Canvas,
};
use crate::geometry::{Pixel, Point, Rectangle, Size};
use vstd::prelude::*;

verus! {

/// The value fits the `i32` range.
pub open spec fn fits_i32(v: int) -> bool {
    i32::MIN <= v <= i32::MAX
}

/// A way of mapping coordinates of one orientation onto another.
pub trait Rotation: Sized {
    /// The rotation that reverses this one.
    spec fn spec_inverse(&self) -> Self;

    /// The size of an area after rotation.
    spec fn spec_rotate_size(&self, size: Size) -> Size;

    /// Where `point` of a source area of size `bounds` lands.
    spec fn spec_rotate_point(&self, point: Point, bounds: Size) -> Point;

    /// Where `rectangle` of a source area of size `bounds` lands.
    spec fn spec_rotate_rectangle(&self, rectangle: Rectangle, bounds: Size) -> Rectangle;

    /// Rotating `point` stays within the `i32` range.
    spec fn point_in_range(&self, point: Point, bounds: Size) -> bool;

    /// Rotating `rectangle` stays within the `i32` range.
    spec fn rectangle_in_range(&self, rectangle: Rectangle, bounds: Size) -> bool;

    /// Returns whether `point` can be rotated within `bounds` without leaving the `i32` range.
    fn can_rotate_point(&self, point: Point, bounds: Size) -> (r: bool)
        ensures
            r == self.point_in_range(point, bounds),
    ;

    /// Returns whether `rectangle` can be rotated within `bounds` without leaving the `i32`
    /// range.
    fn can_rotate_rectangle(&self, rectangle: Rectangle, bounds: Size) -> (r: bool)
        ensures
            r == self.rectangle_in_range(rectangle, bounds),
    ;

    /// Returns the inverse rotation that reverses this rotation's effect.
    fn inverse(&self) -> (r: Self)
        ensures
            r == self.spec_inverse(),
    ;

    /// Rotates the given size according to this rotation type.
    fn rotate_size(&self, size: Size) -> (r: Size)
        ensures
            r == self.spec_rotate_size(size),
    ;

    /// Rotates a point according to this rotation type, within overall source bounds of the
    /// given size.
    fn rotate_point(&self, point: Point, bounds: Size) -> (r: Point)
        requires
            self.point_in_range(point, bounds),
        ensures
            r == self.spec_rotate_point(point, bounds),
    ;

    /// Rotates a rectangle according to this rotation type, within overall source bounds of the
    /// given size.
    fn rotate_rectangle(&self, rectangle: Rectangle, bounds: Size) -> (r: Rectangle)
        requires
            self.rectangle_in_range(rectangle, bounds),
        ensures
            r == self.spec_rotate_rectangle(rectangle, bounds),
    ;
}

/// Represents a 90, 180, or 270 degree clockwise rotation of a point within a given size.
#[derive(Clone, Copy, Debug, PartialEq, Eq, Structural)]
pub enum Rotate {
    Degrees90,
    Degrees180,
    Degrees270,
}

/// `bounds.width - point.x - 1`, the mirrored column.
pub open spec fn flip_x(point: Point, bounds: Size) -> int {
    (bounds.width as i32) - point.x - 1
}

/// `bounds.height - point.y - 1`, the mirrored row.
pub open spec fn flip_y(point: Point, bounds: Size) -> int {
    (bounds.height as i32) - point.y - 1
}

/// The corner of `rectangle` that a rotation moves to the top left.
pub open spec fn leading_corner(rotate: Rotate, rectangle: Rectangle) -> Point {
    match rotate {
        Rotate::Degrees90 => Point {
            x: rectangle.top_left.x,
            y: (rectangle.top_left.y + ((rectangle.size.height as i32) - 1)) as i32,
        },
        Rotate::Degrees180 => Point {
            x: (rectangle.top_left.x + rectangle.size.width - 1) as i32,
            y: (rectangle.top_left.y + rectangle.size.height - 1) as i32,
        },
        Rotate::Degrees270 => Point {
            x: (rectangle.top_left.x + ((rectangle.size.width as i32) - 1)) as i32,
            y: rectangle.top_left.y,
        },
    }
}

impl Rotation for Rotate {
    open spec fn spec_inverse(&self) -> Rotate {
        match self {
            Rotate::Degrees90 => Rotate::Degrees270,
            Rotate::Degrees180 => Rotate::Degrees180,
            Rotate::Degrees270 => Rotate::Degrees90,
        }
    }

    open spec fn spec_rotate_size(&self, size: Size) -> Size {
        match self {
            Rotate::Degrees90 | Rotate::Degrees270 => Size { width: size.height, height: size.width },
            Rotate::Degrees180 => size,
        }
    }

    open spec fn spec_rotate_point(&self, point: Point, bounds: Size) -> Point {
        match self {
            Rotate::Degrees90 => Point { x: flip_y(point, bounds) as i32, y: point.x },
            Rotate::Degrees180 => Point {
                x: flip_x(point, bounds) as i32,
                y: flip_y(point, bounds) as i32,
            },
            Rotate::Degrees270 => Point { x: point.y, y: flip_x(point, bounds) as i32 },
        }
    }

    open spec fn spec_rotate_rectangle(&self, rectangle: Rectangle, bounds: Size) -> Rectangle {
        Rectangle {
            top_left: self.spec_rotate_point(leading_corner(*self, rectangle), bounds),
            size: self.spec_rotate_size(rectangle.size),
        }
    }

    open spec fn point_in_range(&self, point: Point, bounds: Size) -> bool {
        let x_ok = fits_i32((bounds.width as i32) - point.x) && fits_i32(flip_x(point, bounds));
        let y_ok = fits_i32((bounds.height as i32) - point.y) && fits_i32(flip_y(point, bounds));
        match self {
            Rotate::Degrees90 => y_ok,
            Rotate::Degrees180 => x_ok && y_ok,
            Rotate::Degrees270 => x_ok,
        }
    }

    open spec fn rectangle_in_range(&self, rectangle: Rectangle, bounds: Size) -> bool {
        let tl = rectangle.top_left;
        let size = rectangle.size;
        &&& match self {
            Rotate::Degrees90 => fits_i32((size.height as i32) - 1) && fits_i32(
                tl.y + ((size.height as i32) - 1),
            ),
            Rotate::Degrees180 => size.width <= i32::MAX && size.height <= i32::MAX && fits_i32(
                tl.x + size.width,
            ) && fits_i32(tl.y + size.height) && fits_i32(tl.x + size.width - 1) && fits_i32(
                tl.y + size.height - 1,
            ),
            Rotate::Degrees270 => fits_i32((size.width as i32) - 1) && fits_i32(
                tl.x + ((size.width as i32) - 1),
            ),
        }
        &&& self.point_in_range(leading_corner(*self, rectangle), bounds)
    }

    fn can_rotate_point(&self, point: Point, bounds: Size) -> (r: bool) {
        let min: i64 = i32::MIN as i64;
        let max: i64 = i32::MAX as i64;
        let dx: i64 = ((bounds.width as i32) as i64) - (point.x as i64);
        let dy: i64 = ((bounds.height as i32) as i64) - (point.y as i64);
        let x_ok = min <= dx && dx <= max && min <= dx - 1 && dx - 1 <= max;
        let y_ok = min <= dy && dy <= max && min <= dy - 1 && dy - 1 <= max;
        match self {
            Rotate::Degrees90 => y_ok,
            Rotate::Degrees180 => x_ok && y_ok,
            Rotate::Degrees270 => x_ok,
        }
    }

    fn can_rotate_rectangle(&self, rectangle: Rectangle, bounds: Size) -> (r: bool) {
        let min: i64 = i32::MIN as i64;
        let max: i64 = i32::MAX as i64;
        let tl = rectangle.top_left;
        match self {
            Rotate::Degrees90 => {
                let span: i64 = ((rectangle.size.height as i32) as i64) - 1;
                let end: i64 = (tl.y as i64) + span;
                if !(min <= span && span <= max && min <= end && end <= max) {
                    return false;
                }
                let corner = Point::new(tl.x, end as i32);
                self.can_rotate_point(corner, bounds)
            },
            Rotate::Degrees180 => {
                let w: i64 = rectangle.size.width as i64;
                let h: i64 = rectangle.size.height as i64;
                let x_end: i64 = (tl.x as i64) + w;
                let y_end: i64 = (tl.y as i64) + h;
                if !(w <= max && h <= max && x_end <= max && y_end <= max && min <= x_end - 1 && min
                    <= y_end - 1) {
                    return false;
                }
                let corner = Point::new((x_end - 1) as i32, (y_end - 1) as i32);
                self.can_rotate_point(corner, bounds)
            },
            Rotate::Degrees270 => {
                let span: i64 = ((rectangle.size.width as i32) as i64) - 1;
                let end: i64 = (tl.x as i64) + span;
                if !(min <= span && span <= max && min <= end && end <= max) {
                    return false;
                }
                let corner = Point::new(end as i32, tl.y);
                self.can_rotate_point(corner, bounds)
            },
        }
    }

    fn inverse(&self) -> (r: Rotate) {
        match self {
            Rotate::Degrees90 => Rotate::Degrees270,
            Rotate::Degrees180 => Rotate::Degrees180,
            Rotate::Degrees270 => Rotate::Degrees90,
        }
    }

    fn rotate_size(&self, size: Size) -> (r: Size) {
        match self {
            Rotate::Degrees90 | Rotate::Degrees270 => Size::new(size.height, size.width),
            Rotate::Degrees180 => size,
        }
    }

    fn rotate_point(&self, point: Point, source_bounds: Size) -> (r: Point) {
        match self {
            Rotate::Degrees90 => Point::new(source_bounds.height as i32 - point.y - 1, point.x),
            Rotate::Degrees180 => Point::new(
                source_bounds.width as i32 - point.x - 1,
                source_bounds.height as i32 - point.y - 1,
            ),
            Rotate::Degrees270 => Point::new(point.y, source_bounds.width as i32 - point.x - 1),
        }
    }

    fn rotate_rectangle(&self, rectangle: Rectangle, source_bounds: Size) -> (r: Rectangle) {
        match self {
            Rotate::Degrees90 => {
                let old_bottom_left = Point::new(
                    rectangle.top_left.x,
                    rectangle.top_left.y + (rectangle.size.height as i32 - 1),
                );
                let new_top_left = self.rotate_point(old_bottom_left, source_bounds);
                Rectangle::new(new_top_left, self.rotate_size(rectangle.size))
            },
            Rotate::Degrees180 => {
                let w: i32 = rectangle.size.width as i32;
                let h: i32 = rectangle.size.height as i32;
                let old_bottom_right = Point::new(
                    rectangle.top_left.x + w - 1,
                    rectangle.top_left.y + h - 1,
                );
                let new_top_left = self.rotate_point(old_bottom_right, source_bounds);
                Rectangle::new(new_top_left, self.rotate_size(rectangle.size))
            },
            Rotate::Degrees270 => {
                let old_top_right = Point::new(
                    rectangle.top_left.x + (rectangle.size.width as i32 - 1),
                    rectangle.top_left.y,
                );
                let new_top_left = self.rotate_point(old_top_right, source_bounds);
                Rectangle::new(new_top_left, self.rotate_size(rectangle.size))
            },
        }
    }
}

/// Rotating twice by the inverse gets back to the start.
pub proof fn lemma_inverse_involution(r: Rotate)
    ensures
        r.spec_inverse().spec_inverse() == r,
{
}

/// The inverse rotation turns a rotated size back.
pub proof fn lemma_rotate_size_inverse(r: Rotate, size: Size)
    ensures
        r.spec_inverse().spec_rotate_size(r.spec_rotate_size(size)) == size,
{
}

/// The inverse rotation, within the rotated bounds, brings a rotated point back.
pub proof fn lemma_rotate_point_inverse(r: Rotate, p: Point, bounds: Size)
    requires
        bounds.width <= i32::MAX,
        bounds.height <= i32::MAX,
        r.point_in_range(p, bounds),
        r.spec_inverse().point_in_range(r.spec_rotate_point(p, bounds), r.spec_rotate_size(bounds)),
    ensures
        r.spec_inverse().spec_rotate_point(r.spec_rotate_point(p, bounds), r.spec_rotate_size(bounds))
            == p,
{
}

/// Rotation maps the points inside the source bounds onto the points inside the rotated
/// bounds, and the points outside onto points outside.
pub proof fn lemma_rotate_point_bounds(r: Rotate, p: Point, bounds: Size)
    requires
        bounds.width <= i32::MAX,
        bounds.height <= i32::MAX,
        r.point_in_range(p, bounds),
    ensures
        origin_rect(bounds).spec_contains(p) <==> origin_rect(r.spec_rotate_size(bounds)).spec_contains(
            r.spec_rotate_point(p, bounds),
        ),
{
}

/// Every point inside the source bounds can be rotated.
pub proof fn lemma_point_in_bounds_in_range(r: Rotate, p: Point, bounds: Size)
    requires
        bounds.width <= i32::MAX,
        bounds.height <= i32::MAX,
        origin_rect(bounds).spec_contains(p),
    ensures
        r.point_in_range(p, bounds),
{
}

/// Distinct points rotate to distinct points.
pub proof fn lemma_rotate_point_injective(r: Rotate, p: Point, q: Point, bounds: Size)
    requires
        r.point_in_range(p, bounds),
        r.point_in_range(q, bounds),
        r.spec_rotate_point(p, bounds) == r.spec_rotate_point(q, bounds),
    ensures
        p == q,
{
}

/// A rotated rectangle holds exactly the rotated points of the rectangle.
pub proof fn lemma_rotate_rectangle_points(r: Rotate, rect: Rectangle, p: Point, bounds: Size)
    requires
        bounds.width <= i32::MAX,
        bounds.height <= i32::MAX,
        rect.size.width <= i32::MAX,
        rect.size.height <= i32::MAX,
        r.rectangle_in_range(rect, bounds),
        r.point_in_range(p, bounds),
    ensures
        rect.spec_contains(p) <==> r.spec_rotate_rectangle(rect, bounds).spec_contains(
            r.spec_rotate_point(p, bounds),
        ),
{
}

/// Every point of a rotated rectangle is the rotation of a point of the rectangle.
pub proof fn lemma_rotate_rectangle_onto(r: Rotate, rect: Rectangle, q: Point, bounds: Size)
    requires
        bounds.width <= i32::MAX,
        bounds.height <= i32::MAX,
        rect.size.width <= i32::MAX,
        rect.size.height <= i32::MAX,
        r.rectangle_in_range(rect, bounds),
        r.spec_rotate_rectangle(rect, bounds).spec_contains(q),
    ensures
        exists|p: Point| rect.spec_contains(p) && r.spec_rotate_point(p, bounds) == q,
{
    let w = bounds.width as int;
    let h = bounds.height as int;
    let p = match r {
        Rotate::Degrees90 => Point { x: q.y, y: (h - q.x - 1) as i32 },
        Rotate::Degrees180 => Point { x: (w - q.x - 1) as i32, y: (h - q.y - 1) as i32 },
        Rotate::Degrees270 => Point { x: (w - q.y - 1) as i32, y: q.x },
    };
    assert(rect.spec_contains(p) && r.spec_rotate_point(p, bounds) == q);
}

/// The inverse rotation, within the rotated bounds, brings a rotated rectangle back.
pub proof fn lemma_rotate_rectangle_inverse(r: Rotate, rect: Rectangle, bounds: Size)
    requires
        bounds.width <= i32::MAX,
        bounds.height <= i32::MAX,
        rect.size.width <= i32::MAX,
        rect.size.height <= i32::MAX,
        r.rectangle_in_range(rect, bounds),
        r.spec_inverse().rectangle_in_range(
            r.spec_rotate_rectangle(rect, bounds),
            r.spec_rotate_size(bounds),
        ),
    ensures
        r.spec_inverse().spec_rotate_rectangle(
            r.spec_rotate_rectangle(rect, bounds),
            r.spec_rotate_size(bounds),
        ) == rect,
{
}

/// The rectangle at the origin with the given size.
pub open spec fn origin_rect(size: Size) -> Rectangle {
    Rectangle { top_left: Point { x: 0, y: 0 }, size }
}

/// A rectangle at the origin can be rotated within its own size, and stays at the origin.
pub proof fn lemma_rotate_origin_rect(r: Rotate, size: Size)
    requires
        size.width <= i32::MAX,
        size.height <= i32::MAX,
    ensures
        r.rectangle_in_range(origin_rect(size), size),
        r.spec_rotate_rectangle(origin_rect(size), size) == origin_rect(r.spec_rotate_size(size)),
{
}

/// The pixels with their points rotated.
pub open spec fn rotate_pixels<C, R: Rotation>(rotation: R, pixels: Seq<Pixel<C>>, bounds: Size) -> Seq<
    Pixel<C>,
> {
    pixels.map_values(|px: Pixel<C>| Pixel(rotation.spec_rotate_point(px.0, bounds), px.1))
}

/// Every pixel can be rotated.
pub open spec fn pixels_in_range<C, R: Rotation>(rotation: R, pixels: Seq<Pixel<C>>, bounds: Size) -> bool {
    forall|i: int| 0 <= i < pixels.len() ==> rotation.point_in_range(#[trigger] pixels[i].0, bounds)
}

/// Looking up a rotated point among rotated pixels finds the colour drawn at the point.
pub proof fn lemma_drawn_rotated<C>(r: Rotate, pixels: Seq<Pixel<C>>, p: Point, bounds: Size, old: C)
    requires
        pixels_in_range(r, pixels, bounds),
        r.point_in_range(p, bounds),
    ensures
        drawn_color(rotate_pixels(r, pixels, bounds), r.spec_rotate_point(p, bounds), old)
            == drawn_color(pixels, p, old),
    decreases pixels.len(),
{
    if pixels.len() > 0 {
        let rp = rotate_pixels(r, pixels, bounds);
        assert(rp.drop_last() =~= rotate_pixels(r, pixels.drop_last(), bounds));
        assert(pixels.last() == pixels[pixels.len() - 1]);
        if pixels.last().0 != p {
            if r.spec_rotate_point(pixels.last().0, bounds) == r.spec_rotate_point(p, bounds) {
                lemma_rotate_point_injective(r, pixels.last().0, p, bounds);
            }
        }
        lemma_drawn_rotated(r, pixels.drop_last(), p, bounds, old);
    }
}

/// Drawing through a quarter-turn rotation colours, at the rotated position in the inner
/// buffer, each point of the rotated bounds as drawing straight onto it would.
pub proof fn lemma_rotated_drawing<C>(
    r: Rotate,
    pixels: Seq<Pixel<C>>,
    inner_size: Size,
    p: Point,
    old: spec_fn(Point) -> C,
)
    requires
        inner_size.width <= i32::MAX,
        inner_size.height <= i32::MAX,
        pixels_in_range(r, pixels, r.spec_inverse().spec_rotate_size(inner_size)),
        origin_rect(r.spec_inverse().spec_rotate_size(inner_size)).spec_contains(p),
    ensures
        origin_rect(inner_size).spec_contains(
            r.spec_rotate_point(p, r.spec_inverse().spec_rotate_size(inner_size)),
        ),
        ({
            let outer = r.spec_inverse().spec_rotate_size(inner_size);
            let q = r.spec_rotate_point(p, outer);
            drawn_color(rotate_pixels(r, pixels, outer), q, old(q)) == drawn_color(
                pixels,
                p,
                old(q),
            )
        }),
{
    let outer = r.spec_inverse().spec_rotate_size(inner_size);
    lemma_point_in_bounds_in_range(r, p, outer);
    lemma_rotate_point_bounds(r, p, outer);
    let q = r.spec_rotate_point(p, outer);
    lemma_drawn_rotated(r, pixels, p, outer, old(q));
}

/// Enables arbitrarily rotating an underlying buffer. This is useful if the default display
/// orientation does not match the desired orientation of the content.
pub struct RotatedBuffer<B, R> {
    bounds: Rectangle,
    buffer: B,
    rotation: R,
}

impl<B: Canvas, R: Rotation> RotatedBuffer<B, R> {
    /// The area that drawing coordinates cover.
    pub closed spec fn spec_bounds(&self) -> Rectangle {
        self.bounds
    }

    /// The wrapped buffer.
    pub closed spec fn spec_inner(&self) -> B {
        self.buffer
    }

    /// The rotation applied to drawing coordinates.
    pub closed spec fn spec_rotation(&self) -> R {
        self.rotation
    }

    /// Wraps `buffer` so that drawing coordinates are rotated by `rotation`.
    pub fn new(buffer: B, rotation: R) -> (r: Self)
        requires
            rotation.spec_inverse().rectangle_in_range(
                buffer.spec_bounding_box(),
                buffer.spec_bounding_box().size,
            ),
        ensures
            r.spec_inner() == buffer,
            r.spec_rotation() == rotation,
            r.spec_bounds() == rotation.spec_inverse().spec_rotate_rectangle(
                buffer.spec_bounding_box(),
                buffer.spec_bounding_box().size,
            ),
    {
        let inverse_rotation = rotation.inverse();
        let inner_bounds = buffer.bounding_box();
        let bounds = inverse_rotation.rotate_rectangle(inner_bounds, inner_bounds.size);
        Self { bounds, buffer, rotation }
    }

    /// Returns whether a pixel at `point`, given in rotated coordinates, can be drawn: its
    /// rotation stays inside the `i32` range.
    pub fn can_draw(&self, point: Point) -> (r: bool)
        ensures
            r == self.spec_rotation().point_in_range(point, self.spec_bounds().size),
    {
        self.rotation.can_rotate_point(point, self.bounds.size)
    }

    /// Provides read-only access to the inner buffer.
    pub fn inner(&mut self) -> (r: &B)
        ensures
            *r == old(self).spec_inner(),
            *final(self) == *old(self),
    {
        &self.buffer
    }

    /// Drops this rotated buffer wrapper and takes out the inner buffer.
    pub fn take_inner(self) -> (r: B)
        ensures
            r == self.spec_inner(),
    {
        self.buffer
    }

    /// Returns the area that drawing coordinates cover.
    pub fn bounding_box(&self) -> (r: Rectangle)
        ensures
            r == self.spec_bounds(),
    {
        self.bounds
    }

    /// Draws the pixels in rotated coordinates onto the inner buffer.
    pub fn draw_iter(&mut self, pixels: &[Pixel<B::Color>]) -> (r: Result<(), B::Error>)
        requires
            old(self).spec_inner().valid(),
            pixels_in_range(old(self).spec_rotation(), pixels@, old(self).spec_bounds().size),
        ensures
            r is Ok,
            final(self).spec_inner().valid(),
            final(self).spec_bounds() == old(self).spec_bounds(),
            final(self).spec_rotation() == old(self).spec_rotation(),
            final(self).spec_inner().spec_bounding_box() == old(self).spec_inner().spec_bounding_box(),
            forall|q: Point|
                old(self).spec_inner().spec_bounding_box().spec_contains(q) ==> #[trigger] final(self).spec_inner().color_at(q) == drawn_color(
                    rotate_pixels(old(self).spec_rotation(), pixels@, old(self).spec_bounds().size),
                    q,
                    old(self).spec_inner().color_at(q),
                ),
    {
        let mut rotated_pixels: Vec<Pixel<B::Color>> = Vec::new();
        let mut i: usize = 0;
        while i < pixels.len()
            invariant
                i <= pixels.len(),
                pixels_in_range(self.rotation, pixels@, self.bounds.size),
                rotated_pixels@ =~= rotate_pixels(self.rotation, pixels@.take(i as int), self.bounds.size),
            decreases pixels.len() - i,
        {
            let Pixel(point, color) = pixels[i];
            let rotated_point = self.rotation.rotate_point(point, self.bounds.size);
            rotated_pixels.push(Pixel(rotated_point, color));
            assert(pixels@.take(i + 1) =~= pixels@.take(i as int).push(pixels@[i as int]));
            i = i + 1;
        }
        assert(pixels@.take(pixels.len() as int) =~= pixels@);
        self.buffer.draw_iter(rotated_pixels.as_slice())
    }

    /// Draws one pixel given in rotated coordinates onto the inner buffer.
    fn draw_one(&mut self, point: Point, color: B::Color) -> (r: Result<(), B::Error>)
        requires
            old(self).spec_inner().valid(),
            old(self).spec_rotation().point_in_range(point, old(self).spec_bounds().size),
        ensures
            r is Ok,
            final(self).spec_inner().valid(),
            final(self).spec_bounds() == old(self).spec_bounds(),
            final(self).spec_rotation() == old(self).spec_rotation(),
            final(self).spec_inner().spec_bounding_box() == old(self).spec_inner().spec_bounding_box(),
            forall|q: Point|
                old(self).spec_inner().spec_bounding_box().spec_contains(q) ==> #[trigger] final(self).spec_inner().color_at(q) == (if q == old(self).spec_rotation().spec_rotate_point(
                    point,
                    old(self).spec_bounds().size,
                ) {
                    color
                } else {
                    old(self).spec_inner().color_at(q)
                }),
    {
        let ghost prev = *self;
        let rotated_point = self.rotation.rotate_point(point, self.bounds.size);
        let one = [Pixel(rotated_point, color)];
        let r = self.buffer.draw_iter(&one);
        proof {
            let px = Pixel(rotated_point, color);
            assert(one@ =~= Seq::<Pixel<B::Color>>::empty().push(px));
            assert forall|q: Point|
                prev.spec_inner().spec_bounding_box().spec_contains(q) implies #[trigger] self.spec_inner().color_at(q)
                    == (if q == rotated_point {
                    color
                } else {
                    prev.spec_inner().color_at(q)
                }) by {
                lemma_drawn_color_push(Seq::<Pixel<B::Color>>::empty(), px, q, prev.spec_inner().color_at(q));
            }
        }
        r
    }

    /// Fills `area`, given in rotated coordinates, row by row with the colours in `colors`
    /// until they run out.
    #[verifier::loop_isolation(false)]
    pub fn fill_contiguous(&mut self, area: &Rectangle, colors: &[B::Color]) -> (r: Result<
        (),
        B::Error,
    >)
        requires
            old(self).spec_inner().valid(),
            area.fits(),
            pixels_in_range(
                old(self).spec_rotation(),
                contiguous_pixels(*area, colors@),
                old(self).spec_bounds().size,
            ),
        ensures
            r is Ok,
            final(self).spec_inner().valid(),
            final(self).spec_bounds() == old(self).spec_bounds(),
            final(self).spec_rotation() == old(self).spec_rotation(),
            final(self).spec_inner().spec_bounding_box() == old(self).spec_inner().spec_bounding_box(),
            forall|q: Point|
                old(self).spec_inner().spec_bounding_box().spec_contains(q) ==> #[trigger] final(self).spec_inner().color_at(q) == drawn_color(
                    rotate_pixels(
                        old(self).spec_rotation(),
                        contiguous_pixels(*area, colors@),
                        old(self).spec_bounds().size,
                    ),
                    q,
                    old(self).spec_inner().color_at(q),
                ),
    {
        let ghost start = *self;
        let ghost all = contiguous_pixels(*area, colors@);
        let ghost n = all.len() as int;
        let ghost w = area.size.width as int;
        if area.size.width == 0 || area.size.height == 0 {
            assert(area_len(*area) == 0) by (nonlinear_arith)
                requires
                    area.size.width == 0 || area.size.height == 0,
                    area_len(*area) == area.size.width * area.size.height,
            ;
            assert(all.len() == 0);
            return Ok(());
        }
        let y_end: i32 = area.top_left.y + area.size.height as i32;
        let x_end: i32 = area.top_left.x + area.size.width as i32;
        let mut k: usize = 0;
        let mut y: i32 = area.top_left.y;
        while y < y_end
            invariant
                self.spec_inner().valid(),
                self.spec_bounds() == start.spec_bounds(),
                self.spec_rotation() == start.spec_rotation(),
                self.spec_inner().spec_bounding_box() == start.spec_inner().spec_bounding_box(),
                area.top_left.y <= y <= y_end,
                k == (y - area.top_left.y) * w,
                k <= n,
                forall|q: Point|
                    start.spec_inner().spec_bounding_box().spec_contains(q) ==> #[trigger] self.spec_inner().color_at(q)
                        == drawn_color(
                        rotate_pixels(start.spec_rotation(), all.take(k as int), start.spec_bounds().size),
                        q,
                        start.spec_inner().color_at(q),
                    ),
            decreases y_end - y,
        {
            let mut x: i32 = area.top_left.x;
            while x < x_end
                invariant
                    self.spec_inner().valid(),
                    self.spec_bounds() == start.spec_bounds(),
                    self.spec_rotation() == start.spec_rotation(),
                    self.spec_inner().spec_bounding_box() == start.spec_inner().spec_bounding_box(),
                    area.top_left.y <= y < y_end,
                    area.top_left.x <= x <= x_end,
                    k == (y - area.top_left.y) * w + (x - area.top_left.x),
                    k <= n,
                    forall|q: Point|
                        start.spec_inner().spec_bounding_box().spec_contains(q) ==> #[trigger] self.spec_inner().color_at(q)
                            == drawn_color(
                            rotate_pixels(start.spec_rotation(), all.take(k as int), start.spec_bounds().size),
                            q,
                            start.spec_inner().color_at(q),
                        ),
                decreases x_end - x,
            {
                if k >= colors.len() {
                    assert(k == n);
                    assert(all.take(k as int) =~= all);
                    return Ok(());
                }
                proof {
                    assert(k < area_len(*area)) by (nonlinear_arith)
                        requires
                            k == (y - area.top_left.y) * w + (x - area.top_left.x),
                            area.top_left.y <= y < y_end,
                            y_end == area.top_left.y + area.size.height,
                            area.top_left.x <= x < x_end,
                            x_end == area.top_left.x + w,
                            area_len(*area) == w * area.size.height,
                    ;
                    vstd::arithmetic::div_mod::lemma_fundamental_div_mod_converse(
                        k as int,
                        w,
                        y - area.top_left.y,
                        x - area.top_left.x,
                    );
                    assert(all[k as int] == Pixel(Point { x, y }, colors@[k as int]));
                    assert(start.spec_rotation().point_in_range(all[k as int].0, start.spec_bounds().size));
                }
                let ghost prev = *self;
                self.draw_one(Point { x, y }, colors[k])?;
                proof {
                    let rp = rotate_pixels(start.spec_rotation(), all.take(k as int), start.spec_bounds().size);
                    assert(rotate_pixels(start.spec_rotation(), all.take(k + 1), start.spec_bounds().size)
                        =~= rp.push(Pixel(start.spec_rotation().spec_rotate_point(Point { x, y }, start.spec_bounds().size), colors@[k as int])));
                    assert forall|q: Point| start.spec_inner().spec_bounding_box().spec_contains(q) implies #[trigger] self.spec_inner().color_at(q)
                        == drawn_color(
                        rotate_pixels(start.spec_rotation(), all.take(k + 1), start.spec_bounds().size),
                        q,
                        start.spec_inner().color_at(q),
                    ) by {
                        lemma_drawn_color_push(rp, Pixel(start.spec_rotation().spec_rotate_point(Point { x, y }, start.spec_bounds().size), colors@[k as int]), q, start.spec_inner().color_at(q));
                        assert(prev.spec_inner().color_at(q) == drawn_color(rp, q, start.spec_inner().color_at(q)));
                    }
                }
                k = k + 1;
                x = x + 1;
            }
            proof {
                assert((y + 1 - area.top_left.y) * w == (y - area.top_left.y) * w + w) by (nonlinear_arith);
            }
            y = y + 1;
        }
        proof {
            assert(k == area_len(*area)) by (nonlinear_arith)
                requires
                    k == (y_end - area.top_left.y) * w,
                    y_end == area.top_left.y + area.size.height,
                    area_len(*area) == w * area.size.height,
            ;
            assert(all.take(k as int) =~= all);
        }
        Ok(())
    }

    /// Fills `area`, given in rotated coordinates, with `color`.
    #[verifier::loop_isolation(false)]
    pub fn fill_solid(&mut self, area: &Rectangle, color: B::Color) -> (r: Result<(), B::Error>)
        requires
            old(self).spec_inner().valid(),
            area.fits(),
            pixels_in_range(
                old(self).spec_rotation(),
                solid_pixels(*area, color),
                old(self).spec_bounds().size,
            ),
        ensures
            r is Ok,
            final(self).spec_inner().valid(),
            final(self).spec_bounds() == old(self).spec_bounds(),
            final(self).spec_rotation() == old(self).spec_rotation(),
            final(self).spec_inner().spec_bounding_box() == old(self).spec_inner().spec_bounding_box(),
            forall|q: Point|
                old(self).spec_inner().spec_bounding_box().spec_contains(q) ==> #[trigger] final(self).spec_inner().color_at(q) == drawn_color(
                    rotate_pixels(
                        old(self).spec_rotation(),
                        solid_pixels(*area, color),
                        old(self).spec_bounds().size,
                    ),
                    q,
                    old(self).spec_inner().color_at(q),
                ),
    {
        let ghost start = *self;
        let ghost all = solid_pixels(*area, color);
        let ghost n = all.len() as int;
        let ghost w = area.size.width as int;
        if area.size.width == 0 || area.size.height == 0 {
            assert(area_len(*area) == 0) by (nonlinear_arith)
                requires
                    area.size.width == 0 || area.size.height == 0,
                    area_len(*area) == area.size.width * area.size.height,
            ;
            assert(all.len() == 0);
            return Ok(());
        }
        let y_end: i32 = area.top_left.y + area.size.height as i32;
        let x_end: i32 = area.top_left.x + area.size.width as i32;
        let ghost mut k: int = 0;
        let mut y: i32 = area.top_left.y;
        while y < y_end
            invariant
                self.spec_inner().valid(),
                self.spec_bounds() == start.spec_bounds(),
                self.spec_rotation() == start.spec_rotation(),
                self.spec_inner().spec_bounding_box() == start.spec_inner().spec_bounding_box(),
                area.top_left.y <= y <= y_end,
                k == (y - area.top_left.y) * w,
                k <= n,
                forall|q: Point|
                    start.spec_inner().spec_bounding_box().spec_contains(q) ==> #[trigger] self.spec_inner().color_at(q)
                        == drawn_color(
                        rotate_pixels(start.spec_rotation(), all.take(k as int), start.spec_bounds().size),
                        q,
                        start.spec_inner().color_at(q),
                    ),
            decreases y_end - y,
        {
            let mut x: i32 = area.top_left.x;
            while x < x_end
                invariant
                    self.spec_inner().valid(),
                    self.spec_bounds() == start.spec_bounds(),
                    self.spec_rotation() == start.spec_rotation(),
                    self.spec_inner().spec_bounding_box() == start.spec_inner().spec_bounding_box(),
                    area.top_left.y <= y < y_end,
                    area.top_left.x <= x <= x_end,
                    k == (y - area.top_left.y) * w + (x - area.top_left.x),
                    k <= n,
                    forall|q: Point|
                        start.spec_inner().spec_bounding_box().spec_contains(q) ==> #[trigger] self.spec_inner().color_at(q)
                            == drawn_color(
                            rotate_pixels(start.spec_rotation(), all.take(k as int), start.spec_bounds().size),
                            q,
                            start.spec_inner().color_at(q),
                        ),
                decreases x_end - x,
            {
                proof {
                    assert(k < area_len(*area)) by (nonlinear_arith)
                        requires
                            k == (y - area.top_left.y) * w + (x - area.top_left.x),
                            area.top_left.y <= y < y_end,
                            y_end == area.top_left.y + area.size.height,
                            area.top_left.x <= x < x_end,
                            x_end == area.top_left.x + w,
                            area_len(*area) == w * area.size.height,
                    ;
                    vstd::arithmetic::div_mod::lemma_fundamental_div_mod_converse(
                        k as int,
                        w,
                        y - area.top_left.y,
                        x - area.top_left.x,
                    );
                    assert(all[k as int] == Pixel(Point { x, y }, color));
                    assert(start.spec_rotation().point_in_range(all[k as int].0, start.spec_bounds().size));
                }
                let ghost prev = *self;
                self.draw_one(Point { x, y }, color)?;
                proof {
                    let rp = rotate_pixels(start.spec_rotation(), all.take(k as int), start.spec_bounds().size);
                    assert(rotate_pixels(start.spec_rotation(), all.take(k as int + 1), start.spec_bounds().size)
                        =~= rp.push(Pixel(start.spec_rotation().spec_rotate_point(Point { x, y }, start.spec_bounds().size), color)));
                    assert forall|q: Point| start.spec_inner().spec_bounding_box().spec_contains(q) implies #[trigger] self.spec_inner().color_at(q)
                        == drawn_color(
                        rotate_pixels(start.spec_rotation(), all.take(k as int + 1), start.spec_bounds().size),
                        q,
                        start.spec_inner().color_at(q),
                    ) by {
                        lemma_drawn_color_push(rp, Pixel(start.spec_rotation().spec_rotate_point(Point { x, y }, start.spec_bounds().size), color), q, start.spec_inner().color_at(q));
                        assert(prev.spec_inner().color_at(q) == drawn_color(rp, q, start.spec_inner().color_at(q)));
                    }
                }
                proof {
                    k = k + 1;
                }
                x = x + 1;
            }
            proof {
                assert((y + 1 - area.top_left.y) * w == (y - area.top_left.y) * w + w) by (nonlinear_arith);
            }
            y = y + 1;
        }
        proof {
            assert(k == area_len(*area)) by (nonlinear_arith)
                requires
                    k == (y_end - area.top_left.y) * w,
                    y_end == area.top_left.y + area.size.height,
                    area_len(*area) == w * area.size.height,
            ;
            assert(all.take(k as int) =~= all);
        }
        Ok(())
    }
}

} // verus!

//! What it means to draw pixels onto a target.
use crate::geometry::{Pixel, Point, Rectangle};
use vstd::prelude::*;

verus! {

/// The colour that point `p` has after drawing `pixels` in order over a target where it had
/// colour `old`: the colour of the last pixel drawn at `p`, or `old` if none was.
pub open spec fn drawn_color<C>(pixels: Seq<Pixel<C>>, p: Point, old: C) -> C
    decreases pixels.len(),
{
    if pixels.len() == 0 {
        old
    } else if pixels.last().0 == p {
        pixels.last().1
    } else {
        drawn_color(pixels.drop_last(), p, old)
    }
}

/// Drawing `a` and then `b` is drawing `a` followed by `b` in one go.
pub proof fn lemma_drawn_color_append<C>(a: Seq<Pixel<C>>, b: Seq<Pixel<C>>, p: Point, old: C)
    ensures
        drawn_color(a + b, p, old) == drawn_color(b, p, drawn_color(a, p, old)),
    decreases b.len(),
{
    if b.len() == 0 {
        assert(a + b =~= a);
    } else {
        assert((a + b).drop_last() =~= a + b.drop_last());
        lemma_drawn_color_append(a, b.drop_last(), p, old);
    }
}

/// Drawing one more pixel.
pub proof fn lemma_drawn_color_push<C>(a: Seq<Pixel<C>>, px: Pixel<C>, p: Point, old: C)
    ensures
        drawn_color(a.push(px), p, old) == (if px.0 == p {
            px.1
        } else {
            drawn_color(a, p, old)
        }),
{
    assert(a.push(px).drop_last() =~= a);
}

/// If no pixel lands on `p`, drawing leaves its colour alone.
pub proof fn lemma_drawn_color_missing<C>(pixels: Seq<Pixel<C>>, p: Point, old: C)
    requires
        forall|i: int| 0 <= i < pixels.len() ==> (#[trigger] pixels[i]).0 != p,
    ensures
        drawn_color(pixels, p, old) == old,
    decreases pixels.len(),
{
    if pixels.len() > 0 {
        assert(pixels.last() == pixels[pixels.len() - 1]);
        lemma_drawn_color_missing(pixels.drop_last(), p, old);
    }
}

/// Drawing maps through any colour conversion `f` applied to every pixel.
pub proof fn lemma_drawn_color_map<C, D>(pixels: Seq<Pixel<C>>, f: spec_fn(C) -> D, p: Point, old: C)
    ensures
        drawn_color(pixels.map_values(|px: Pixel<C>| Pixel(px.0, f(px.1))), p, f(old)) == f(
            drawn_color(pixels, p, old),
        ),
    decreases pixels.len(),
{
    let m = pixels.map_values(|px: Pixel<C>| Pixel(px.0, f(px.1)));
    if pixels.len() > 0 {
        assert(m.drop_last() =~= pixels.drop_last().map_values(
            |px: Pixel<C>| Pixel(px.0, f(px.1)),
        ));
        lemma_drawn_color_map(pixels.drop_last(), f, p, old);
    }
}

/// The position of `p` when the points of `area` are listed row by row.
pub open spec fn area_index(area: Rectangle, p: Point) -> int {
    (p.y - area.top_left.y) * area.size.width + (p.x - area.top_left.x)
}

/// The colour of `p` after the points of `area`, listed row by row, are given the colours
/// in `colors` until the colours run out.
pub open spec fn contiguous_color<C>(area: Rectangle, colors: Seq<C>, p: Point, old: C) -> C {
    if area.spec_contains(p) && area_index(area, p) < colors.len() {
        colors[area_index(area, p)]
    } else {
        old
    }
}

/// The colour of `p` after `area` is filled with `color`.
pub open spec fn solid_color<C>(area: Rectangle, color: C, p: Point, old: C) -> C {
    if area.spec_contains(p) {
        color
    } else {
        old
    }
}

/// The `k`-th point of `area` when its points are listed row by row.
pub open spec fn area_point(area: Rectangle, k: int) -> Point {
    Point {
        x: (area.top_left.x + k % (area.size.width as int)) as i32,
        y: (area.top_left.y + k / (area.size.width as int)) as i32,
    }
}

/// The number of points of `area`.
pub open spec fn area_len(area: Rectangle) -> int {
    area.size.width * area.size.height
}

/// The points of `area` listed row by row, paired with `colors` until either runs out.
pub open spec fn contiguous_pixels<C>(area: Rectangle, colors: Seq<C>) -> Seq<Pixel<C>> {
    let n = if area_len(area) <= colors.len() {
        area_len(area)
    } else {
        colors.len() as int
    };
    Seq::new(n as nat, |k: int| Pixel(area_point(area, k), colors[k]))
}

/// The points of `area` listed row by row, all with colour `color`.
pub open spec fn solid_pixels<C>(area: Rectangle, color: C) -> Seq<Pixel<C>> {
    Seq::new(area_len(area) as nat, |k: int| Pixel(area_point(area, k), color))
}

/// The point of `area` at row-major position `k` is the one with that index.
pub proof fn lemma_area_point(area: Rectangle, k: int)
    requires
        area.fits(),
        0 <= k < area_len(area),
    ensures
        area.spec_contains(area_point(area, k)),
        area_index(area, area_point(area, k)) == k,
{
    let w = area.size.width as int;
    let h = area.size.height as int;
    assert(w > 0) by (nonlinear_arith)
        requires
            0 <= k < w * h,
            h >= 0,
    ;
    vstd::arithmetic::div_mod::lemma_fundamental_div_mod(k, w);
    let q = k / w;
    let r = k % w;
    assert(q < h) by (nonlinear_arith)
        requires
            0 <= k < w * h,
            k == w * q + r,
            0 <= r < w,
    ;
    assert(0 <= q) by (nonlinear_arith)
        requires
            0 <= k,
            k == w * q + r,
            r < w,
            w > 0,
    ;
    assert(w * q == q * w) by (nonlinear_arith);
}

/// The point of `area` at row-major position `area_index(area, p)` is `p`.
pub proof fn lemma_area_index(area: Rectangle, p: Point)
    requires
        area.fits(),
        area.spec_contains(p),
    ensures
        0 <= area_index(area, p) < area_len(area),
        area_point(area, area_index(area, p)) == p,
{
    let w = area.size.width as int;
    let h = area.size.height as int;
    let q = p.y - area.top_left.y;
    let r = p.x - area.top_left.x;
    vstd::arithmetic::div_mod::lemma_fundamental_div_mod_converse(area_index(area, p), w, q, r);
    assert(q * w + r < w * h) by (nonlinear_arith)
        requires
            0 <= q < h,
            0 <= r < w,
    ;
    assert(0 <= q * w) by (nonlinear_arith)
        requires
            0 <= q,
            0 <= w,
    ;
}

/// The colour of the single pixel drawn at `p`, when exactly one is.
proof fn lemma_drawn_color_unique<C>(pixels: Seq<Pixel<C>>, k: int, p: Point, old: C)
    requires
        0 <= k < pixels.len(),
        pixels[k].0 == p,
        forall|j: int| 0 <= j < pixels.len() && j != k ==> (#[trigger] pixels[j]).0 != p,
    ensures
        drawn_color(pixels, p, old) == pixels[k].1,
    decreases pixels.len(),
{
    if k == pixels.len() - 1 {
    } else {
        assert(pixels.last() == pixels[pixels.len() - 1]);
        assert forall|j: int| 0 <= j < pixels.drop_last().len() && j != k implies (
        #[trigger] pixels.drop_last()[j]).0 != p by {
            assert(pixels.drop_last()[j] == pixels[j]);
        }
        lemma_drawn_color_unique(pixels.drop_last(), k, p, old);
    }
}

/// Drawing the points of `area` zipped with `colors` gives each point of the area its own
/// colour, as long as the colours last.
pub proof fn lemma_contiguous_pixels<C>(area: Rectangle, colors: Seq<C>, p: Point, old: C)
    requires
        area.fits(),
    ensures
        drawn_color(contiguous_pixels(area, colors), p, old) == contiguous_color(
            area,
            colors,
            p,
            old,
        ),
{
    let px = contiguous_pixels(area, colors);
    assert forall|j: int| 0 <= j < px.len() implies area.spec_contains((#[trigger] px[j]).0)
        && area_index(area, px[j].0) == j by {
        lemma_area_point(area, j);
    }
    if area.spec_contains(p) && area_index(area, p) < colors.len() {
        lemma_area_index(area, p);
        let k = area_index(area, p);
        lemma_drawn_color_unique(px, k, p, old);
    } else {
        if area.spec_contains(p) {
            lemma_area_index(area, p);
        }
        lemma_drawn_color_missing(px, p, old);
    }
}

/// Drawing the points of `area`, all with `color`, fills the area.
pub proof fn lemma_solid_pixels<C>(area: Rectangle, color: C, p: Point, old: C)
    requires
        area.fits(),
    ensures
        drawn_color(solid_pixels(area, color), p, old) == solid_color(area, color, p, old),
{
    let px = solid_pixels(area, color);
    assert forall|j: int| 0 <= j < px.len() implies area.spec_contains((#[trigger] px[j]).0)
        && area_index(area, px[j].0) == j by {
        lemma_area_point(area, j);
    }
    if area.spec_contains(p) {
        lemma_area_index(area, p);
        lemma_drawn_color_unique(px, area_index(area, p), p, old);
    } else {
        lemma_drawn_color_missing(px, p, old);
    }
}

/// A buffer that pixels can be drawn onto.
pub trait Canvas: Sized {
    type Color: Copy;

    type Error;

    /// The buffer is in a usable state.
    spec fn valid(&self) -> bool;

    /// The area that the buffer covers.
    spec fn spec_bounding_box(&self) -> Rectangle;

    /// The colour of a point inside the bounding box.
    spec fn color_at(&self, p: Point) -> Self::Color;

    /// Returns the area that the buffer covers.
    fn bounding_box(&self) -> (r: Rectangle)
        ensures
            r == self.spec_bounding_box(),
    ;

    /// Draws the pixels in order; pixels outside the bounding box are skipped. Drawing never
    /// fails.
    fn draw_iter(&mut self, pixels: &[Pixel<Self::Color>]) -> (r: Result<(), Self::Error>)
        requires
            old(self).valid(),
        ensures
            r is Ok,
            final(self).valid(),
            final(self).spec_bounding_box() == old(self).spec_bounding_box(),
            forall|p: Point|
                old(self).spec_bounding_box().spec_contains(p) ==> #[trigger] final(self).color_at(p)
                    == drawn_color(pixels@, p, old(self).color_at(p)),
    ;
}

} // verus!

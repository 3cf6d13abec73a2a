//! Compact framebuffers that pack pixels into bytes.
//!
//! A [BinaryBuffer] stores one bit per pixel, row by row; each byte holds eight pixels with
//! the leftmost pixel in the most significant bit.
use crate::canvas::{area_index, contiguous_color, drawn_color, solid_color, Canvas};
use crate::canvas::{lemma_drawn_color_append, lemma_drawn_color_map, lemma_drawn_color_push};
use crate::geometry::{intersection, overlap, BinaryColor, Gray2, Pixel, Point, Rectangle, Size};
use core::convert::Infallible;
use vstd::prelude::*;

verus! {

broadcast use crate::geometry::group_gray2;

/// The bytes of one frame of a [BufferView].
pub open spec fn frame_bytes(frame: &[u8]) -> Seq<u8> {
    frame@
}

/// Provides a view into a display buffer's data. This buffer is encoded into a set number of
/// frames and bits per pixel.
pub trait BufferView<const BITS: usize, const FRAMES: usize> {
    /// The display window covered by this buffer.
    spec fn spec_window(&self) -> Rectangle;

    /// The bytes of frame `i`.
    spec fn frame(&self, i: int) -> Seq<u8>;

    /// Returns the display window covered by this buffer.
    fn window(&self) -> (r: Rectangle)
        ensures
            r == self.spec_window(),
    ;

    /// Returns the data to be written to this window.
    fn data(&self) -> (r: [&[u8]; FRAMES])
        ensures
            forall|i: int| 0 <= i < FRAMES ==> #[trigger] frame_bytes(r@[i]) == self.frame(i),
    ;
}

/// The bit of byte `b` that holds the pixel at column `k` (0 = most significant bit).
pub open spec fn bit_on(b: u8, k: u8) -> bool {
    b & (0x80u8 >> k) != 0
}

/// Pixel column `k` of a byte is bit `7 - k`: the leftmost pixel is the most significant bit.
pub proof fn lemma_bit_on_msb_first(b: u8, k: u8)
    requires
        k < 8,
    ensures
        bit_on(b, k) <==> (b >> (7 - k) as u8) & 1 == 1,
{
    assert(b & (0x80u8 >> k) != 0 <==> (b >> (7 - k) as u8) & 1 == 1) by (bit_vector)
        requires
            k < 8,
    ;
}

/// The colour held by a bit.
pub open spec fn color_of(on: bool) -> BinaryColor {
    if on {
        BinaryColor::On
    } else {
        BinaryColor::Off
    }
}

/// The byte `b` with the bit of column `k` set to `on`.
pub open spec fn with_bit(b: u8, k: u8, on: bool) -> u8 {
    if on {
        b | (0x80u8 >> k)
    } else {
        b & !(0x80u8 >> k)
    }
}

proof fn lemma_with_bit(b: u8, k: u8, j: u8, on: bool)
    requires
        k < 8,
        j < 8,
    ensures
        bit_on(with_bit(b, k, on), j) == (if j == k {
            on
        } else {
            bit_on(b, j)
        }),
{
    if on {
        assert(bit_on(b | (0x80u8 >> k), j) == (j == k || bit_on(b, j))) by (bit_vector)
            requires
                k < 8,
                j < 8,
        ;
    } else {
        assert(bit_on(b & !(0x80u8 >> k), j) == (j != k && bit_on(b, j))) by (bit_vector)
            requires
                k < 8,
                j < 8,
        ;
    }
}

proof fn lemma_full_byte(j: u8)
    requires
        j < 8,
    ensures
        bit_on(0xFFu8, j),
        !bit_on(0u8, j),
{
    assert(bit_on(0xFFu8, j) && !bit_on(0u8, j)) by (bit_vector)
        requires
            j < 8,
    ;
}

/// Two bytes with the same eight bits are equal.
proof fn lemma_byte_from_bits(a: u8, b: u8)
    requires
        forall|j: u8| j < 8 ==> bit_on(a, j) == bit_on(b, j),
    ensures
        a == b,
{
    assert(bit_on(a, 0) == bit_on(b, 0));
    assert(bit_on(a, 1) == bit_on(b, 1));
    assert(bit_on(a, 2) == bit_on(b, 2));
    assert(bit_on(a, 3) == bit_on(b, 3));
    assert(bit_on(a, 4) == bit_on(b, 4));
    assert(bit_on(a, 5) == bit_on(b, 5));
    assert(bit_on(a, 6) == bit_on(b, 6));
    assert(bit_on(a, 7) == bit_on(b, 7));
    assert(a == b) by (bit_vector)
        requires
            bit_on(a, 0) == bit_on(b, 0),
            bit_on(a, 1) == bit_on(b, 1),
            bit_on(a, 2) == bit_on(b, 2),
            bit_on(a, 3) == bit_on(b, 3),
            bit_on(a, 4) == bit_on(b, 4),
            bit_on(a, 5) == bit_on(b, 5),
            bit_on(a, 6) == bit_on(b, 6),
            bit_on(a, 7) == bit_on(b, 7),
    ;
}

/// Row `y` and byte column `c` name one byte, and a byte names one row and column.
proof fn lemma_row_index(y1: int, c1: int, y2: int, c2: int, bpr: int)
    requires
        0 <= c1 < bpr,
        0 <= c2 < bpr,
        0 <= y1,
        0 <= y2,
        y1 * bpr + c1 == y2 * bpr + c2,
    ensures
        y1 == y2,
        c1 == c2,
{
    if y1 < y2 {
        assert(y1 * bpr + bpr <= y2 * bpr) by (nonlinear_arith)
            requires
                y1 < y2,
                bpr > 0,
        ;
    } else if y2 < y1 {
        assert(y2 * bpr + bpr <= y1 * bpr) by (nonlinear_arith)
            requires
                y2 < y1,
                bpr > 0,
        ;
    }
}

proof fn lemma_row_bound(y: int, c: int, bpr: int, h: int)
    requires
        0 <= c < bpr,
        0 <= y < h,
    ensures
        0 <= y * bpr + c < bpr * h,
        0 <= y * bpr,
{
    assert(y * bpr + bpr <= bpr * h) by (nonlinear_arith)
        requires
            y < h,
            bpr > 0,
    ;
    assert(0 <= y * bpr) by (nonlinear_arith)
        requires
            y >= 0,
            bpr > 0,
    ;
}

proof fn lemma_mul_le(a: int, b: int, c: int)
    requires
        0 <= a <= b,
        0 <= c,
    ensures
        0 <= a * c <= b * c,
{
    assert(0 <= a * c <= b * c) by (nonlinear_arith)
        requires
            0 <= a <= b,
            0 <= c,
    ;
}

/// Positions in row-major order grow with the row.
proof fn lemma_row_major(i1: int, j1: int, i2: int, j2: int, w: int)
    requires
        0 <= j1 < w,
        0 <= j2,
        0 <= i1 < i2,
    ensures
        i1 * w + j1 < i2 * w + j2,
        i1 * w + w <= i2 * w,
{
    assert(i1 * w + w <= i2 * w) by (nonlinear_arith)
        requires
            i1 < i2,
            w > 0,
    ;
}

/// A column left of a byte-aligned width lies in an earlier byte.
proof fn lemma_div8(x: int, w: int)
    requires
        0 <= x < w,
        w % 8 == 0,
    ensures
        x / 8 < w / 8,
{
}

/// The larger of two coordinates.
fn max_i32(a: i32, b: i32) -> (r: i32)
    ensures
        r == crate::geometry::max_int(a as int, b as int),
{
    if a >= b {
        a
    } else {
        b
    }
}

/// The smaller of two coordinates.
fn min_i32(a: i32, b: i32) -> (r: i32)
    ensures
        r == crate::geometry::min_int(a as int, b as int),
{
    if a <= b {
        a
    } else {
        b
    }
}

/// Computes the number of bytes a [BinaryBuffer] of the given dimensions holds.
pub open spec fn spec_binary_buffer_length(size: Size) -> int {
    (size.width / 8) * size.height
}

/// Computes the correct size for the binary buffer based on the given dimensions.
pub fn binary_buffer_length(size: Size) -> (r: usize)
    requires
        spec_binary_buffer_length(size) <= usize::MAX,
    ensures
        r == spec_binary_buffer_length(size),
{
    let w: usize = (size.width / 8) as usize;
    let h: usize = size.height as usize;
    w * h
}

/// A compact buffer for storing binary coloured display data.
///
/// This buffer packs the data such that each byte represents 8 pixels.
#[derive(Clone)]
pub struct BinaryBuffer<const L: usize> {
    size: Size,
    bytes_per_row: usize,
    // Data rounds the length of each row up to the next whole byte.
    data: Vec<u8>,
}

impl<const L: usize> BinaryBuffer<L> {
    /// The dimensions of the buffer.
    pub closed spec fn spec_size(&self) -> Size {
        self.size
    }

    /// The number of bytes in each row.
    pub closed spec fn row_len(&self) -> int {
        self.bytes_per_row as int
    }

    /// The packed pixel data.
    pub closed spec fn bytes(&self) -> Seq<u8> {
        self.data@
    }

    /// The buffer's fields agree with its dimensions.
    pub open spec fn wf(&self) -> bool {
        &&& self.spec_size().width % 8 == 0
        &&& self.row_len() == self.spec_size().width / 8
        &&& self.bytes().len() == self.row_len() * self.spec_size().height
        &&& self.bytes().len() == L
    }

    /// The index of the byte that holds the pixel at `(x, y)`.
    pub open spec fn byte_index(&self, x: int, y: int) -> int {
        y * self.row_len() + x / 8
    }

    /// The pixel at `(x, y)` is on.
    pub open spec fn pixel_on(&self, x: int, y: int) -> bool {
        bit_on(self.bytes()[self.byte_index(x, y)], (x % 8) as u8)
    }

    /// The point lies on the buffer.
    pub open spec fn in_bounds(&self, p: Point) -> bool {
        0 <= p.x < self.spec_size().width && 0 <= p.y < self.spec_size().height
    }

    /// Creates a new [BinaryBuffer] with all pixels set to `BinaryColor::Off`.
    ///
    /// The dimensions must match the buffer length `L`, and the width must be a multiple of 8.
    pub fn new(dimensions: Size) -> (r: BinaryBuffer<L>)
        requires
            dimensions.width % 8 == 0,
            spec_binary_buffer_length(dimensions) == L,
        ensures
            r.wf(),
            r.spec_size() == dimensions,
            r.bytes() =~= Seq::new(spec_binary_buffer_length(dimensions) as nat, |i: int| 0u8),
            forall|p: Point| r.in_bounds(p) ==> #[trigger] r.color_at(p) == BinaryColor::Off,
    {
        let len: usize = binary_buffer_length(dimensions);
        let mut data: Vec<u8> = Vec::with_capacity(len);
        let mut i: usize = 0;
        while i < len
            invariant
                i <= len,
                data@ =~= Seq::new(i as nat, |k: int| 0u8),
            decreases len - i,
        {
            data.push(0u8);
            i = i + 1;
        }
        let r = BinaryBuffer::<L> { bytes_per_row: (dimensions.width / 8) as usize, size: dimensions, data };
        assert forall|p: Point| r.in_bounds(p) implies #[trigger] r.color_at(p) == BinaryColor::Off by {
            lemma_row_bound(p.y as int, p.x / 8, r.row_len(), dimensions.height as int);
            lemma_full_byte((p.x % 8) as u8);
        }
        r
    }

    /// Access the packed buffer data.
    pub fn data(&self) -> (r: &[u8])
        ensures
            r@ == self.bytes(),
    {
        self.data.as_slice()
    }

    /// Sets one bit of the data.
    fn set_bit(&mut self, byte_index: usize, bit_index: u8, on: bool)
        requires
            old(self).wf(),
            byte_index < old(self).bytes().len(),
            bit_index < 8,
        ensures
            final(self).wf(),
            final(self).spec_size() == old(self).spec_size(),
            final(self).bytes() == old(self).bytes().update(
                byte_index as int,
                with_bit(old(self).bytes()[byte_index as int], bit_index, on),
            ),
    {
        let b: u8 = self.data[byte_index];
        if on {
            self.data.set(byte_index, b | (0x80u8 >> bit_index));
        } else {
            self.data.set(byte_index, b & !(0x80u8 >> bit_index));
        }
    }

    /// Sets a whole byte of the data.
    fn set_byte(&mut self, byte_index: usize, value: u8)
        requires
            old(self).wf(),
            byte_index < old(self).bytes().len(),
        ensures
            final(self).wf(),
            final(self).spec_size() == old(self).spec_size(),
            final(self).bytes() == old(self).bytes().update(byte_index as int, value),
    {
        self.data.set(byte_index, value);
    }

    /// After one bit of the pixel at `p` changed, that pixel alone changed colour.
    proof fn lemma_set_pixel(old_buf: BinaryBuffer<L>, new_buf: BinaryBuffer<L>, p: Point, on: bool)
        requires
            old_buf.wf(),
            new_buf.wf(),
            new_buf.spec_size() == old_buf.spec_size(),
            old_buf.in_bounds(p),
            new_buf.bytes() == old_buf.bytes().update(
                old_buf.byte_index(p.x as int, p.y as int),
                with_bit(
                    old_buf.bytes()[old_buf.byte_index(p.x as int, p.y as int)],
                    (p.x % 8) as u8,
                    on,
                ),
            ),
        ensures
            forall|q: Point|
                old_buf.in_bounds(q) ==> #[trigger] new_buf.color_at(q) == (if q == p {
                    color_of(on)
                } else {
                    old_buf.color_at(q)
                }),
    {
        let bpr = old_buf.row_len();
        let h = old_buf.spec_size().height as int;
        lemma_row_bound(p.y as int, p.x / 8, bpr, h);
        assert forall|q: Point| old_buf.in_bounds(q) implies #[trigger] new_buf.color_at(q) == (
        if q == p {
            color_of(on)
        } else {
            old_buf.color_at(q)
        }) by {
            lemma_row_bound(q.y as int, q.x / 8, bpr, h);
            let qi = old_buf.byte_index(q.x as int, q.y as int);
            let pi = old_buf.byte_index(p.x as int, p.y as int);
            lemma_with_bit(old_buf.bytes()[pi], (p.x % 8) as u8, (q.x % 8) as u8, on);
            if qi == pi {
                lemma_row_index(q.y as int, q.x / 8, p.y as int, p.x / 8, bpr);
            }
        }
    }

    /// After byte `c` of row `y` was filled, the eight pixels it holds changed colour.
    proof fn lemma_set_byte(old_buf: BinaryBuffer<L>, new_buf: BinaryBuffer<L>, c: int, y: int, on: bool)
        requires
            old_buf.wf(),
            new_buf.wf(),
            new_buf.spec_size() == old_buf.spec_size(),
            0 <= c < old_buf.row_len(),
            0 <= y < old_buf.spec_size().height,
            new_buf.bytes() == old_buf.bytes().update(
                y * old_buf.row_len() + c,
                if on {
                    0xFFu8
                } else {
                    0u8
                },
            ),
        ensures
            forall|q: Point|
                old_buf.in_bounds(q) ==> #[trigger] new_buf.color_at(q) == (if q.x / 8 == c && q.y
                    == y {
                    color_of(on)
                } else {
                    old_buf.color_at(q)
                }),
    {
        let bpr = old_buf.row_len();
        let h = old_buf.spec_size().height as int;
        lemma_row_bound(y, c, bpr, h);
        assert forall|q: Point| old_buf.in_bounds(q) implies #[trigger] new_buf.color_at(q) == (
        if q.x / 8 == c && q.y == y {
            color_of(on)
        } else {
            old_buf.color_at(q)
        }) by {
            lemma_row_bound(q.y as int, q.x / 8, bpr, h);
            lemma_full_byte((q.x % 8) as u8);
            if old_buf.byte_index(q.x as int, q.y as int) == y * bpr + c {
                lemma_row_index(q.y as int, q.x / 8, y, c, bpr);
            }
        }
    }

    /// Buffers of one shape whose pixels agree hold the same bytes. Every pixel has a point
    /// only while the dimensions stay within the `i32` range.
    pub proof fn lemma_pixels_determine_bytes(a: BinaryBuffer<L>, b: BinaryBuffer<L>)
        requires
            a.wf(),
            b.wf(),
            a.spec_size().width <= i32::MAX,
            a.spec_size().height <= i32::MAX,
            a.spec_size() == b.spec_size(),
            forall|p: Point| a.in_bounds(p) ==> #[trigger] a.color_at(p) == b.color_at(p),
        ensures
            a.bytes() == b.bytes(),
    {
        let bpr = a.row_len();
        let h = a.spec_size().height as int;
        assert forall|i: int| 0 <= i < a.bytes().len() implies a.bytes()[i] == b.bytes()[i] by {
            let y = i / bpr;
            let c = i % bpr;
            assert(i == y * bpr + c) by (nonlinear_arith)
                requires
                    bpr > 0,
                    y == i / bpr,
                    c == i % bpr,
            ;
            assert(y < h) by (nonlinear_arith)
                requires
                    bpr > 0,
                    y == i / bpr,
                    0 <= i < bpr * h,
            ;
            assert forall|j: u8| j < 8 implies bit_on(a.bytes()[i], j) == bit_on(b.bytes()[i], j) by {
                let p = Point { x: (8 * c + j) as i32, y: y as i32 };
                assert(a.in_bounds(p));
                assert(a.color_at(p) == b.color_at(p));
                assert(p.x / 8 == c && p.x % 8 == j);
            }
            lemma_byte_from_bits(a.bytes()[i], b.bytes()[i]);
        }
        assert(a.bytes() =~= b.bytes());
    }

    /// Fills `area` row by row with the colours in `colors`, skipping the pixels outside the
    /// buffer; filling stops when the colours run out.
    #[verifier::loop_isolation(false)]
    pub fn fill_contiguous(&mut self, area: &Rectangle, colors: &[BinaryColor]) -> (r: Result<
        (),
        Infallible,
    >)
        requires
            old(self).wf(),
            old(self).spec_bounding_box().fits(),
            area.fits(),
        ensures
            r is Ok,
            final(self).wf(),
            final(self).spec_size() == old(self).spec_size(),
            forall|p: Point|
                old(self).in_bounds(p) ==> #[trigger] final(self).color_at(p) == contiguous_color(
                    *area,
                    colors@,
                    p,
                    old(self).color_at(p),
                ),
    {
        let ghost old_buf = *self;
        let drawable_area = intersection(&self.bounding_box(), area);
        if drawable_area.size.width == 0 || drawable_area.size.height == 0 {
            // Nothing to fill
            assert forall|p: Point| old_buf.in_bounds(p) implies #[trigger] self.color_at(p)
                == contiguous_color(*area, colors@, p, old_buf.color_at(p)) by {
                if area.spec_contains(p) {
                    assert(overlap(old_buf.spec_bounding_box(), *area));
                }
            }
            return Ok(());
        }
        let width: i32 = self.size.width as i32;
        let height: i32 = self.size.height as i32;
        let bpr: usize = self.bytes_per_row;
        let y_start: i32 = area.top_left.y;
        let y_end: i32 = area.top_left.y + area.size.height as i32;
        let x_start: i32 = area.top_left.x;
        let x_end: i32 = area.top_left.x + area.size.width as i32;
        let area_width: u64 = area.size.width as u64;
        let ghost aw = area.size.width as int;
        let ghost ah = area.size.height as int;

        // `position` is the index of the colour for the next point of the area.
        let mut position: u64 = 0;
        proof {
            lemma_mul_le(crate::geometry::max_int(y_start as int, 0), height as int, bpr as int);
            assert((height as int) * (bpr as int) == (bpr as int) * (height as int))
                by (nonlinear_arith);
            lemma_mul_le(ah, 0x8000_0000, aw);
            lemma_mul_le(aw, 0x8000_0000, 0x8000_0000);
        }
        let mut byte_index: usize = (max_i32(y_start, 0) as usize) * bpr;
        let row_start_byte_offset: usize = (max_i32(x_start, 0) as usize) / 8;
        let row_end_byte_offset: usize = bpr - (min_i32(x_end, width) as usize / 8);
        let mut y: i32 = y_start;
        while y < y_end
            invariant
                self.wf(),
                self.spec_size() == old_buf.spec_size(),
                y_start <= y <= y_end,
                position == (y - y_start) * aw,
                y <= height ==> byte_index == crate::geometry::max_int(y as int, 0) * bpr,
                forall|q: Point|
                    old_buf.in_bounds(q) ==> #[trigger] self.color_at(q) == (if q.y < y {
                        contiguous_color(*area, colors@, q, old_buf.color_at(q))
                    } else {
                        old_buf.color_at(q)
                    }),
            decreases y_end - y,
        {
            proof {
                lemma_mul_le(y - y_start + 1, ah, aw);
                assert((y - y_start + 1) * aw == (y - y_start) * aw + aw) by (nonlinear_arith);
            }
            if y < 0 || y >= height {
                // Skip out-of-bounds rows
                position = position + area_width;
                y = y + 1;
                continue;
            }
            proof {
                lemma_row_bound(
                    y as int,
                    crate::geometry::max_int(x_start as int, 0) / 8,
                    bpr as int,
                    height as int,
                );
            }
            byte_index = byte_index + row_start_byte_offset;
            let mut bit_index: u8 = ((max_i32(x_start, 0) as usize) % 8) as u8;
            let mut x: i32 = x_start;
            while x < x_end
                invariant
                    self.wf(),
                    self.spec_size() == old_buf.spec_size(),
                    0 <= y < height,
                    x_start <= x <= x_end,
                    position == (y - y_start) * aw + (x - x_start),
                    byte_index == y * bpr + crate::geometry::min_int(
                        crate::geometry::max_int(x as int, 0),
                        width as int,
                    ) / 8,
                    bit_index == crate::geometry::min_int(
                        crate::geometry::max_int(x as int, 0),
                        width as int,
                    ) % 8,
                    forall|q: Point|
                        old_buf.in_bounds(q) ==> #[trigger] self.color_at(q) == (if q.y < y || (q.y
                            == y && q.x < x) {
                            contiguous_color(*area, colors@, q, old_buf.color_at(q))
                        } else {
                            old_buf.color_at(q)
                        }),
                decreases x_end - x,
            {
                if x < 0 || x >= width {
                    // Skip out-of-bounds pixels
                    position = position + 1;
                    x = x + 1;
                    continue;
                }
                // Exit if there are no more colors to apply.
                if position >= colors.len() as u64 {
                    assert forall|q: Point| old_buf.in_bounds(q) implies #[trigger] self.color_at(q)
                        == contiguous_color(*area, colors@, q, old_buf.color_at(q)) by {
                        if area.spec_contains(q) && !(q.y < y || (q.y == y && q.x < x)) {
                            if q.y > y {
                                lemma_row_major(
                                    y - y_start,
                                    x - x_start,
                                    q.y - y_start,
                                    q.x - x_start,
                                    aw,
                                );
                            }
                        }
                    }
                    return Ok(());
                }
                let color: BinaryColor = colors[position as usize];
                position = position + 1;
                let ghost prev = *self;
                proof {
                    lemma_row_bound(y as int, x / 8, bpr as int, height as int);
                }
                let on: bool = color.is_on();
                self.set_bit(byte_index, bit_index, on);
                proof {
                    BinaryBuffer::<L>::lemma_set_pixel(prev, *self, Point { x, y }, on);
                }
                bit_index = bit_index + 1;
                if bit_index == 8 {
                    // Move to the next byte after every 8 pixels
                    byte_index = byte_index + 1;
                    bit_index = 0;
                }
                x = x + 1;
            }
            proof {
                lemma_row_bound(y as int, bpr - 1, bpr as int, height as int);
                assert((y + 1) * bpr == y * bpr + bpr) by (nonlinear_arith);
            }
            byte_index = byte_index + row_end_byte_offset;
            y = y + 1;
        }
        assert forall|q: Point| old_buf.in_bounds(q) implies #[trigger] self.color_at(q)
            == contiguous_color(*area, colors@, q, old_buf.color_at(q)) by {
        }
        Ok(())
    }

    /// Sets the pixels `x_from .. x_to` of row `y` one bit at a time, starting at the byte and
    /// bit that hold pixel `x_from`; returns the byte and bit that hold pixel `x_to`.
    fn set_bits(
        &mut self,
        y: i32,
        x_from: i32,
        x_to: i32,
        byte_index: usize,
        bit_index: u8,
        on: bool,
    ) -> (r: (usize, u8))
        requires
            old(self).wf(),
            0 <= y < old(self).spec_size().height,
            0 <= x_from <= x_to <= old(self).spec_size().width,
            byte_index == y * old(self).row_len() + x_from / 8,
            bit_index == x_from % 8,
        ensures
            final(self).wf(),
            final(self).spec_size() == old(self).spec_size(),
            r.0 == y * old(self).row_len() + x_to / 8,
            r.1 == x_to % 8,
            forall|q: Point|
                old(self).in_bounds(q) ==> #[trigger] final(self).color_at(q) == (if q.y == y
                    && x_from <= q.x < x_to {
                    color_of(on)
                } else {
                    old(self).color_at(q)
                }),
    {
        let ghost old_buf = *self;
        let ghost bpr = self.row_len();
        let ghost h = self.spec_size().height as int;
        let mut byte_index: usize = byte_index;
        let mut bit_index: u8 = bit_index;
        let mut x: i32 = x_from;
        while x < x_to
            invariant
                old_buf.wf(),
                self.wf(),
                self.spec_size() == old_buf.spec_size(),
                bpr == old_buf.row_len(),
                h == old_buf.spec_size().height,
                0 <= y < h,
                0 <= x_from <= x <= x_to <= old_buf.spec_size().width,
                byte_index == y * bpr + x / 8,
                bit_index == x % 8,
                forall|q: Point|
                    old_buf.in_bounds(q) ==> #[trigger] self.color_at(q) == (if q.y == y && x_from
                        <= q.x < x {
                        color_of(on)
                    } else {
                        old_buf.color_at(q)
                    }),
            decreases x_to - x,
        {
            let ghost prev = *self;
            proof {
                lemma_div8(x as int, old_buf.spec_size().width as int);
                lemma_row_bound(y as int, x / 8, bpr, h);
                lemma_row_bound(y as int, bpr - 1, bpr, h);
            }
            self.set_bit(byte_index, bit_index, on);
            proof {
                BinaryBuffer::<L>::lemma_set_pixel(prev, *self, Point { x, y }, on);
            }
            bit_index = bit_index + 1;
            if bit_index == 8 {
                // Move to the next byte after every 8 pixels
                byte_index = byte_index + 1;
                bit_index = 0;
            }
            x = x + 1;
        }
        (byte_index, bit_index)
    }

    /// Fills `area` with `color`; the part of `area` outside the buffer is left alone.
    #[verifier::loop_isolation(false)]
    pub fn fill_solid(&mut self, area: &Rectangle, color: BinaryColor) -> (r: Result<(), Infallible>)
        requires
            old(self).wf(),
            old(self).spec_bounding_box().fits(),
            area.fits(),
        ensures
            r is Ok,
            final(self).wf(),
            final(self).spec_size() == old(self).spec_size(),
            forall|p: Point|
                old(self).in_bounds(p) ==> #[trigger] final(self).color_at(p) == solid_color(
                    *area,
                    color,
                    p,
                    old(self).color_at(p),
                ),
    {
        let ghost old_buf = *self;
        let drawable_area = intersection(&self.bounding_box(), area);
        if drawable_area.size.width == 0 || drawable_area.size.height == 0 {
            // Nothing to fill
            assert forall|p: Point| old_buf.in_bounds(p) implies #[trigger] self.color_at(p)
                == solid_color(*area, color, p, old_buf.color_at(p)) by {
                if area.spec_contains(p) {
                    assert(overlap(old_buf.spec_bounding_box(), *area));
                }
            }
            return Ok(());
        }
        let bpr: usize = self.bytes_per_row;
        let ghost height = self.spec_size().height as int;
        let ghost width = self.spec_size().width as int;
        let y_start: i32 = drawable_area.top_left.y;
        let y_end: i32 = drawable_area.top_left.y + drawable_area.size.height as i32;
        let x_start: i32 = drawable_area.top_left.x;
        let x_end: i32 = drawable_area.top_left.x + drawable_area.size.width as i32;

        // The first and last byte boundaries inside the row span.
        let x_full_bytes_start: i32 = min_i32(x_start + (8 - x_start % 8) % 8, x_end);
        let x_full_bytes_end: i32 = max_i32(x_end - (x_end % 8), x_start);
        let num_full_bytes_per_row: i32 = if x_full_bytes_end > x_full_bytes_start {
            (x_full_bytes_end - x_full_bytes_start) / 8
        } else {
            0
        };

        proof {
            lemma_mul_le(y_start as int, height, bpr as int);
            assert(height * (bpr as int) == (bpr as int) * height) by (nonlinear_arith);
        }
        let mut byte_index: usize = y_start as usize * bpr;
        let row_start_byte_offset: usize = x_start as usize / 8;
        let row_end_byte_offset: usize = bpr - (x_end as usize / 8);
        let on: bool = color.is_on();
        let mut y: i32 = y_start;
        while y < y_end
            invariant
                self.wf(),
                self.spec_size() == old_buf.spec_size(),
                y_start <= y <= y_end,
                byte_index == y * bpr,
                forall|q: Point|
                    old_buf.in_bounds(q) ==> #[trigger] self.color_at(q) == (if q.y < y {
                        solid_color(*area, color, q, old_buf.color_at(q))
                    } else {
                        old_buf.color_at(q)
                    }),
            decreases y_end - y,
        {
            proof {
                lemma_row_bound(y as int, bpr - 1, bpr as int, height);
                assert((y + 1) * bpr == y * bpr + bpr) by (nonlinear_arith);
            }
            byte_index = byte_index + row_start_byte_offset;
            byte_index = self.fill_row(
                y,
                x_start,
                x_end,
                x_full_bytes_start,
                x_full_bytes_end,
                num_full_bytes_per_row,
                byte_index,
                on,
            );
            byte_index = byte_index + row_end_byte_offset;
            y = y + 1;
        }
        Ok(())
    }

    /// Fills the pixels `x_start .. x_end` of row `y`: bit by bit up to the first byte
    /// boundary, whole bytes up to the last one, and bit by bit after it. Returns the index of
    /// the byte that holds pixel `x_end`.
    fn fill_row(
        &mut self,
        y: i32,
        x_start: i32,
        x_end: i32,
        x_full_bytes_start: i32,
        x_full_bytes_end: i32,
        num_full_bytes_per_row: i32,
        byte_index: usize,
        on: bool,
    ) -> (r: usize)
        requires
            old(self).wf(),
            0 <= y < old(self).spec_size().height,
            0 <= x_start < x_end <= old(self).spec_size().width,
            x_full_bytes_start == crate::geometry::min_int(
                x_start + (8 - x_start % 8) % 8,
                x_end as int,
            ),
            x_full_bytes_end == crate::geometry::max_int(x_end - (x_end % 8), x_start as int),
            num_full_bytes_per_row == if x_full_bytes_end > x_full_bytes_start {
                (x_full_bytes_end - x_full_bytes_start) / 8
            } else {
                0
            },
            byte_index == y * old(self).row_len() + x_start / 8,
        ensures
            final(self).wf(),
            final(self).spec_size() == old(self).spec_size(),
            r == y * old(self).row_len() + x_end / 8,
            forall|q: Point|
                old(self).in_bounds(q) ==> #[trigger] final(self).color_at(q) == (if q.y == y
                    && x_start <= q.x < x_end {
                    color_of(on)
                } else {
                    old(self).color_at(q)
                }),
    {
        let ghost old_buf = *self;
        let ghost bpr = self.row_len();
        let ghost height = self.spec_size().height as int;
        let fill_byte: u8 = if on {
            0xFF
        } else {
            0x00
        };
        let mut byte_index: usize = byte_index;
        let mut bit_index: u8 = (x_start % 8) as u8;
        if num_full_bytes_per_row == 0 {
            // There are no full bytes in this row, so just set colors bitwise.
            let (b, _k) = self.set_bits(y, x_start, x_end, byte_index, bit_index, on);
            byte_index = b;
        } else {
            // Set colors bitwise in the first byte if it's not byte-aligned.
            let (b, _k) = self.set_bits(y, x_start, x_full_bytes_start, byte_index, bit_index, on);
            byte_index = b;
            let ghost after_head = *self;

            // Fast fill for any fully covered bytes in the row.
            let mut j: i32 = 0;
            while j < num_full_bytes_per_row
                invariant
                    old_buf.wf(),
                    self.wf(),
                    self.spec_size() == old_buf.spec_size(),
                    bpr == old_buf.row_len(),
                    height == old_buf.spec_size().height,
                    0 <= y < height,
                    x_full_bytes_start % 8 == 0,
                    x_full_bytes_start + 8 * num_full_bytes_per_row <= old_buf.spec_size().width,
                    0 <= x_full_bytes_start,
                    0 <= j <= num_full_bytes_per_row,
                    byte_index == y * bpr + x_full_bytes_start / 8 + j,
                    fill_byte == (if on {
                        0xFFu8
                    } else {
                        0u8
                    }),
                    forall|q: Point|
                        old_buf.in_bounds(q) ==> #[trigger] self.color_at(q) == (if q.y == y
                            && x_full_bytes_start <= q.x < x_full_bytes_start + 8 * j {
                            color_of(on)
                        } else {
                            after_head.color_at(q)
                        }),
                decreases num_full_bytes_per_row - j,
            {
                let ghost prev = *self;
                proof {
                    lemma_div8(x_full_bytes_start + 8 * j, old_buf.spec_size().width as int);
                    lemma_row_bound(y as int, x_full_bytes_start / 8 + j, bpr, height);
                }
                self.set_byte(byte_index, fill_byte);
                proof {
                    BinaryBuffer::<L>::lemma_set_byte(
                        prev,
                        *self,
                        x_full_bytes_start / 8 + j,
                        y as int,
                        on,
                    );
                }
                byte_index = byte_index + 1;
                j = j + 1;
            }

            // Set the partially covered byte at the end of the row, if any.
            bit_index = (x_full_bytes_end % 8) as u8;
            let (b, _k) = self.set_bits(y, x_full_bytes_end, x_end, byte_index, bit_index, on);
            byte_index = b;
        }
        byte_index
    }
}

/// Drawing pixels that all lie outside a buffer whose dimensions stay within the `i32` range
/// leaves its data unchanged.
pub proof fn lemma_draw_outside_keeps_bytes<const L: usize>(
    old_buf: BinaryBuffer<L>,
    new_buf: BinaryBuffer<L>,
    pixels: Seq<Pixel<BinaryColor>>,
)
    requires
        old_buf.wf(),
        new_buf.wf(),
        old_buf.spec_size().width <= i32::MAX,
        old_buf.spec_size().height <= i32::MAX,
        new_buf.spec_size() == old_buf.spec_size(),
        forall|p: Point|
            old_buf.in_bounds(p) ==> #[trigger] new_buf.color_at(p) == drawn_color(
                pixels,
                p,
                old_buf.color_at(p),
            ),
        forall|i: int| 0 <= i < pixels.len() ==> !old_buf.in_bounds(#[trigger] pixels[i].0),
    ensures
        new_buf.bytes() == old_buf.bytes(),
{
    assert forall|p: Point| old_buf.in_bounds(p) implies #[trigger] old_buf.color_at(p)
        == new_buf.color_at(p) by {
        crate::canvas::lemma_drawn_color_missing(pixels, p, old_buf.color_at(p));
    }
    BinaryBuffer::<L>::lemma_pixels_determine_bytes(old_buf, new_buf);
}

impl<const L: usize> Canvas for BinaryBuffer<L> {
    type Color = BinaryColor;

    type Error = Infallible;

    open spec fn valid(&self) -> bool {
        self.wf()
    }

    open spec fn spec_bounding_box(&self) -> Rectangle {
        Rectangle { top_left: Point { x: 0, y: 0 }, size: self.spec_size() }
    }

    open spec fn color_at(&self, p: Point) -> BinaryColor {
        color_of(self.pixel_on(p.x as int, p.y as int))
    }

    fn bounding_box(&self) -> (r: Rectangle) {
        Rectangle { top_left: Point { x: 0, y: 0 }, size: self.size }
    }

    fn draw_iter(&mut self, pixels: &[Pixel<BinaryColor>]) -> (r: Result<(), Infallible>) {
        let ghost old_buf = *self;
        let mut i: usize = 0;
        while i < pixels.len()
            invariant
                old_buf.wf(),
                self.wf(),
                self.spec_size() == old_buf.spec_size(),
                0 <= i <= pixels.len(),
                forall|p: Point|
                    old_buf.in_bounds(p) ==> #[trigger] self.color_at(p) == drawn_color(
                        pixels@.take(i as int),
                        p,
                        old_buf.color_at(p),
                    ),
            decreases pixels.len() - i,
        {
            let Pixel(point, color) = pixels[i];
            let ghost prev = *self;
            assert(pixels@.take(i + 1) =~= pixels@.take(i as int).push(pixels@[i as int]));
            if point.x < 0 || point.x as u32 >= self.size.width || point.y < 0 || point.y as u32
                >= self.size.height {
                // Skip out-of-bounds pixels
                assert forall|p: Point| old_buf.in_bounds(p) implies #[trigger] self.color_at(p)
                    == drawn_color(pixels@.take(i + 1), p, old_buf.color_at(p)) by {
                    crate::canvas::lemma_drawn_color_push(
                        pixels@.take(i as int),
                        pixels@[i as int],
                        p,
                        old_buf.color_at(p),
                    );
                }
            } else {
                proof {
                    lemma_row_bound(
                        point.y as int,
                        point.x / 8,
                        self.row_len(),
                        self.spec_size().height as int,
                    );
                }
                let byte_index: usize = (point.x as usize) / 8 + (point.y as usize
                    * self.bytes_per_row);
                let bit_index: u8 = (point.x % 8) as u8;
                let on: bool = color.is_on();
                self.set_bit(byte_index, bit_index, on);
                proof {
                    BinaryBuffer::<L>::lemma_set_pixel(prev, *self, point, on);
                    assert forall|p: Point| old_buf.in_bounds(p) implies #[trigger] self.color_at(p)
                        == drawn_color(pixels@.take(i + 1), p, old_buf.color_at(p)) by {
                        crate::canvas::lemma_drawn_color_push(
                            pixels@.take(i as int),
                            pixels@[i as int],
                            p,
                            old_buf.color_at(p),
                        );
                        assert(prev.color_at(p) == drawn_color(
                            pixels@.take(i as int),
                            p,
                            old_buf.color_at(p),
                        ));
                    }
                }
            }
            i = i + 1;
        }
        assert(pixels@.take(pixels.len() as int) =~= pixels@);
        Ok(())
    }
}

impl<const L: usize> BufferView<1, 1> for BinaryBuffer<L> {
    open spec fn spec_window(&self) -> Rectangle {
        self.spec_bounding_box()
    }

    open spec fn frame(&self, i: int) -> Seq<u8> {
        self.bytes()
    }

    fn window(&self) -> (r: Rectangle) {
        Rectangle { top_left: Point { x: 0, y: 0 }, size: self.size }
    }

    fn data(&self) -> (r: [&[u8]; 1]) {
        [self.data.as_slice()]
    }
}

/// A buffer supporting 2-bit grayscale colours. This buffer splits the 2 bits into two separate
/// single-bit framebuffers.
#[derive(Clone)]
pub struct Gray2SplitBuffer<const L: usize> {
    pub low: BinaryBuffer<L>,
    pub high: BinaryBuffer<L>,
}

/// Computes the correct size for the [Gray2SplitBuffer] based on the given dimensions.
pub fn gray2_split_buffer_length(size: Size) -> (r: usize)
    requires
        spec_binary_buffer_length(size) <= usize::MAX,
    ensures
        r == spec_binary_buffer_length(size),
{
    binary_buffer_length(size)
}

/// The frame that holds the low bit of a grayscale colour.
pub open spec fn low_of(g: Gray2) -> BinaryColor {
    color_of(g.spec_luma() % 2 == 1)
}

/// The frame that holds the high bit of a grayscale colour.
pub open spec fn high_of(g: Gray2) -> BinaryColor {
    color_of((g.spec_luma() / 2) % 2 == 1)
}

/// The grayscale colour with the given high and low bits.
pub open spec fn gray_from_bits(high: bool, low: bool) -> Gray2 {
    Gray2::from_luma(
        ((if high {
            2int
        } else {
            0int
        }) + (if low {
            1int
        } else {
            0int
        })) as u8,
    )
}

/// The low frame holds bit 0 of the luma and the high frame bit 1.
pub proof fn lemma_frame_bits(g: Gray2)
    ensures
        low_of(g) == BinaryColor::On <==> g.spec_luma() & 1 == 1,
        high_of(g) == BinaryColor::On <==> g.spec_luma() & 2 == 2,
{
    let l = g.spec_luma();
    assert((l & 1 == 1) == (l % 2 == 1)) by (bit_vector);
    assert((l & 2 == 2) == ((l / 2) % 2 == 1)) by (bit_vector);
}

/// A binary buffer holds one bit per pixel: eight pixels to a byte.
pub proof fn lemma_binary_buffer_length(size: Size)
    requires
        size.width % 8 == 0,
    ensures
        spec_binary_buffer_length(size) * 8 == size.width * size.height,
{
    assert((size.width / 8) * size.height * 8 == size.width * size.height) by (nonlinear_arith)
        requires
            size.width % 8 == 0,
    ;
}

/// Splitting a valid colour into its bits and joining them gives the colour back.
pub proof fn lemma_gray_split_join(g: Gray2)
    requires
        g.wf(),
    ensures
        gray_from_bits(high_of(g) == BinaryColor::On, low_of(g) == BinaryColor::On) == g,
{
    let l = g.spec_luma();
    Gray2::lemma_wf(g);
    Gray2::lemma_from_luma((2 * ((l / 2) % 2) + l % 2) as u8);
    assert(l == 2 * ((l / 2) % 2) + l % 2);
}

/// Drawing valid colours over a valid colour gives a valid colour.
proof fn lemma_drawn_gray_wf(pixels: Seq<Pixel<Gray2>>, p: Point, old: Gray2)
    requires
        old.wf(),
        forall|i: int| 0 <= i < pixels.len() ==> (#[trigger] pixels[i]).1.wf(),
    ensures
        drawn_color(pixels, p, old).wf(),
    decreases pixels.len(),
{
    if pixels.len() > 0 {
        assert(pixels.last() == pixels[pixels.len() - 1]);
        lemma_drawn_gray_wf(pixels.drop_last(), p, old);
    }
}

/// Splits a grayscale colour into the colours of its low and high frames.
fn to_low_and_high_as_binary(g: Gray2) -> (r: (BinaryColor, BinaryColor))
    ensures
        g.wf(),
        r.0 == low_of(g),
        r.1 == high_of(g),
{
    let luma: u8 = g.luma();
    let low = if (luma & 1) == 0 {
        BinaryColor::Off
    } else {
        BinaryColor::On
    };
    let high = if (luma & 0b10) == 0 {
        BinaryColor::Off
    } else {
        BinaryColor::On
    };
    assert(((luma & 1) == 0) == (luma % 2 != 1)) by (bit_vector);
    assert(((luma & 0b10) == 0) == ((luma / 2) % 2 != 1)) by (bit_vector);
    (low, high)
}

/// The pixels of the low frame.
pub open spec fn low_pixels(pixels: Seq<Pixel<Gray2>>) -> Seq<Pixel<BinaryColor>> {
    pixels.map_values(|px: Pixel<Gray2>| Pixel(px.0, low_of(px.1)))
}

/// The pixels of the high frame.
pub open spec fn high_pixels(pixels: Seq<Pixel<Gray2>>) -> Seq<Pixel<BinaryColor>> {
    pixels.map_values(|px: Pixel<Gray2>| Pixel(px.0, high_of(px.1)))
}

/// Pixels are drawn in chunks of this many.
pub const GRAY_ITER_CHUNK_SIZE: usize = 128;

#[verifier::external_type_specification]
#[verifier::external_body]
#[verifier::reject_recursive_types(T)]
pub struct ExHeaplessVec<T, const N: usize>(heapless::Vec<T, N>);

/// The pixels that a chunk holds, in order.
pub uninterp spec fn chunk_pixels(chunk: heapless::Vec<Pixel<BinaryColor>, GRAY_ITER_CHUNK_SIZE>) -> Seq<Pixel<BinaryColor>>;

/// Creates an empty chunk.
///
/// Trusted: calls `heapless::Vec::new`, whose source builds a vector of length 0.
#[verifier::external_body]
fn chunk_new() -> (r: heapless::Vec<Pixel<BinaryColor>, GRAY_ITER_CHUNK_SIZE>)
    ensures
        chunk_pixels(r) == Seq::<Pixel<BinaryColor>>::empty(),
{
    heapless::Vec::new()
}

/// Whether the chunk holds as many pixels as it can.
///
/// Trusted: calls `heapless::Vec::is_full`, whose source compares the length with the
/// capacity.
#[verifier::external_body]
fn chunk_is_full(chunk: &heapless::Vec<Pixel<BinaryColor>, GRAY_ITER_CHUNK_SIZE>) -> (r: bool)
    ensures
        r == (chunk_pixels(*chunk).len() == GRAY_ITER_CHUNK_SIZE),
{
    chunk.is_full()
}

/// Whether the chunk holds no pixel.
///
/// Trusted: calls `heapless::Vec::is_empty`, whose source compares the length with 0.
#[verifier::external_body]
fn chunk_is_empty(chunk: &heapless::Vec<Pixel<BinaryColor>, GRAY_ITER_CHUNK_SIZE>) -> (r: bool)
    ensures
        r == (chunk_pixels(*chunk).len() == 0),
{
    chunk.is_empty()
}

/// Appends a pixel to a chunk that is not full.
///
/// Trusted: calls `heapless::Vec::push`, whose source stores the item after the others and
/// returns `Ok` when the vector is below its capacity.
#[verifier::external_body]
fn chunk_push(chunk: &mut heapless::Vec<Pixel<BinaryColor>, GRAY_ITER_CHUNK_SIZE>, px: Pixel<BinaryColor>)
    requires
        chunk_pixels(*old(chunk)).len() < GRAY_ITER_CHUNK_SIZE,
    ensures
        chunk_pixels(*final(chunk)) == chunk_pixels(*old(chunk)).push(px),
{
    let _ = chunk.push(px);
}

/// The pixels of a chunk as a slice.
///
/// Trusted: calls `heapless::Vec::as_slice`, whose source returns the first `len` items.
#[verifier::external_body]
fn chunk_as_slice(chunk: &heapless::Vec<Pixel<BinaryColor>, GRAY_ITER_CHUNK_SIZE>) -> (r: &[Pixel<BinaryColor>])
    ensures
        r@ == chunk_pixels(*chunk),
{
    chunk.as_slice()
}

impl<const L: usize> Gray2SplitBuffer<L> {
    /// Creates a new [Gray2SplitBuffer] with all pixels set to 0.
    ///
    /// The dimensions must match the buffer length `L`, and the width must be a multiple of 8.
    pub fn new(dimensions: Size) -> (r: Gray2SplitBuffer<L>)
        requires
            dimensions.width % 8 == 0,
            spec_binary_buffer_length(dimensions) == L,
        ensures
            r.valid(),
            r.low.spec_size() == dimensions,
            r.high.spec_size() == dimensions,
            r.low.bytes() =~= Seq::new(spec_binary_buffer_length(dimensions) as nat, |i: int| 0u8),
            r.high.bytes() =~= Seq::new(spec_binary_buffer_length(dimensions) as nat, |i: int| 0u8),
    {
        Gray2SplitBuffer { low: BinaryBuffer::<L>::new(dimensions), high: BinaryBuffer::<L>::new(dimensions) }
    }

    /// Fills `area` with `color`; the part of `area` outside the buffer is left alone.
    pub fn fill_solid(&mut self, area: &Rectangle, color: Gray2) -> (r: Result<(), Infallible>)
        requires
            old(self).valid(),
            old(self).spec_bounding_box().fits(),
            area.fits(),
        ensures
            r is Ok,
            final(self).valid(),
            final(self).spec_bounding_box() == old(self).spec_bounding_box(),
            forall|p: Point|
                old(self).spec_bounding_box().spec_contains(p) ==> #[trigger] final(self).color_at(p)
                    == solid_color(*area, color, p, old(self).color_at(p)),
    {
        let ghost old_buf = *self;
        let (low, high) = to_low_and_high_as_binary(color);
        self.low.fill_solid(area, low)?;
        self.high.fill_solid(area, high)?;
        assert forall|p: Point| old_buf.spec_bounding_box().spec_contains(p) implies #[trigger] self.color_at(p)
            == solid_color(*area, color, p, old_buf.color_at(p)) by {
            assert(old_buf.low.in_bounds(p));
            assert(old_buf.high.in_bounds(p));
            assert(self.low.color_at(p) == solid_color(*area, low, p, old_buf.low.color_at(p)));
            assert(self.high.color_at(p) == solid_color(*area, high, p, old_buf.high.color_at(p)));
            if area.spec_contains(p) {
                lemma_gray_split_join(color);
            }
        }
        Ok(())
    }
}

impl<const L: usize> BufferView<1, 2> for Gray2SplitBuffer<L> {
    open spec fn spec_window(&self) -> Rectangle {
        Rectangle { top_left: Point { x: 0, y: 0 }, size: self.low.spec_size() }
    }

    open spec fn frame(&self, i: int) -> Seq<u8> {
        if i == 0 {
            self.low.bytes()
        } else {
            self.high.bytes()
        }
    }

    fn window(&self) -> (r: Rectangle) {
        self.low.window()
    }

    fn data(&self) -> (r: [&[u8]; 2]) {
        [self.low.data(), self.high.data()]
    }
}

impl<const L: usize> Canvas for Gray2SplitBuffer<L> {
    type Color = Gray2;

    type Error = Infallible;

    open spec fn valid(&self) -> bool {
        &&& self.low.wf()
        &&& self.high.wf()
        &&& self.low.spec_size() == self.high.spec_size()
    }

    open spec fn spec_bounding_box(&self) -> Rectangle {
        Rectangle { top_left: Point { x: 0, y: 0 }, size: self.low.spec_size() }
    }

    open spec fn color_at(&self, p: Point) -> Gray2 {
        gray_from_bits(
            self.high.pixel_on(p.x as int, p.y as int),
            self.low.pixel_on(p.x as int, p.y as int),
        )
    }

    fn bounding_box(&self) -> (r: Rectangle) {
        self.low.bounding_box()
    }

    /// Each frame ends up as if the pixels, mapped to that frame's bit of their colour, had
    /// been drawn on it in order.
    fn draw_iter(&mut self, pixels: &[Pixel<Gray2>]) -> (r: Result<(), Infallible>)
        ensures
            final(self).low.spec_size() == old(self).low.spec_size(),
            final(self).high.spec_size() == old(self).high.spec_size(),
            forall|q: Point|
                old(self).low.in_bounds(q) ==> #[trigger] final(self).low.color_at(q) == drawn_color(
                    low_pixels(pixels@),
                    q,
                    old(self).low.color_at(q),
                ),
            forall|q: Point|
                old(self).high.in_bounds(q) ==> #[trigger] final(self).high.color_at(q)
                    == drawn_color(high_pixels(pixels@), q, old(self).high.color_at(q)),
    {
        let ghost old_buf = *self;
        // Pixels are collected into chunks because the input may be longer than the buffer,
        // and a chunk takes less memory than two full-size copies of it.
        let mut low_chunk = chunk_new();
        let mut high_chunk = chunk_new();
        let ghost mut flushed: int = 0;
        let mut i: usize = 0;
        while i < pixels.len()
            invariant
                old_buf.valid(),
                self.valid(),
                self.low.spec_size() == old_buf.low.spec_size(),
                0 <= flushed <= i <= pixels.len(),
                i - flushed <= GRAY_ITER_CHUNK_SIZE,
                forall|j: int| 0 <= j < i ==> (#[trigger] pixels@[j]).1.wf(),
                chunk_pixels(low_chunk) == low_pixels(pixels@.subrange(flushed, i as int)),
                chunk_pixels(high_chunk) == high_pixels(pixels@.subrange(flushed, i as int)),
                forall|q: Point|
                    old_buf.low.in_bounds(q) ==> #[trigger] self.low.color_at(q) == drawn_color(
                        low_pixels(pixels@.take(flushed)),
                        q,
                        old_buf.low.color_at(q),
                    ),
                forall|q: Point|
                    old_buf.high.in_bounds(q) ==> #[trigger] self.high.color_at(q) == drawn_color(
                        high_pixels(pixels@.take(flushed)),
                        q,
                        old_buf.high.color_at(q),
                    ),
            decreases pixels.len() - i,
        {
            let p = pixels[i];
            let (low, high) = to_low_and_high_as_binary(p.1);
            if chunk_is_full(&low_chunk) {
                self.flush(&low_chunk, &high_chunk, Ghost(old_buf), Ghost(pixels@), Ghost(flushed), Ghost(i as int))?;
                low_chunk = chunk_new();
                high_chunk = chunk_new();
                proof {
                    flushed = i as int;
                }
            }
            chunk_push(&mut low_chunk, Pixel(p.0, low));
            chunk_push(&mut high_chunk, Pixel(p.0, high));
            assert(pixels@.subrange(flushed, i + 1) =~= pixels@.subrange(flushed, i as int).push(p));
            assert(low_pixels(pixels@.subrange(flushed, i + 1)) =~= low_pixels(pixels@.subrange(flushed, i as int)).push(Pixel(p.0, low)));
            assert(high_pixels(pixels@.subrange(flushed, i + 1)) =~= high_pixels(pixels@.subrange(flushed, i as int)).push(Pixel(p.0, high)));
            i = i + 1;
        }
        if !chunk_is_empty(&low_chunk) {
            self.flush(&low_chunk, &high_chunk, Ghost(old_buf), Ghost(pixels@), Ghost(flushed), Ghost(i as int))?;
        } else {
            assert(pixels@.subrange(flushed, i as int).len() == 0);
            assert(pixels@.take(flushed) =~= pixels@.take(i as int));
        }
        assert(pixels@.take(pixels.len() as int) =~= pixels@);
        assert forall|q: Point| old_buf.spec_bounding_box().spec_contains(q) implies #[trigger] self.color_at(q)
            == drawn_color(pixels@, q, old_buf.color_at(q)) by {
            let og = old_buf.color_at(q);
            assert(old_buf.low.in_bounds(q));
            assert(old_buf.high.in_bounds(q));
            let hb = old_buf.high.pixel_on(q.x as int, q.y as int);
            let lb = old_buf.low.pixel_on(q.x as int, q.y as int);
            let lu = ((if hb { 2int } else { 0int }) + (if lb { 1int } else { 0int })) as u8;
            Gray2::lemma_from_luma(lu);
            assert(og.wf());
            assert(low_of(og) == old_buf.low.color_at(q));
            assert(high_of(og) == old_buf.high.color_at(q));
            let fl = |g: Gray2| low_of(g);
            let fh = |g: Gray2| high_of(g);
            lemma_drawn_color_map(pixels@, fl, q, og);
            lemma_drawn_color_map(pixels@, fh, q, og);
            assert(low_pixels(pixels@) =~= pixels@.map_values(|px: Pixel<Gray2>| Pixel(px.0, fl(px.1))));
            assert(high_pixels(pixels@) =~= pixels@.map_values(|px: Pixel<Gray2>| Pixel(px.0, fh(px.1))));
            lemma_drawn_gray_wf(pixels@, q, og);
            let d = drawn_color(pixels@, q, og);
            assert(self.low.color_at(q) == low_of(d));
            assert(self.high.color_at(q) == high_of(d));
            lemma_gray_split_join(drawn_color(pixels@, q, og));
        }
        Ok(())
    }
}

impl<const L: usize> Gray2SplitBuffer<L> {
    /// Draws the pending chunks onto the two frames.
    fn flush(
        &mut self,
        low_chunk: &heapless::Vec<Pixel<BinaryColor>, GRAY_ITER_CHUNK_SIZE>,
        high_chunk: &heapless::Vec<Pixel<BinaryColor>, GRAY_ITER_CHUNK_SIZE>,
        Ghost(start): Ghost<Gray2SplitBuffer<L>>,
        Ghost(pixels): Ghost<Seq<Pixel<Gray2>>>,
        Ghost(flushed): Ghost<int>,
        Ghost(i): Ghost<int>,
    ) -> (r: Result<(), Infallible>)
        requires
            start.valid(),
            old(self).valid(),
            old(self).low.spec_size() == start.low.spec_size(),
            0 <= flushed <= i <= pixels.len(),
            chunk_pixels(*low_chunk) == low_pixels(pixels.subrange(flushed, i)),
            chunk_pixels(*high_chunk) == high_pixels(pixels.subrange(flushed, i)),
            forall|q: Point|
                start.low.in_bounds(q) ==> #[trigger] old(self).low.color_at(q) == drawn_color(
                    low_pixels(pixels.take(flushed)),
                    q,
                    start.low.color_at(q),
                ),
            forall|q: Point|
                start.high.in_bounds(q) ==> #[trigger] old(self).high.color_at(q) == drawn_color(
                    high_pixels(pixels.take(flushed)),
                    q,
                    start.high.color_at(q),
                ),
        ensures
            r is Ok,
            final(self).valid(),
            final(self).low.spec_size() == start.low.spec_size(),
            forall|q: Point|
                start.low.in_bounds(q) ==> #[trigger] final(self).low.color_at(q) == drawn_color(
                    low_pixels(pixels.take(i)),
                    q,
                    start.low.color_at(q),
                ),
            forall|q: Point|
                start.high.in_bounds(q) ==> #[trigger] final(self).high.color_at(q) == drawn_color(
                    high_pixels(pixels.take(i)),
                    q,
                    start.high.color_at(q),
                ),
    {
        let ghost before = *self;
        self.low.draw_iter(chunk_as_slice(low_chunk))?;
        self.high.draw_iter(chunk_as_slice(high_chunk))?;
        proof {
            assert(pixels.take(i) =~= pixels.take(flushed) + pixels.subrange(flushed, i));
            assert(low_pixels(pixels.take(i)) =~= low_pixels(pixels.take(flushed)) + low_pixels(pixels.subrange(flushed, i)));
            assert(high_pixels(pixels.take(i)) =~= high_pixels(pixels.take(flushed)) + high_pixels(pixels.subrange(flushed, i)));
            assert forall|q: Point| start.low.in_bounds(q) implies #[trigger] self.low.color_at(q) == drawn_color(
                low_pixels(pixels.take(i)), q, start.low.color_at(q)) by {
                assert(before.low.spec_bounding_box().spec_contains(q));
                lemma_drawn_color_append(low_pixels(pixels.take(flushed)), low_pixels(pixels.subrange(flushed, i)), q, start.low.color_at(q));
            }
            assert forall|q: Point| start.high.in_bounds(q) implies #[trigger] self.high.color_at(q) == drawn_color(
                high_pixels(pixels.take(i)), q, start.high.color_at(q)) by {
                assert(before.high.spec_bounding_box().spec_contains(q));
                lemma_drawn_color_append(high_pixels(pixels.take(flushed)), high_pixels(pixels.subrange(flushed, i)), q, start.high.color_at(q));
            }
        }
        Ok(())
    }
}

} // verus!

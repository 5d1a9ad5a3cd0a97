//! The CPU-resident RGBA8 pixel grid that is the single source of truth
//! for displayed content.
//!
//! The buffer is row-major with no padding: pixel `(x, y)` occupies the
//! four bytes starting at `4 * (y * width + x)`. Out-of-bounds writes are
//! silently ignored and out-of-bounds reads return `None`, so per-pixel
//! drawing loops need no bounds branching of their own.

use vstd::prelude::*;

use crate::valid_dims;

verus! {

/// Canvas width used when the caller does not choose one.
pub const DEFAULT_CANVAS_WIDTH: u32 = 256;

/// Canvas height used when the caller does not choose one.
pub const DEFAULT_CANVAS_HEIGHT: u32 = 256;

/// A `width x height` grid of RGBA8 pixels, stored row-major with four
/// bytes per pixel and no padding between rows.
pub struct PixelCanvas {
    /// Width of the grid in pixels.
    pub width: u32,
    /// Height of the grid in pixels.
    pub height: u32,
    /// The pixel bytes; always exactly `width * height * 4` of them.
    pub pixels: Vec<u8>,
}

/// The buffer `p` with the four bytes `r, g, b, a` written at offset `i`.
pub open spec fn written(p: Seq<u8>, i: int, r: u8, g: u8, b: u8, a: u8) -> Seq<u8> {
    p.update(i, r).update(i + 1, g).update(i + 2, b).update(i + 3, a)
}

impl PixelCanvas {
    /// The buffer length matches the dimensions.
    pub open spec fn wf(self) -> bool {
        self.pixels@.len() == self.width as int * self.height as int * 4
    }

    /// `(x, y)` lies inside the grid.
    pub open spec fn in_bounds(self, x: u32, y: u32) -> bool {
        x < self.width && y < self.height
    }

    /// Offset of the first byte of pixel `(x, y)` in the buffer.
    pub open spec fn byte_index(self, x: u32, y: u32) -> int {
        4 * (y as int * self.width as int + x as int)
    }

    /// The four bytes of pixel `(x, y)`.
    pub open spec fn pixel(self, x: u32, y: u32) -> Seq<u8> {
        self.pixels@.subrange(self.byte_index(x, y), self.byte_index(x, y) + 4)
    }

    /// Allocates a zeroed canvas, or returns `None` when the buffer would
    /// not fit in addressable memory.
    pub fn new(width: u32, height: u32) -> (r: Option<PixelCanvas>)
        ensures
            r is Some <==> valid_dims(width, height),
            r matches Some(c) ==> c.width == width && c.height == height && c.wf()
                && forall|k: int| 0 <= k < c.pixels@.len() ==> c.pixels@[k] == 0u8,
    {
        let wh: usize = match (width as usize).checked_mul(height as usize) {
            Some(v) => v,
            None => {
                return None;
            },
        };
        let total: usize = match wh.checked_mul(4) {
            Some(v) => v,
            None => {
                return None;
            },
        };
        let mut pixels: Vec<u8> = Vec::new();
        while pixels.len() < total
            invariant
                pixels@.len() <= total,
                forall|k: int| 0 <= k < pixels@.len() ==> pixels@[k] == 0u8,
            decreases total - pixels@.len(),
        {
            pixels.push(0u8);
        }
        Some(PixelCanvas { width, height, pixels })
    }

    /// Discards the old contents and reallocates a zeroed buffer for the
    /// new dimensions; returns `false` (leaving the canvas unchanged) when
    /// the new buffer would not fit in addressable memory.
    pub fn resize(&mut self, width: u32, height: u32) -> (ok: bool)
        ensures
            ok <==> valid_dims(width, height),
            ok ==> final(self).width == width && final(self).height == height
                && final(self).wf() && forall|k: int|
                0 <= k < final(self).pixels@.len() ==> final(self).pixels@[k] == 0u8,
            !ok ==> final(self).width == old(self).width
                && final(self).height == old(self).height
                && final(self).pixels@ == old(self).pixels@,
    {
        match PixelCanvas::new(width, height) {
            Some(c) => {
                *self = c;
                true
            },
            None => false,
        }
    }

    /// Sets every byte of the buffer to the fixed clear value (zero,
    /// i.e. transparent black).
    pub fn clear(&mut self)
        requires
            old(self).wf(),
        ensures
            final(self).wf(),
            final(self).width == old(self).width,
            final(self).height == old(self).height,
            final(self).pixels@.len() == old(self).pixels@.len(),
            forall|k: int| 0 <= k < final(self).pixels@.len() ==> final(self).pixels@[k] == 0u8,
    {
        let n: usize = self.pixels.len();
        let mut i: usize = 0;
        while i < n
            invariant
                i <= n,
                self.pixels@.len() == n,
                self.width == old(self).width,
                self.height == old(self).height,
                n == old(self).pixels@.len(),
                forall|k: int| 0 <= k < i ==> self.pixels@[k] == 0u8,
            decreases n - i,
        {
            self.pixels.set(i, 0u8);
            i = i + 1;
        }
    }

    /// Writes the four bytes `r, g, b, a` at pixel `(x, y)`. Out-of-bounds
    /// coordinates leave every byte of the buffer unchanged.
    pub fn write_pixel_rgba(&mut self, x: u32, y: u32, r: u8, g: u8, b: u8, a: u8)
        requires
            old(self).wf(),
        ensures
            final(self).wf(),
            final(self).width == old(self).width,
            final(self).height == old(self).height,
            old(self).in_bounds(x, y) ==> final(self).pixels@ == written(
                old(self).pixels@,
                old(self).byte_index(x, y),
                r,
                g,
                b,
                a,
            ),
            !old(self).in_bounds(x, y) ==> final(self).pixels@ == old(self).pixels@,
    {
        if x < self.width && y < self.height {
            proof {
                lemma_byte_index_in_range(*self, x, y);
                lemma_flat_index_bound(x as int, y as int, self.width as int, self.height as int);
                assert(self.pixels@.len() == self.pixels.len());
            }
            let row: usize = (y as usize) * (self.width as usize);
            let base: usize = 4 * (row + (x as usize));
            self.pixels.set(base, r);
            self.pixels.set(base + 1, g);
            self.pixels.set(base + 2, b);
            self.pixels.set(base + 3, a);
        }
    }

    /// Writes pixel `(x, y)` with alpha defaulted to opaque (255).
    /// Out-of-bounds coordinates leave the buffer unchanged.
    pub fn write_pixel_rgb(&mut self, x: u32, y: u32, r: u8, g: u8, b: u8)
        requires
            old(self).wf(),
        ensures
            final(self).wf(),
            final(self).width == old(self).width,
            final(self).height == old(self).height,
            old(self).in_bounds(x, y) ==> final(self).pixels@ == written(
                old(self).pixels@,
                old(self).byte_index(x, y),
                r,
                g,
                b,
                255u8,
            ),
            !old(self).in_bounds(x, y) ==> final(self).pixels@ == old(self).pixels@,
    {
        self.write_pixel_rgba(x, y, r, g, b, 255)
    }

    /// Returns the four bytes of pixel `(x, y)`, or `None` when the
    /// coordinates lie outside the grid.
    pub fn read_pixel(&self, x: u32, y: u32) -> (r: Option<[u8; 4]>)
        requires
            self.wf(),
        ensures
            match r {
                Some(px) => self.in_bounds(x, y) && px@ == self.pixel(x, y),
                None => !self.in_bounds(x, y),
            },
    {
        if x < self.width && y < self.height {
            proof {
                lemma_byte_index_in_range(*self, x, y);
                lemma_flat_index_bound(x as int, y as int, self.width as int, self.height as int);
                assert(self.pixels@.len() == self.pixels.len());
            }
            let row: usize = (y as usize) * (self.width as usize);
            let base: usize = 4 * (row + (x as usize));
            let px: [u8; 4] = [
                self.pixels[base],
                self.pixels[base + 1],
                self.pixels[base + 2],
                self.pixels[base + 3],
            ];
            proof {
                assert(px@ =~= self.pixel(x, y));
            }
            Some(px)
        } else {
            None
        }
    }
}

/// A pixel's row-major offset stays strictly inside the grid's area.
proof fn lemma_flat_index_bound(x: int, y: int, w: int, h: int)
    by (nonlinear_arith)
    requires
        0 <= x < w,
        0 <= y < h,
    ensures
        0 <= y * w,
        y * w + x < w * h,
{
}

/// For in-bounds coordinates the pixel's four bytes lie inside the buffer.
pub proof fn lemma_byte_index_in_range(c: PixelCanvas, x: u32, y: u32)
    requires
        c.wf(),
        c.in_bounds(x, y),
    ensures
        0 <= c.byte_index(x, y),
        c.byte_index(x, y) + 4 <= c.pixels@.len(),
{
    lemma_flat_index_bound(x as int, y as int, c.width as int, c.height as int);
}

/// Round-trip law: after writing `r, g, b, a` at in-bounds `(x, y)`, the
/// pixel read back at `(x, y)` is exactly `r, g, b, a`.
pub proof fn lemma_write_read_roundtrip(
    c: PixelCanvas,
    c2: PixelCanvas,
    x: u32,
    y: u32,
    r: u8,
    g: u8,
    b: u8,
    a: u8,
)
    requires
        c.wf(),
        c.in_bounds(x, y),
        c2.width == c.width,
        c2.height == c.height,
        c2.pixels@ == written(c.pixels@, c.byte_index(x, y), r, g, b, a),
    ensures
        c2.wf(),
        c2.pixel(x, y) == seq![r, g, b, a],
{
    lemma_byte_index_in_range(c, x, y);
    assert(c2.pixel(x, y) =~= seq![r, g, b, a]);
}

/// Distinct in-bounds coordinates have distinct row-major offsets.
proof fn lemma_flat_index_injective(x1: int, y1: int, x2: int, y2: int, w: int)
    by (nonlinear_arith)
    requires
        0 <= x1 < w,
        0 <= x2 < w,
        0 <= y1,
        0 <= y2,
        !(x1 == x2 && y1 == y2),
    ensures
        y1 * w + x1 != y2 * w + x2,
{
}

/// Locality law: an in-bounds write changes the four bytes of its own
/// pixel and nothing else — every other pixel reads back unchanged.
pub proof fn lemma_write_touches_only_its_pixel(
    c: PixelCanvas,
    c2: PixelCanvas,
    x: u32,
    y: u32,
    r: u8,
    g: u8,
    b: u8,
    a: u8,
    x2: u32,
    y2: u32,
)
    requires
        c.wf(),
        c.in_bounds(x, y),
        c.in_bounds(x2, y2),
        !(x2 == x && y2 == y),
        c2.width == c.width,
        c2.height == c.height,
        c2.pixels@ == written(c.pixels@, c.byte_index(x, y), r, g, b, a),
    ensures
        c2.wf(),
        c2.pixel(x2, y2) == c.pixel(x2, y2),
{
    lemma_byte_index_in_range(c, x, y);
    lemma_byte_index_in_range(c, x2, y2);
    lemma_flat_index_injective(
        x as int,
        y as int,
        x2 as int,
        y2 as int,
        c.width as int,
    );
    assert(c2.pixel(x2, y2) =~= c.pixel(x2, y2));
}

/// Clear-read law: on an all-zero buffer every in-bounds read yields the
/// fixed clear value, transparent black.
pub proof fn lemma_clear_read(c: PixelCanvas, x: u32, y: u32)
    requires
        c.wf(),
        c.in_bounds(x, y),
        forall|k: int| 0 <= k < c.pixels@.len() ==> c.pixels@[k] == 0u8,
    ensures
        c.pixel(x, y) == seq![0u8, 0u8, 0u8, 0u8],
{
    lemma_byte_index_in_range(c, x, y);
    assert(c.pixel(x, y) =~= seq![0u8, 0u8, 0u8, 0u8]);
}

} // verus!

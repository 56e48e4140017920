//! A rectangular ARGB8888 image kept in a growable byte buffer.
//!
//! The buffer doubles as the shared-memory pool model: it may hold more
//! bytes than the current image needs, and it never shrinks, so buffer
//! views handed out for an earlier (larger) image stay inside it.

use vstd::prelude::*;

verus! {

/// Byte offset of pixel `(x, y)` in a row-major image of width `width`.
pub open spec fn pixel_index(width: int, x: int, y: int) -> int {
    4 * (y * width + x)
}

/// The four bytes of pixel `(x, y)` in image data `s` of width `width`.
pub open spec fn pixel_of(s: Seq<u8>, width: int, x: int, y: int) -> Seq<u8> {
    s.subrange(pixel_index(width, x, y), pixel_index(width, x, y) + 4)
}

/// Distinct in-bounds pixel cells occupy distinct row-major positions.
proof fn lemma_cell_distinct(w: int, x1: int, y1: int, x2: int, y2: int)
    requires
        0 <= x1 < w,
        0 <= x2 < w,
        0 <= y1,
        0 <= y2,
        !(x1 == x2 && y1 == y2),
    ensures
        y1 * w + x1 != y2 * w + x2,
{
    assert(y1 * w + x1 != y2 * w + x2) by (nonlinear_arith)
        requires
            0 <= x1 < w,
            0 <= x2 < w,
            0 <= y1,
            0 <= y2,
            !(x1 == x2 && y1 == y2),
    ;
}

/// The four bytes of an in-bounds pixel lie inside the image prefix of the
/// buffer.
pub proof fn lemma_pixel_index_bounds(w: int, h: int, x: int, y: int)
    requires
        0 <= x < w,
        0 <= y < h,
    ensures
        0 <= pixel_index(w, x, y),
        pixel_index(w, x, y) + 4 <= 4 * (w * h),
{
    assert(0 <= y * w + x && y * w + x < w * h) by (nonlinear_arith)
        requires
            0 <= x < w,
            0 <= y < h,
    ;
}

/// A width x height ARGB8888 image stored row-major in the prefix of a byte
/// buffer that may be larger than the image.
pub struct Canvas {
    /// Width of the current image, in pixels.
    pub width: u32,
    /// Height of the current image, in pixels.
    pub height: u32,
    /// The backing bytes; the image occupies the first
    /// `4 * width * height` of them.
    pub contents: Vec<u8>,
}

impl Canvas {
    /// The image dimensions stay small enough for all byte arithmetic to be
    /// done in `u32`, and the buffer holds at least the whole image.
    pub open spec fn wf(self) -> bool {
        &&& self.width <= 16400
        &&& self.height <= 16416
        &&& 4 * (self.width as int * self.height as int) <= self.contents@.len()
    }

    /// Wraps a byte buffer as an image of the given dimensions.
    pub fn new(width: u32, height: u32, contents: Vec<u8>) -> (r: Canvas)
        requires
            width <= 16400,
            height <= 16416,
            4 * (width as int * height as int) <= contents@.len(),
        ensures
            r.wf(),
            r.width == width,
            r.height == height,
            r.contents == contents,
    {
        Canvas { width, height, contents }
    }

    /// Writes one pixel of the image; every other byte of the buffer keeps
    /// its value.
    pub fn put_pixel(&mut self, x: u32, y: u32, val: [u8; 4])
        requires
            old(self).wf(),
            x < old(self).width,
            y < old(self).height,
        ensures
            final(self).wf(),
            final(self).width == old(self).width,
            final(self).height == old(self).height,
            final(self).contents@.len() == old(self).contents@.len(),
            forall|px: int, py: int|
                0 <= px < old(self).width && 0 <= py < old(self).height ==> #[trigger] pixel_of(
                    final(self).contents@,
                    old(self).width as int,
                    px,
                    py,
                ) == if px == x as int && py == y as int {
                    val@
                } else {
                    pixel_of(old(self).contents@, old(self).width as int, px, py)
                },
            forall|k: int|
                4 * (old(self).width as int * old(self).height as int) <= k < old(
                    self,
                ).contents@.len() ==> final(self).contents@[k] == old(self).contents@[k],
    {
        let ghost w = self.width as int;
        let ghost h = self.height as int;
        proof {
            lemma_pixel_index_bounds(w, h, x as int, y as int);
            assert(w * h <= 16400 * 16416) by (nonlinear_arith)
                requires
                    0 <= w <= 16400,
                    0 <= h <= 16416,
            ;
        }
        let idx = ((y * self.width + x) * 4) as usize;
        self.contents[idx] = val[0];
        self.contents[idx + 1] = val[1];
        self.contents[idx + 2] = val[2];
        self.contents[idx + 3] = val[3];
        proof {
            let nc = self.contents@;
            let oc = old(self).contents@;
            assert forall|px: int, py: int| 0 <= px < w && 0 <= py < h implies #[trigger] pixel_of(
                nc,
                w,
                px,
                py,
            ) == if px == x as int && py == y as int {
                val@
            } else {
                pixel_of(oc, w, px, py)
            } by {
                lemma_pixel_index_bounds(w, h, px, py);
                if px == x as int && py == y as int {
                    assert(pixel_of(nc, w, px, py) =~= val@);
                } else {
                    lemma_cell_distinct(w, px, py, x as int, y as int);
                    assert(pixel_of(nc, w, px, py) =~= pixel_of(oc, w, px, py));
                }
            }
        }
    }

    /// Fills a rectangle of the image with one color; every pixel outside
    /// the rectangle, and every byte beyond the image, keeps its value.
    pub fn fill_rect(&mut self, x0: u32, y0: u32, rw: u32, rh: u32, color: [u8; 4])
        requires
            old(self).wf(),
            x0 + rw <= old(self).width,
            y0 + rh <= old(self).height,
        ensures
            final(self).wf(),
            final(self).width == old(self).width,
            final(self).height == old(self).height,
            final(self).contents@.len() == old(self).contents@.len(),
            forall|px: int, py: int|
                0 <= px < old(self).width && 0 <= py < old(self).height ==> #[trigger] pixel_of(
                    final(self).contents@,
                    old(self).width as int,
                    px,
                    py,
                ) == if x0 <= px < x0 + rw && y0 <= py < y0 + rh {
                    color@
                } else {
                    pixel_of(old(self).contents@, old(self).width as int, px, py)
                },
            forall|k: int|
                4 * (old(self).width as int * old(self).height as int) <= k < old(
                    self,
                ).contents@.len() ==> final(self).contents@[k] == old(self).contents@[k],
    {
        let ghost w = self.width as int;
        let ghost h = self.height as int;
        let ghost orig = old(self).contents@;
        let mut xx = x0;
        while xx < x0 + rw
            invariant
                old(self).wf(),
                self.wf(),
                self.width == old(self).width,
                self.height == old(self).height,
                self.contents@.len() == old(self).contents@.len(),
                x0 <= xx <= x0 + rw,
                x0 + rw <= self.width,
                y0 + rh <= self.height,
                w == self.width as int,
                h == self.height as int,
                orig == old(self).contents@,
                forall|px: int, py: int|
                    0 <= px < w && 0 <= py < h ==> #[trigger] pixel_of(self.contents@, w, px, py)
                        == if x0 <= px < xx && y0 <= py < y0 + rh {
                        color@
                    } else {
                        pixel_of(orig, w, px, py)
                    },
                forall|k: int|
                    4 * (w * h) <= k < orig.len() ==> self.contents@[k] == orig[k],
            decreases x0 + rw - xx,
        {
            let mut yy = y0;
            while yy < y0 + rh
                invariant
                    old(self).wf(),
                    self.wf(),
                    self.width == old(self).width,
                    self.height == old(self).height,
                    self.contents@.len() == old(self).contents@.len(),
                    x0 <= xx < x0 + rw,
                    y0 <= yy <= y0 + rh,
                    x0 + rw <= self.width,
                    y0 + rh <= self.height,
                    w == self.width as int,
                    h == self.height as int,
                    orig == old(self).contents@,
                    forall|px: int, py: int|
                        0 <= px < w && 0 <= py < h ==> #[trigger] pixel_of(
                            self.contents@,
                            w,
                            px,
                            py,
                        ) == if (x0 <= px < xx && y0 <= py < y0 + rh) || (px == xx && y0 <= py
                            < yy) {
                            color@
                        } else {
                            pixel_of(orig, w, px, py)
                        },
                    forall|k: int|
                        4 * (w * h) <= k < orig.len() ==> self.contents@[k] == orig[k],
                decreases y0 + rh - yy,
            {
                self.put_pixel(xx, yy, color);
                yy = yy + 1;
            }
            xx = xx + 1;
        }
    }
}

} // verus!

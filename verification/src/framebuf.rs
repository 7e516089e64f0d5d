//! An in-memory RGB565 framebuffer.
//!
//! A simulated display keeps the whole screen in memory: the flush callback
//! copies each dirty rectangle into it, and a window backend then draws the
//! buffer. The copy is the part worth getting right — every pixel of the
//! rectangle lands at its place and nothing outside the rectangle moves —
//! and is verified here.

use vstd::prelude::*;
use vstd::arithmetic::div_mod::lemma_fundamental_div_mod_converse;

verus! {

/// Whether a pixel index falls inside the first `rows` rows of the
/// rectangle at `(x, y)` with width `w`, in a buffer `width` pixels wide.
pub open spec fn spec_in_rect(q: int, x: int, y: int, w: int, rows: int, width: int) -> bool {
    width > 0 && y <= q / width < y + rows && x <= q % width < x + w
}

/// The RGB565 value the rectangle's byte payload holds for the pixel at
/// index `q` of the buffer: big-endian pairs, row-major inside the
/// rectangle.
pub open spec fn spec_rect_pixel(q: int, x: int, y: int, w: int, width: int, data: Seq<u8>) -> int {
    let r = q / width - y;
    let c = q % width - x;
    data[(r * w + c) * 2] * 256 + data[(r * w + c) * 2 + 1]
}

/// A screen-sized pixel buffer, row-major.
pub struct Framebuffer {
    width: usize,
    height: usize,
    pixels: Vec<u16>,
}

impl Framebuffer {
    /// The buffer holds exactly one pixel per screen position.
    pub closed spec fn wf(&self) -> bool {
        self.pixels@.len() == self.width * self.height
    }

    pub closed spec fn spec_width(&self) -> usize {
        self.width
    }

    pub closed spec fn spec_height(&self) -> usize {
        self.height
    }

    /// The pixels, row-major.
    pub closed spec fn spec_pixels(&self) -> Seq<u16> {
        self.pixels@
    }

    /// A black framebuffer of the given dimensions.
    pub fn new(width: usize, height: usize) -> (r: Framebuffer)
        requires
            width * height <= usize::MAX,
        ensures
            r.wf(),
            r.spec_width() == width,
            r.spec_height() == height,
            forall|q: int| 0 <= q < r.spec_pixels().len() ==> #[trigger] r.spec_pixels()[q] == 0,
    {
        let mut pixels: Vec<u16> = Vec::new();
        let total = width * height;
        let mut i: usize = 0;
        while i < total
            invariant
                i <= total,
                pixels@.len() == i,
                forall|q: int| 0 <= q < i ==> #[trigger] pixels@[q] == 0,
            decreases total - i,
        {
            pixels.push(0);
            i = i + 1;
        }
        Framebuffer { width, height, pixels }
    }

    /// The width in pixels.
    pub fn width(&self) -> (r: usize)
        ensures
            r == self.spec_width(),
    {
        self.width
    }

    /// The height in pixels.
    pub fn height(&self) -> (r: usize)
        ensures
            r == self.spec_height(),
    {
        self.height
    }

    /// The pixel at a position.
    pub fn pixel(&self, x: usize, y: usize) -> (r: u16)
        requires
            self.wf(),
            x < self.spec_width(),
            y < self.spec_height(),
        ensures
            r == self.spec_pixels()[y * self.spec_width() + x],
    {
        let n = self.pixels.len();
        proof {
            assert(y * self.width + x < self.width * self.height) by (nonlinear_arith)
                requires
                    y < self.height,
                    x < self.width,
                    0 <= x,
                    0 <= y,
            ;
            assert(y * self.width + x < n);
        }
        self.pixels[y * self.width + x]
    }

    /// Paint every pixel one colour.
    pub fn fill(&mut self, color: u16)
        ensures
            final(self).wf() == old(self).wf(),
            final(self).spec_width() == old(self).spec_width(),
            final(self).spec_height() == old(self).spec_height(),
            final(self).spec_pixels().len() == old(self).spec_pixels().len(),
            forall|q: int|
                0 <= q < final(self).spec_pixels().len() ==> #[trigger] final(self).spec_pixels()[q]
                    == color,
    {
        let ghost n = self.pixels@.len();
        let mut i: usize = 0;
        while i < self.pixels.len()
            invariant
                i <= self.pixels@.len(),
                self.pixels@.len() == n,
                self.width == old(self).width,
                self.height == old(self).height,
                forall|q: int| 0 <= q < i ==> #[trigger] self.pixels@[q] == color,
            decreases self.pixels@.len() - i,
        {
            self.pixels[i] = color;
            i = i + 1;
        }
    }

    /// Copy a rectangle of big-endian RGB565 bytes into the buffer, as a
    /// flush callback does with the renderer's payload. Every pixel of the
    /// rectangle lands at its position; every pixel outside it keeps its
    /// value.
    pub fn blit(&mut self, x: usize, y: usize, w: usize, h: usize, data: &[u8])
        requires
            old(self).wf(),
            x + w <= old(self).spec_width(),
            y + h <= old(self).spec_height(),
            data@.len() == w * h * 2,
        ensures
            final(self).wf(),
            final(self).spec_width() == old(self).spec_width(),
            final(self).spec_height() == old(self).spec_height(),
            forall|q: int|
                0 <= q < final(self).spec_pixels().len() ==> #[trigger] final(self).spec_pixels()[q]
                    == if spec_in_rect(
                    q,
                    x as int,
                    y as int,
                    w as int,
                    h as int,
                    old(self).spec_width() as int,
                ) {
                    spec_rect_pixel(q, x as int, y as int, w as int, old(self).spec_width() as int, data@)
                } else {
                    old(self).spec_pixels()[q] as int
                },
    {
        let ghost width = self.width as int;
        let ghost pre = self.pixels@;
        let mut r: usize = 0;
        while r < h
            invariant
                r <= h,
                self.width == old(self).width,
                self.height == old(self).height,
                self.pixels@.len() == pre.len(),
                pre.len() == self.width * self.height,
                x + w <= self.width,
                y + h <= self.height,
                data@.len() == w * h * 2,
                width == self.width as int,
                pre == old(self).pixels@,
                forall|q: int|
                    0 <= q < self.pixels@.len() ==> #[trigger] self.pixels@[q] == if spec_in_rect(
                        q,
                        x as int,
                        y as int,
                        w as int,
                        r as int,
                        width,
                    ) {
                        spec_rect_pixel(q, x as int, y as int, w as int, width, data@)
                    } else {
                        pre[q] as int
                    },
            decreases h - r,
        {
            let mut c: usize = 0;
            while c < w
                invariant
                    r < h,
                    c <= w,
                    self.width == old(self).width,
                    self.height == old(self).height,
                    self.pixels@.len() == pre.len(),
                    pre.len() == self.width * self.height,
                    x + w <= self.width,
                    y + h <= self.height,
                    data@.len() == w * h * 2,
                    width == self.width as int,
                    forall|q: int|
                        0 <= q < self.pixels@.len() ==> #[trigger] self.pixels@[q]
                            == if spec_in_rect(q, x as int, y as int, w as int, r as int, width)
                            || (q / width == y + r && x <= q % width < x + c) {
                            spec_rect_pixel(q, x as int, y as int, w as int, width, data@)
                        } else {
                            pre[q] as int
                        },
                decreases w - c,
            {
                proof {
                    assert((r * w + c) * 2 + 1 < w * h * 2) by (nonlinear_arith)
                        requires
                            0 <= r < h,
                            0 <= c < w,
                    ;
                    assert((y + r) * width + (x + c) < width * (y + r) + width
                        <= width * self.height) by (nonlinear_arith)
                        requires
                            width == self.width as int,
                            0 <= y,
                            0 <= r,
                            0 <= x,
                            0 <= c,
                            x + c < width,
                            y + r < self.height,
                    ;
                }
                let dn = data.len();
                let n = self.pixels.len();
                proof {
                    assert((r * w + c) * 2 + 1 < dn);
                    assert((y + r) * self.width + (x + c) < n);
                }
                let src = (r * w + c) * 2;
                let value: u16 = (data[src] as u16) * 256 + (data[src + 1] as u16);
                let idx = (y + r) * self.width + (x + c);
                self.pixels[idx] = value;
                proof {
                    lemma_fundamental_div_mod_converse(
                        idx as int,
                        width,
                        y + r,
                        x + c,
                    );
                    assert(idx as int / width == y + r);
                    assert(idx as int % width == x + c);
                    assert forall|q: int|
                        0 <= q < self.pixels@.len() implies #[trigger] self.pixels@[q]
                        == if spec_in_rect(q, x as int, y as int, w as int, r as int, width) || (
                        q / width == y + r && x <= q % width < x + c + 1) {
                        spec_rect_pixel(q, x as int, y as int, w as int, width, data@)
                    } else {
                        pre[q] as int
                    } by {
                        if q == idx as int {
                            assert(spec_rect_pixel(q, x as int, y as int, w as int, width, data@)
                                == data@[(r * w + c) * 2] * 256 + data@[(r * w + c) * 2 + 1]);
                        } else {
                            vstd::arithmetic::div_mod::lemma_fundamental_div_mod(q, width);
                            assert(q == width * (q / width) + q % width);
                            if q / width == y + r && q % width == x + c {
                                assert(q == width * (y + r) + (x + c));
                                assert(idx as int == (y + r) * width + (x + c));
                                assert(width * (y + r) == (y + r) * width) by (nonlinear_arith);
                                assert(false);
                            }
                        }
                    }
                }
                c = c + 1;
            }
            proof {
                assert forall|q: int| 0 <= q < self.pixels@.len() implies (spec_in_rect(
                    q,
                    x as int,
                    y as int,
                    w as int,
                    r as int,
                    width,
                ) || (q / width == y + r && x <= q % width < x + w)) == spec_in_rect(
                    q,
                    x as int,
                    y as int,
                    w as int,
                    r + 1,
                    width,
                ) by {}
            }
            r = r + 1;
        }
    }
}

} // verus!

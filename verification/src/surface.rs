//! The display surface as a bounded buffer: a base handle, a width, a height
//! and one pixel per coordinate, reached only through accessors that check
//! the coordinate first.

use vstd::prelude::*;
use crate::color::Pixel;
use crate::protocol::NULL_BASE;

verus! {

/// What a surface is, as a mathematical value: its handle, its dimensions
/// and its pixels in row-major order.
pub struct SurfaceView {
    pub base: u64,
    pub width: int,
    pub height: int,
    pub pixels: Seq<Pixel>,
}

impl SurfaceView {
    /// The surface of `width` by `height` pixels behind `base` with every
    /// pixel zero, which is black.
    pub open spec fn blank(base: u64, width: int, height: int) -> SurfaceView {
        SurfaceView { base, width, height, pixels: Seq::new((width * height) as nat, |o: int| 0u32) }
    }

    /// There is exactly one pixel per coordinate.
    pub open spec fn wf(self) -> bool {
        &&& 0 <= self.width <= u16::MAX
        &&& 0 <= self.height <= u16::MAX
        &&& self.pixels.len() == self.width * self.height
    }

    /// A surface that may be drawn on: it has a base and is not empty.
    pub open spec fn is_valid(self) -> bool {
        self.base != NULL_BASE && self.width > 0 && self.height > 0
    }

    /// Whether `(x, y)` is a coordinate of the surface.
    pub open spec fn contains(self, x: int, y: int) -> bool {
        0 <= x < self.width && 0 <= y < self.height
    }

    /// The place of `(x, y)` in the row-major pixel sequence.
    pub open spec fn offset(self, x: int, y: int) -> int {
        y * self.width + x
    }

    /// The pixel at `(x, y)`.
    pub open spec fn pixel_at(self, x: int, y: int) -> Pixel {
        self.pixels[self.offset(x, y)]
    }

    /// The surface on which every coordinate that `mask` selects holds `p`,
    /// and every other pixel is as it was.
    pub open spec fn paint(self, mask: spec_fn(int, int) -> bool, p: Pixel) -> SurfaceView {
        SurfaceView {
            pixels: Seq::new(
                self.pixels.len(),
                |o: int| if mask(o % self.width, o / self.width) { p } else { self.pixels[o] },
            ),
            ..self
        }
    }

    /// The surface after a write of `p` to `(x, y)`: the write happens where
    /// the coordinate is on the surface, and is dropped where it is not.
    pub open spec fn put(self, x: int, y: int, p: Pixel) -> SurfaceView {
        if self.contains(x, y) {
            SurfaceView { pixels: self.pixels.update(self.offset(x, y), p), ..self }
        } else {
            self
        }
    }

    /// A coordinate of the surface has its own place in the pixel sequence,
    /// and the coordinate can be read back from the place.
    pub proof fn lemma_offset(self, x: int, y: int)
        requires
            self.wf(),
            self.contains(x, y),
        ensures
            0 <= y * self.width <= self.offset(x, y) < self.pixels.len(),
            self.offset(x, y) % self.width == x,
            self.offset(x, y) / self.width == y,
    {
        let w = self.width;
        let h = self.height;
        assert(0 <= y * w <= y * w + x < w * h && (y * w + x) % w == x && (y * w + x) / w == y)
            by (nonlinear_arith)
            requires
                0 <= x < w,
                0 <= y < h,
        {
            assert(y * w + x < (y + 1) * w);
            assert((y + 1) * w <= h * w);
            vstd::arithmetic::div_mod::lemma_fundamental_div_mod_converse(y * w + x, w, y, x);
        }
    }

    /// Every place in the pixel sequence belongs to one coordinate of the
    /// surface.
    pub proof fn lemma_coordinate(self, o: int)
        requires
            self.wf(),
            0 <= o < self.pixels.len(),
        ensures
            self.contains(o % self.width, o / self.width),
            self.offset(o % self.width, o / self.width) == o,
    {
        let w = self.width;
        let h = self.height;
        assert(w > 0) by (nonlinear_arith)
            requires
                0 <= o < w * h,
                0 <= w,
        ;
        vstd::arithmetic::div_mod::lemma_fundamental_div_mod(o, w);
        vstd::arithmetic::div_mod::lemma_mod_bound(o, w);
        assert(0 <= o / w < h) by (nonlinear_arith)
            requires
                0 <= o < w * h,
                w > 0,
                o == w * (o / w) + o % w,
                0 <= o % w < w,
        ;
        assert((o / w) * w == w * (o / w)) by (nonlinear_arith);
    }

    /// Painting changes no dimension, and sets exactly the selected pixels.
    pub proof fn lemma_paint(self, mask: spec_fn(int, int) -> bool, p: Pixel)
        requires
            self.wf(),
        ensures
            self.paint(mask, p).wf(),
            self.paint(mask, p).base == self.base,
            self.paint(mask, p).width == self.width,
            self.paint(mask, p).height == self.height,
            forall|x: int, y: int|
                self.contains(x, y) ==> #[trigger] self.paint(mask, p).pixel_at(x, y) == (if mask(
                    x,
                    y,
                ) {
                    p
                } else {
                    self.pixel_at(x, y)
                }),
    {
        assert forall|x: int, y: int| self.contains(x, y) implies #[trigger] self.paint(
            mask,
            p,
        ).pixel_at(x, y) == (if mask(x, y) {
            p
        } else {
            self.pixel_at(x, y)
        }) by {
            self.lemma_offset(x, y);
        }
    }

    /// Two masks that agree on every coordinate of the surface paint the
    /// same surface.
    pub proof fn lemma_paint_ext(
        self,
        m1: spec_fn(int, int) -> bool,
        m2: spec_fn(int, int) -> bool,
        p: Pixel,
    )
        requires
            self.wf(),
            forall|i: int, j: int| self.contains(i, j) ==> (#[trigger] m1(i, j) <==> m2(i, j)),
        ensures
            self.paint(m1, p) == self.paint(m2, p),
    {
        assert forall|o: int| 0 <= o < self.pixels.len() implies self.paint(m1, p).pixels[o]
            == self.paint(m2, p).pixels[o] by {
            self.lemma_coordinate(o);
            assert(m1(o % self.width, o / self.width) <==> m2(o % self.width, o / self.width));
        }
        assert(self.paint(m1, p).pixels =~= self.paint(m2, p).pixels);
    }

    /// Painting twice with one pixel value paints the union of the masks.
    pub proof fn lemma_paint_after_paint(
        self,
        m1: spec_fn(int, int) -> bool,
        m2: spec_fn(int, int) -> bool,
        both: spec_fn(int, int) -> bool,
        p: Pixel,
    )
        requires
            self.wf(),
            forall|i: int, j: int|
                self.contains(i, j) ==> (#[trigger] both(i, j) <==> (m1(i, j) || m2(i, j))),
        ensures
            self.paint(m1, p).paint(m2, p) == self.paint(both, p),
    {
        let twice = self.paint(m1, p).paint(m2, p);
        let once = self.paint(both, p);
        assert forall|o: int| 0 <= o < self.pixels.len() implies twice.pixels[o]
            == once.pixels[o] by {
            self.lemma_coordinate(o);
            assert(both(o % self.width, o / self.width) <==> (m1(o % self.width, o / self.width)
                || m2(o % self.width, o / self.width)));
        }
        assert(twice.pixels =~= once.pixels);
    }

    /// A write after a painting, with the same pixel value, is the painting
    /// of the mask with that one coordinate added.
    pub proof fn lemma_put_after_paint(
        self,
        m: spec_fn(int, int) -> bool,
        with: spec_fn(int, int) -> bool,
        x: int,
        y: int,
        p: Pixel,
    )
        requires
            self.wf(),
            forall|i: int, j: int|
                self.contains(i, j) ==> (#[trigger] with(i, j) <==> (m(i, j) || (i == x && j
                    == y))),
        ensures
            self.paint(m, p).put(x, y, p) == self.paint(with, p),
    {
        self.lemma_paint(m, p);
        self.paint(m, p).lemma_put_is_paint(x, y, p);
        self.lemma_paint_after_paint(m, |i: int, j: int| i == x && j == y, with, p);
    }

    /// Painting nothing changes nothing.
    pub proof fn lemma_paint_nothing(self, m: spec_fn(int, int) -> bool, p: Pixel)
        requires
            self.wf(),
            forall|i: int, j: int| self.contains(i, j) ==> !#[trigger] m(i, j),
        ensures
            self.paint(m, p) == self,
    {
        assert forall|o: int| 0 <= o < self.pixels.len() implies self.paint(m, p).pixels[o]
            == self.pixels[o] by {
            self.lemma_coordinate(o);
            assert(!m(o % self.width, o / self.width));
        }
        assert(self.paint(m, p).pixels =~= self.pixels);
    }

    /// A write is the painting of a single coordinate.
    pub proof fn lemma_put_is_paint(self, x: int, y: int, p: Pixel)
        requires
            self.wf(),
        ensures
            self.put(x, y, p) == self.paint(|i: int, j: int| i == x && j == y, p),
    {
        let mask = |i: int, j: int| i == x && j == y;
        let painted = self.paint(mask, p);
        let put = self.put(x, y, p);
        if self.contains(x, y) {
            self.lemma_offset(x, y);
        }
        assert forall|o: int| 0 <= o < put.pixels.len() implies put.pixels[o]
            == painted.pixels[o] by {
            self.lemma_coordinate(o);
        }
        assert(put.pixels =~= painted.pixels);
    }
}

/// The display surface: the handle it was made from and its pixels.
pub struct Surface {
    base: u64,
    width: u16,
    height: u16,
    pixels: Vec<Pixel>,
}

impl View for Surface {
    type V = SurfaceView;

    closed spec fn view(&self) -> SurfaceView {
        SurfaceView {
            base: self.base,
            width: self.width as int,
            height: self.height as int,
            pixels: self.pixels@,
        }
    }
}

impl Surface {
    /// The surface of `width` by `height` pixels behind `base`, all black.
    pub fn new(base: u64, width: u16, height: u16) -> (s: Surface)
        ensures
            s@.wf(),
            s@ == SurfaceView::blank(base, width as int, height as int),
    {
        assert(0 <= width * height <= 0xFFFF * 0xFFFF) by (nonlinear_arith)
            requires
                0 <= width <= 0xFFFF,
                0 <= height <= 0xFFFF,
        ;
        let count: usize = (width as usize) * (height as usize);
        let pixels: Vec<Pixel> = vec![0; count];
        assert(pixels@ =~= SurfaceView::blank(base, width as int, height as int).pixels);
        Surface { base, width, height, pixels }
    }

    /// The base handle; zero for a surface that was never acquired.
    pub fn base(&self) -> (b: u64)
        ensures
            b == self@.base,
    {
        self.base
    }

    /// The number of columns.
    pub fn width(&self) -> (w: u16)
        ensures
            w == self@.width,
    {
        self.width
    }

    /// The number of rows.
    pub fn height(&self) -> (h: u16)
        ensures
            h == self@.height,
    {
        self.height
    }

    /// Whether the surface may be drawn on.
    pub fn is_valid(&self) -> (v: bool)
        ensures
            v == self@.is_valid(),
    {
        self.base != NULL_BASE && self.width > 0 && self.height > 0
    }

    /// The pixels in row-major order, for presenting them.
    pub fn pixels(&self) -> (p: &Vec<Pixel>)
        ensures
            p@ == self@.pixels,
    {
        &self.pixels
    }

    /// Reads the pixel at `(x, y)`, or nothing where the coordinate is off
    /// the surface.
    pub fn get(&self, x: u16, y: u16) -> (p: Option<Pixel>)
        requires
            self@.wf(),
        ensures
            p == (if self@.contains(x as int, y as int) {
                Some(self@.pixel_at(x as int, y as int))
            } else {
                None
            }),
    {
        if x >= self.width || y >= self.height {
            return None;
        }
        let count: usize = self.pixels.len();
        proof {
            self@.lemma_offset(x as int, y as int);
            assert(y * self.width + x < count);
        }
        let idx: usize = (y as usize) * (self.width as usize) + (x as usize);
        Some(self.pixels[idx])
    }

    /// Writes `p` at `(x, y)` where the coordinate is on the surface, and
    /// does nothing where it is not. Says whether it wrote.
    pub fn put(&mut self, x: u16, y: u16, p: Pixel) -> (written: bool)
        requires
            old(self)@.wf(),
        ensures
            final(self)@.wf(),
            final(self)@ == old(self)@.put(x as int, y as int, p),
            written == old(self)@.contains(x as int, y as int),
    {
        if x >= self.width || y >= self.height {
            return false;
        }
        let count: usize = self.pixels.len();
        proof {
            self@.lemma_offset(x as int, y as int);
            assert(y * self.width + x < count);
        }
        let idx: usize = (y as usize) * (self.width as usize) + (x as usize);
        self.pixels.set(idx, p);
        true
    }
}

} // verus!

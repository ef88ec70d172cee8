//! The canvas: a fixed-size row-major grid of pixels with bounds-checked
//! access, per-pixel dirty tracking, and a merge operation that overlays
//! another canvas's dirty pixels onto this one.

use vstd::prelude::*;

use crate::dirty::dirty_clear;
use crate::dirty::dirty_contains;
use crate::dirty::dirty_contents;
use crate::dirty::dirty_insert;
use crate::dirty::dirty_new;
use crate::dirty::DirtySet;
use crate::pixel::RGBAPixel;

verus! {

/// A pixel coordinate along either axis.
pub type Coord = u32;

/// The mathematical content of a canvas: its geometry, the pixel grid in
/// row-major order, and the set of indices written since the dirty
/// markers were last cleared.
#[verifier::ext_equal]
pub struct CanvasView {
    pub width: nat,
    pub height: nat,
    pub pixels: Seq<RGBAPixel>,
    pub dirty: Set<usize>,
}

impl CanvasView {
    /// The grid holds exactly `width * height` pixels and every dirty
    /// index lies inside it.
    pub open spec fn wf(self) -> bool {
        &&& self.pixels.len() == self.width * self.height
        &&& forall|i: usize| self.dirty.contains(i) ==> i < self.width * self.height
    }

    /// Whether `(x, y)` names a cell of this canvas.
    pub open spec fn in_bounds(self, x: int, y: int) -> bool {
        0 <= x < self.width && 0 <= y < self.height
    }

    /// The row-major index of the cell `(x, y)`.
    pub open spec fn pix_index(self, x: int, y: int) -> int {
        y * self.width + x
    }

    /// The canvas after writing `p` at `(x, y)`: the cell takes the new
    /// value and its index is marked dirty.
    pub open spec fn write(self, x: int, y: int, p: RGBAPixel) -> CanvasView {
        CanvasView {
            pixels: self.pixels.update(self.pix_index(x, y), p),
            dirty: self.dirty.insert(self.pix_index(x, y) as usize),
            ..self
        }
    }
}

/// Row-major indexing never collides: inside the grid, two coordinate
/// pairs share an index only if they are the same pair.
pub proof fn lemma_pix_index_injective(v: CanvasView, x1: int, y1: int, x2: int, y2: int)
    requires
        v.in_bounds(x1, y1),
        v.in_bounds(x2, y2),
        v.pix_index(x1, y1) == v.pix_index(x2, y2),
    ensures
        x1 == x2 && y1 == y2,
{
    assert(y1 == y2 && x1 == x2) by (nonlinear_arith)
        requires
            0 <= x1 < v.width,
            0 <= x2 < v.width,
            0 <= y1,
            0 <= y2,
            y1 * v.width + x1 == y2 * v.width + x2,
    ;
}

/// The cell index is always inside the grid.
pub proof fn lemma_pix_index_in_range(v: CanvasView, x: int, y: int)
    requires
        v.in_bounds(x, y),
    ensures
        0 <= v.pix_index(x, y) < v.width * v.height,
{
    assert(0 <= y * v.width + x < v.width * v.height) by (nonlinear_arith)
        requires
            0 <= x < v.width,
            0 <= y < v.height,
    ;
}

/// A fixed-size grid of pixels with a parallel per-pixel dirty marker.
pub struct PixelflutImage {
    pub height: Coord,
    pub width: Coord,
    pixel_data: Vec<RGBAPixel>,
    pixels_dirty: DirtySet,
}

impl View for PixelflutImage {
    type V = CanvasView;

    closed spec fn view(&self) -> CanvasView {
        CanvasView {
            width: self.width as nat,
            height: self.height as nat,
            pixels: self.pixel_data@,
            dirty: dirty_contents(self.pixels_dirty),
        }
    }
}

impl PixelflutImage {
    /// The internal invariant: the view is well formed and the pixel
    /// count fits the machine's addressable range.
    pub open spec fn wf(self) -> bool {
        &&& self@.wf()
        &&& self@.width * self@.height <= usize::MAX
    }

    /// A canvas of the given geometry: every pixel transparent black,
    /// every dirty marker clear.
    pub fn new_with(width: Coord, height: Coord) -> (img: Self)
        requires
            width * height <= usize::MAX,
        ensures
            img.wf(),
            img@.width == width,
            img@.height == height,
            img@.pixels.len() == width * height,
            forall|i: int|
                0 <= i < img@.pixels.len() ==> img@.pixels[i] == (RGBAPixel {
                    r: 0u8,
                    g: 0u8,
                    b: 0u8,
                    a: 0u8,
                }),
            img@.dirty == Set::<usize>::empty(),
    {
        proof {
            assert(height * width == width * height) by (nonlinear_arith);
        }
        let total: usize = (height as usize) * (width as usize);
        PixelflutImage {
            height,
            width,
            pixel_data: vec![RGBAPixel::default(); total],
            pixels_dirty: dirty_new(total),
        }
    }

    /// Whether `(px, py)` names a cell of this canvas. Callers of
    /// [`Self::set_pixel`] and [`Self::get_pixel`] must check this first:
    /// those two demand an in-bounds coordinate.
    pub fn bounds_check(&self, px: Coord, py: Coord) -> (r: bool)
        ensures
            r == self@.in_bounds(px as int, py as int),
    {
        px < self.width && py < self.height
    }

    /// The row-major index of the in-bounds cell `(px, py)`.
    fn index(&self, px: Coord, py: Coord) -> (i: usize)
        requires
            self.wf(),
            self@.in_bounds(px as int, py as int),
        ensures
            i == self@.pix_index(px as int, py as int),
            i < self@.pixels.len(),
    {
        proof {
            lemma_pix_index_in_range(self@, px as int, py as int);
        }
        (py as usize) * (self.width as usize) + (px as usize)
    }

    /// Write `pixel` at the in-bounds cell `(px, py)` and mark it dirty.
    pub fn set_pixel(&mut self, px: Coord, py: Coord, pixel: RGBAPixel)
        requires
            old(self).wf(),
            old(self)@.in_bounds(px as int, py as int),
        ensures
            final(self).wf(),
            final(self)@ == old(self)@.write(px as int, py as int, pixel),
    {
        let i = self.index(px, py);
        self.pixel_data.set(i, pixel);
        dirty_insert(&mut self.pixels_dirty, i);
        proof {
            assert(final(self)@ =~= old(self)@.write(px as int, py as int, pixel));
        }
    }

    /// The pixel at the in-bounds cell `(px, py)`.
    pub fn get_pixel(&self, px: Coord, py: Coord) -> (p: RGBAPixel)
        requires
            self.wf(),
            self@.in_bounds(px as int, py as int),
        ensures
            p == self@.pixels[self@.pix_index(px as int, py as int)],
    {
        let i = self.index(px, py);
        self.pixel_data[i]
    }

    /// Overlay `other`'s dirty pixels onto this canvas, then drain
    /// `other`: every cell that is dirty in `other` takes `other`'s value
    /// here, every other cell keeps its value, and `other` is left with
    /// no dirty markers (its pixel values stay). This canvas's own dirty
    /// markers are untouched. Both canvases must share one geometry:
    /// a mismatch is a construction bug, not a recoverable condition.
    pub fn combine_with(&mut self, other: &mut PixelflutImage)
        requires
            old(self).wf(),
            old(other).wf(),
            old(other)@.width == old(self)@.width,
            old(other)@.height == old(self)@.height,
        ensures
            final(self).wf(),
            final(other).wf(),
            final(self)@.width == old(self)@.width,
            final(self)@.height == old(self)@.height,
            final(self)@.pixels.len() == old(self)@.pixels.len(),
            forall|i: int|
                0 <= i < final(self)@.pixels.len() ==> final(self)@.pixels[i] == (
                if old(other)@.dirty.contains(i as usize) {
                    old(other)@.pixels[i]
                } else {
                    old(self)@.pixels[i]
                }),
            final(self)@.dirty == old(self)@.dirty,
            final(other)@ == (CanvasView { dirty: Set::<usize>::empty(), ..old(other)@ }),
    {
        let len: usize = self.pixel_data.len();
        assert(other.pixel_data.len() == len);
        let mut i: usize = 0;
        while i < len
            invariant
                i <= len,
                self.wf(),
                *other == *old(other),
                len == self@.pixels.len(),
                len == other@.pixels.len(),
                self@.width == old(self)@.width,
                self@.height == old(self)@.height,
                self@.dirty == old(self)@.dirty,
                forall|j: int|
                    0 <= j < i ==> self@.pixels[j] == (if old(other)@.dirty.contains(j as usize) {
                        old(other)@.pixels[j]
                    } else {
                        old(self)@.pixels[j]
                    }),
                forall|j: int| i <= j < len ==> self@.pixels[j] == old(self)@.pixels[j],
            decreases len - i,
        {
            if dirty_contains(&other.pixels_dirty, i) {
                let p = other.pixel_data[i];
                self.pixel_data.set(i, p);
            }
            i = i + 1;
        }
        dirty_clear(&mut other.pixels_dirty);
        proof {
            assert(final(other)@ =~= (CanvasView { dirty: Set::<usize>::empty(), ..old(other)@ }));
        }
    }

    /// The byte count that [`Self::scanout`] produces: four bytes per pixel.
    pub fn scanout_size(&self) -> (n: usize)
        requires
            self.wf(),
            4 * self@.width * self@.height <= usize::MAX,
        ensures
            n == 4 * self@.pixels.len(),
    {
        proof {
            assert(4 * (self@.width * self@.height) == 4 * self@.width * self@.height)
                by (nonlinear_arith);
        }
        self.pixel_data.len() * 4
    }

    /// Serialize the canvas into `out` in row-major order, four bytes per
    /// pixel: red, green, blue, alpha. Whatever `out` held before is
    /// replaced.
    pub fn scanout(&self, out: &mut Vec<u8>)
        requires
            self.wf(),
            4 * self@.width * self@.height <= usize::MAX,
        ensures
            final(out)@.len() == 4 * self@.pixels.len(),
            forall|i: int|
                0 <= i < self@.pixels.len() ==> {
                    &&& final(out)@[4 * i] == self@.pixels[i].r
                    &&& final(out)@[4 * i + 1] == self@.pixels[i].g
                    &&& final(out)@[4 * i + 2] == self@.pixels[i].b
                    &&& final(out)@[4 * i + 3] == self@.pixels[i].a
                },
    {
        proof {
            assert(4 * (self@.width * self@.height) == 4 * self@.width * self@.height)
                by (nonlinear_arith);
        }
        let len: usize = self.pixel_data.len();
        out.clear();
        let mut i: usize = 0;
        while i < len
            invariant
                i <= len,
                len == self@.pixels.len(),
                4 * len <= usize::MAX,
                out@.len() == 4 * i,
                forall|j: int|
                    0 <= j < i ==> {
                        &&& out@[4 * j] == self@.pixels[j].r
                        &&& out@[4 * j + 1] == self@.pixels[j].g
                        &&& out@[4 * j + 2] == self@.pixels[j].b
                        &&& out@[4 * j + 3] == self@.pixels[j].a
                    },
            decreases len - i,
        {
            let p = self.pixel_data[i];
            out.push(p.r);
            out.push(p.g);
            out.push(p.b);
            out.push(p.a);
            i = i + 1;
        }
    }
}

/// Law: inside the grid, writing a pixel and then reading the same
/// coordinate yields the written value; every other cell, and the
/// geometry, are unchanged; and the written canvas stays well formed with
/// exactly the written index newly dirty.
pub proof fn lemma_set_then_get(v: CanvasView, x: int, y: int, p: RGBAPixel)
    requires
        v.wf(),
        v.in_bounds(x, y),
    ensures
        v.write(x, y, p).wf(),
        v.write(x, y, p).width == v.width,
        v.write(x, y, p).height == v.height,
        v.write(x, y, p).pixels[v.pix_index(x, y)] == p,
        forall|x2: int, y2: int|
            v.in_bounds(x2, y2) && (x2 != x || y2 != y) ==> v.write(x, y, p).pixels[v.pix_index(
                x2,
                y2,
            )] == v.pixels[v.pix_index(x2, y2)],
        v.write(x, y, p).dirty == v.dirty.insert(v.pix_index(x, y) as usize),
{
    lemma_pix_index_in_range(v, x, y);
    assert forall|x2: int, y2: int|
        v.in_bounds(x2, y2) && (x2 != x || y2 != y) implies v.write(x, y, p).pixels[v.pix_index(
        x2,
        y2,
    )] == v.pixels[v.pix_index(x2, y2)] by {
        lemma_pix_index_in_range(v, x2, y2);
        if v.pix_index(x2, y2) == v.pix_index(x, y) {
            lemma_pix_index_injective(v, x, y, x2, y2);
        }
    }
}

} // verus!

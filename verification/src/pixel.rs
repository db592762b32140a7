//! Square pixel grids: a read-only view over a borrowed flat buffer
//! (`PixelArray`) and a writable grid that owns its flat buffer
//! (`PixelArrayMut`). Both address their `width * width` elements through
//! the 2-D index `(x, y) -> x * width + y`.

use vstd::prelude::*;
use vstd::slice::slice_index_get;

verus! {

/// `(x, y) -> x * width + y`, the flat position of a grid coordinate.
pub open spec fn spec_grid_index(x: int, y: int, width: int) -> int {
    x * width + y
}

/// Every in-range coordinate of a `width * width` grid maps to a flat
/// position below `width * width`: a grid over a square buffer accepts all
/// coordinates in `[0, width) x [0, width)`.
pub proof fn lemma_grid_index_in_bounds(x: int, y: int, width: int)
    by (nonlinear_arith)
    requires
        0 <= x < width,
        0 <= y < width,
    ensures
        0 <= spec_grid_index(x, y, width) < width * width,
{
}

/// A read-only square view over a borrowed flat buffer. Borrowed for the
/// duration of one render call; never stored.
pub struct PixelArray<'a, T> {
    pixels: &'a [T],
    width: usize,
}

impl<'a, T> View for PixelArray<'a, T> {
    type V = Seq<T>;

    closed spec fn view(&self) -> Seq<T> {
        self.pixels@
    }
}

impl<'a, T> PixelArray<'a, T> {
    pub closed spec fn spec_width(&self) -> usize {
        self.width
    }

    /// The grid invariant: the flat buffer holds exactly `width * width`
    /// elements.
    pub open spec fn wf(&self) -> bool {
        self@.len() == self.spec_width() * self.spec_width()
    }

    /// A buffer of any length other than `width * width` is not a square and
    /// is rejected before construction.
    pub fn new(pixels: &'a [T], width: usize) -> (g: PixelArray<'a, T>)
        requires
            pixels@.len() == width * width,
        ensures
            g@ == pixels@,
            g.spec_width() == width,
            g.wf(),
    {
        PixelArray { pixels, width }
    }

    /// Checked construction: succeeds exactly when the buffer is a
    /// `width * width` square.
    pub fn try_new(pixels: &'a [T], width: usize) -> (g: Option<PixelArray<'a, T>>)
        requires
            width * width <= usize::MAX,
        ensures
            g is Some <==> pixels@.len() == width * width,
            g is Some ==> g->Some_0@ == pixels@ && g->Some_0.spec_width() == width
                && g->Some_0.wf(),
    {
        let square: usize = width * width;
        if pixels.len() == square {
            Some(PixelArray { pixels, width })
        } else {
            None
        }
    }

    pub fn width(&self) -> (w: usize)
        ensures
            w == self.spec_width(),
    {
        self.width
    }

    pub fn len(&self) -> (n: usize)
        ensures
            n == self@.len(),
    {
        self.pixels.len()
    }

    /// The flat position of grid coordinate `(x, y)`.
    pub fn index(&self, point: (usize, usize)) -> (i: usize)
        requires
            self.wf(),
            point.0 < self.spec_width(),
            point.1 < self.spec_width(),
        ensures
            i == spec_grid_index(point.0 as int, point.1 as int, self.spec_width() as int),
            i < self@.len(),
    {
        let (x, y) = point;
        let total: usize = self.pixels.len();
        proof {
            lemma_grid_index_in_bounds(x as int, y as int, self.width as int);
            assert(spec_grid_index(x as int, y as int, self.width as int) < total);
        }
        x * self.width + y
    }

    /// The element at grid coordinate `(x, y)`.
    pub fn get(&self, point: (usize, usize)) -> (v: T) where T: Copy
        requires
            self.wf(),
            point.0 < self.spec_width(),
            point.1 < self.spec_width(),
        ensures
            v == self@[spec_grid_index(point.0 as int, point.1 as int, self.spec_width() as int)],
    {
        let i = self.index(point);
        *slice_index_get(self.pixels, i)
    }
}

/// A writable square grid that owns its flat buffer for the duration of one
/// draw call; the buffer is then handed back to whoever installs the image.
pub struct PixelArrayMut<T> {
    pixels: Vec<T>,
    width: usize,
}

impl<T> View for PixelArrayMut<T> {
    type V = Seq<T>;

    closed spec fn view(&self) -> Seq<T> {
        self.pixels@
    }
}

impl<T> PixelArrayMut<T> {
    pub closed spec fn spec_width(&self) -> usize {
        self.width
    }

    /// The grid invariant: the flat buffer holds exactly `width * width`
    /// elements.
    pub open spec fn wf(&self) -> bool {
        self@.len() == self.spec_width() * self.spec_width()
    }

    /// A buffer of any length other than `width * width` is not a square and
    /// is rejected before construction.
    pub fn new(pixels: Vec<T>, width: usize) -> (g: PixelArrayMut<T>)
        requires
            pixels@.len() == width * width,
        ensures
            g@ == pixels@,
            g.spec_width() == width,
            g.wf(),
    {
        PixelArrayMut { pixels, width }
    }

    /// Checked construction: succeeds exactly when the buffer is a
    /// `width * width` square; a rejected buffer is returned unchanged.
    pub fn try_new(pixels: Vec<T>, width: usize) -> (g: Result<PixelArrayMut<T>, Vec<T>>)
        requires
            width * width <= usize::MAX,
        ensures
            g is Ok <==> pixels@.len() == width * width,
            g is Ok ==> g->Ok_0@ == pixels@ && g->Ok_0.spec_width() == width && g->Ok_0.wf(),
            g is Err ==> g->Err_0@ == pixels@,
    {
        let square: usize = width * width;
        if pixels.len() == square {
            Ok(PixelArrayMut { pixels, width })
        } else {
            Err(pixels)
        }
    }

    pub fn width(&self) -> (w: usize)
        ensures
            w == self.spec_width(),
    {
        self.width
    }

    pub fn len(&self) -> (n: usize)
        ensures
            n == self@.len(),
    {
        self.pixels.len()
    }

    /// The flat position of grid coordinate `(x, y)`.
    pub fn index(&self, point: (usize, usize)) -> (i: usize)
        requires
            self.wf(),
            point.0 < self.spec_width(),
            point.1 < self.spec_width(),
        ensures
            i == spec_grid_index(point.0 as int, point.1 as int, self.spec_width() as int),
            i < self@.len(),
    {
        let (x, y) = point;
        let total: usize = self.pixels.len();
        proof {
            lemma_grid_index_in_bounds(x as int, y as int, self.width as int);
            assert(spec_grid_index(x as int, y as int, self.width as int) < total);
        }
        x * self.width + y
    }

    /// The element at grid coordinate `(x, y)`.
    pub fn get(&self, point: (usize, usize)) -> (v: T) where T: Copy
        requires
            self.wf(),
            point.0 < self.spec_width(),
            point.1 < self.spec_width(),
        ensures
            v == self@[spec_grid_index(point.0 as int, point.1 as int, self.spec_width() as int)],
    {
        let i = self.index(point);
        self.pixels[i]
    }

    /// Overwrite the element at grid coordinate `(x, y)`.
    pub fn set(&mut self, point: (usize, usize), value: T)
        requires
            old(self).wf(),
            point.0 < old(self).spec_width(),
            point.1 < old(self).spec_width(),
        ensures
            final(self)@ == old(self)@.update(
                spec_grid_index(point.0 as int, point.1 as int, old(self).spec_width() as int),
                value,
            ),
            final(self).spec_width() == old(self).spec_width(),
            final(self).wf(),
    {
        let i = self.index(point);
        self.pixels[i] = value;
    }

    /// Hand the flat buffer back, for the collaborator that takes ownership
    /// of the finished image.
    pub fn into_pixels(self) -> (v: Vec<T>)
        ensures
            v@ == self@,
    {
        self.pixels
    }
}

} // verus!

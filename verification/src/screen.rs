use vstd::prelude::*;
use vstd::map::*;

verus! {

/// A grid of `w` by `h` pixels, all unset.
pub open spec fn blank_grid(w: int, h: int) -> Map<(int, int), bool> {
    Map::new(|p: (int, int)| 0 <= p.0 < w && 0 <= p.1 < h, |p: (int, int)| false)
}

/// What the execution engine requires of the display capability. The
/// display owns the wrap policy at its edges: a toggle outside the grid
/// lands on the coordinates taken modulo the dimensions.
pub trait ScreenDraw: Sized {
    /// Width of the grid in pixels.
    spec fn sd_width(&self) -> int;

    /// Height of the grid in pixels.
    spec fn sd_height(&self) -> int;

    /// The pixel grid, keyed by (x, y).
    spec fn pix(&self) -> Map<(int, int), bool>;

    /// The implementation's own well-formedness.
    spec fn inv(&self) -> bool;

    /// XOR a single pixel and report whether it was previously set.
    fn toggle_pixel(&mut self, x: usize, y: usize) -> (was_set: bool)
        requires
            old(self).inv(),
        ensures
            final(self).inv(),
            final(self).sd_width() == old(self).sd_width(),
            final(self).sd_height() == old(self).sd_height(),
            was_set == old(self).pix()[(x as int % old(self).sd_width(), y as int % old(self).sd_height())],
            final(self).pix() == old(self).pix().insert(
                (x as int % old(self).sd_width(), y as int % old(self).sd_height()),
                !was_set,
            ),
    ;

    /// Flush pending draw operations to the visible surface; the grid
    /// itself does not change.
    fn repaint(&mut self)
        requires
            old(self).inv(),
        ensures
            final(self).inv(),
            final(self).sd_width() == old(self).sd_width(),
            final(self).sd_height() == old(self).sd_height(),
            final(self).pix() == old(self).pix(),
    ;

    /// Reset every pixel to unset.
    fn clear(&mut self)
        requires
            old(self).inv(),
        ensures
            final(self).inv(),
            final(self).sd_width() == old(self).sd_width(),
            final(self).sd_height() == old(self).sd_height(),
            final(self).pix() == blank_grid(old(self).sd_width(), old(self).sd_height()),
    ;

    fn get_width(&self) -> (r: usize)
        requires
            self.inv(),
        ensures
            r as int == self.sd_width(),
    ;

    fn get_height(&self) -> (r: usize)
        requires
            self.inv(),
        ensures
            r as int == self.sd_height(),
    ;
}

/// Flat indices of distinct in-range coordinates differ.
proof fn lemma_flat_injective(a: int, b: int, c: int, d: int, w: int)
    by (nonlinear_arith)
    requires
        0 <= a < w,
        0 <= c < w,
        0 <= b,
        0 <= d,
        (a, b) != ((c, d)),
    ensures
        b * w + a != d * w + c,
{
}

/// A flat index computed from in-range coordinates stays within the grid.
proof fn lemma_flat_in_bounds(a: int, b: int, w: int, h: int)
    by (nonlinear_arith)
    requires
        0 <= a < w,
        0 <= b < h,
    ensures
        0 <= b * w + a < w * h,
{
}

/// An in-memory monochrome bitmap: the display capability verified against
/// its own pixel store. Toggles wrap at the edges; repaint has nothing to
/// flush.
#[derive(Debug)]
pub struct BitmapScreen {
    pub width: usize,
    pub height: usize,
    pub pixels: Vec<bool>,
}

impl BitmapScreen {
    pub open spec fn wf(self) -> bool {
        &&& 0 < self.width
        &&& 0 < self.height
        &&& self.pixels@.len() == self.width * self.height
    }

    pub open spec fn grid(self) -> Map<(int, int), bool> {
        Map::new(
            |p: (int, int)| 0 <= p.0 < self.width && 0 <= p.1 < self.height,
            |p: (int, int)| self.pixels@[p.1 * self.width + p.0],
        )
    }

    pub fn new(width: usize, height: usize) -> (r: BitmapScreen)
        requires
            0 < width,
            0 < height,
            width * height <= usize::MAX,
        ensures
            r.wf(),
            r.width == width,
            r.height == height,
            r.grid() == blank_grid(width as int, height as int),
    {
        let mut pixels: Vec<bool> = Vec::new();
        let total: usize = width * height;
        let mut j: usize = 0;
        while j < total
            invariant
                j <= total,
                pixels@.len() == j,
                forall|k: int| 0 <= k < j ==> !pixels@[k],
            decreases total - j,
        {
            pixels.push(false);
            j = j + 1;
        }
        let r = BitmapScreen { width, height, pixels };
        proof {
            assert_maps_equal!(r.grid(), blank_grid(width as int, height as int), p => {
                if 0 <= p.0 && p.0 < width && 0 <= p.1 && p.1 < height {
                    lemma_flat_in_bounds(p.0, p.1, width as int, height as int);
                }
            });
        }
        r
    }

    /// Read one pixel; for hosts that render the bitmap.
    pub fn get_pixel(&self, x: usize, y: usize) -> (r: bool)
        requires
            self.wf(),
            x < self.width,
            y < self.height,
        ensures
            r == self.grid()[(x as int, y as int)],
    {
        let total = self.pixels.len();
        proof {
            lemma_flat_in_bounds(x as int, y as int, self.width as int, self.height as int);
            assert((y as int) * (self.width as int) + (x as int) < total);
        }
        self.pixels[y * self.width + x]
    }
}

impl ScreenDraw for BitmapScreen {
    open spec fn sd_width(&self) -> int {
        self.width as int
    }

    open spec fn sd_height(&self) -> int {
        self.height as int
    }

    open spec fn pix(&self) -> Map<(int, int), bool> {
        self.grid()
    }

    open spec fn inv(&self) -> bool {
        self.wf()
    }

    fn toggle_pixel(&mut self, x: usize, y: usize) -> (was_set: bool)
    {
        let xx = x % self.width;
        let yy = y % self.height;
        let total = self.pixels.len();
        proof {
            lemma_flat_in_bounds(xx as int, yy as int, self.width as int, self.height as int);
            assert((yy as int) * (self.width as int) + (xx as int) < total);
        }
        let idx = yy * self.width + xx;
        let was = self.pixels[idx];
        self.pixels.set(idx, !was);
        proof {
            let w = self.width as int;
            let h = self.height as int;
            assert_maps_equal!(self.grid(), old(self).grid().insert((xx as int, yy as int), !was), p => {
                if 0 <= p.0 && p.0 < w && 0 <= p.1 && p.1 < h {
                    lemma_flat_in_bounds(p.0, p.1, w, h);
                    if (p.0, p.1) != ((xx as int, yy as int)) {
                        lemma_flat_injective(p.0, p.1, xx as int, yy as int, w);
                    }
                }
            });
        }
        was
    }

    fn repaint(&mut self)
    {
    }

    fn clear(&mut self)
    {
        let total = self.pixels.len();
        let mut j: usize = 0;
        while j < total
            invariant
                j <= total,
                self.pixels@.len() == total,
                self.width == old(self).width,
                self.height == old(self).height,
                forall|k: int| 0 <= k < j ==> !self.pixels@[k],
            decreases total - j,
        {
            self.pixels.set(j, false);
            j = j + 1;
        }
        proof {
            let w = self.width as int;
            let h = self.height as int;
            assert_maps_equal!(self.grid(), blank_grid(w, h), p => {
                if 0 <= p.0 && p.0 < w && 0 <= p.1 && p.1 < h {
                    lemma_flat_in_bounds(p.0, p.1, w, h);
                }
            });
        }
    }

    fn get_width(&self) -> (r: usize)
    {
        self.width
    }

    fn get_height(&self) -> (r: usize)
    {
        self.height
    }
}

} // verus!

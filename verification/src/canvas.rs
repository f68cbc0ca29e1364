use vstd::prelude::*;

verus! {

use crate::color::{Color, ColorView, cv_black};
use crate::fixed::{SCALE, tdiv};

/// Mathematical image of a canvas: its size and the row-major run of
/// pixels.
pub ghost struct CanvasView {
    pub width: int,
    pub height: int,
    pub grid: Seq<Color>,
}

/// One color channel quantized for the image sink: clamped to the unit
/// interval, scaled by 256 and truncated to a byte.
pub open spec fn spec_clamp_byte(c: int) -> int {
    if c < 0 {
        0
    } else if c >= SCALE as int {
        255
    } else {
        tdiv(c * 256, SCALE as int)
    }
}

/// A pixel buffer in row-major order, top to bottom and left to right.
#[derive(Debug)]
pub struct Canvas {
    width: usize,
    height: usize,
    canvas: Vec<Color>,
}

impl Canvas {
    #[verifier::type_invariant]
    spec fn twf(self) -> bool {
        self.canvas@.len() == self.width * self.height
    }
}

impl View for Canvas {
    type V = CanvasView;

    closed spec fn view(&self) -> CanvasView {
        CanvasView { width: self.width as int, height: self.height as int, grid: self.canvas@ }
    }
}

impl Canvas {
    /// A black canvas of the given size.
    pub fn new(width: usize, height: usize) -> (r: Canvas)
        requires
            width * height <= usize::MAX,
        ensures
            r@.width == width,
            r@.height == height,
            r@.grid.len() == width * height,
            forall|p: int| 0 <= p < r@.grid.len() ==> (#[trigger] r@.grid[p])@ == cv_black(),
    {
        let count = width.checked_mul(height).unwrap();
        let mut v: Vec<Color> = Vec::new();
        let mut i: usize = 0;
        while i < count
            invariant
                0 <= i <= count,
                v@.len() == i,
                forall|p: int| 0 <= p < i ==> (#[trigger] v@[p])@ == cv_black(),
            decreases count - i,
        {
            v.push(crate::color::black());
            i = i + 1;
        }
        Canvas { width, height, canvas: v }
    }

    /// The width in pixels.
    pub fn width(&self) -> (r: usize)
        ensures
            r == self@.width,
    {
        self.width
    }

    /// The height in pixels.
    pub fn height(&self) -> (r: usize)
        ensures
            r == self@.height,
    {
        self.height
    }

    /// The color at the given pixel.
    pub fn pixel_at(&self, x: usize, y: usize) -> (r: Color)
        requires
            x < self@.width,
            y < self@.height,
        ensures
            r == self@.grid[y * self@.width + x],
    {
        proof {
            use_type_invariant(self);
            assert((y as int) * (self.width as int) + (x as int) < (self.width as int) * (
            self.height as int)) by (nonlinear_arith)
                requires
                    0 <= x < self.width as int,
                    0 <= y < self.height as int,
            ;
        }
        let n = self.canvas.len();
        proof {
            assert((y as int) * (self.width as int) + (x as int) < n as int);
        }
        self.canvas[y * self.width + x]
    }

    /// Overwrite the color at the given pixel; every other pixel stays.
    pub fn write_pixel(&mut self, x: usize, y: usize, c: Color)
        requires
            x < old(self)@.width,
            y < old(self)@.height,
        ensures
            final(self)@.width == old(self)@.width,
            final(self)@.height == old(self)@.height,
            final(self)@.grid == old(self)@.grid.update(y * old(self)@.width + x, c),
    {
        proof {
            use_type_invariant(&*self);
            assert((y as int) * (self.width as int) + (x as int) < (self.width as int) * (
            self.height as int)) by (nonlinear_arith)
                requires
                    0 <= x < self.width as int,
                    0 <= y < self.height as int,
            ;
        }
        let n0 = self.canvas.len();
        proof {
            assert((y as int) * (self.width as int) + (x as int) < n0 as int);
        }
        let idx = y * self.width + x;
        // The buffer is rebuilt rather than patched in place: the length
        // invariant is easiest to carry through a fresh vector.
        let mut v: Vec<Color> = Vec::new();
        let mut p: usize = 0;
        let n = self.canvas.len();
        while p < n
            invariant
                0 <= p <= n,
                n == self.canvas@.len(),
                idx < n,
                v@.len() == p,
                forall|q: int|
                    0 <= q < p ==> v@[q] == (if q == idx {
                        c
                    } else {
                        self.canvas@[q]
                    }),
            decreases n - p,
        {
            if p == idx {
                v.push(c);
            } else {
                v.push(self.canvas[p]);
            }
            p = p + 1;
        }
        proof {
            assert(v@ =~= self.canvas@.update(idx as int, c));
        }
        self.canvas = v;
    }

    /// The pixel run quantized to bytes, three per pixel.
    pub fn to_rgb_bytes(&self) -> (r: Vec<u8>)
        ensures
            r@.len() == 3 * self@.grid.len(),
            forall|p: int|
                0 <= p < self@.grid.len() ==> r@[3 * p] == spec_clamp_byte(
                    (#[trigger] self@.grid[p])@.r,
                ) && r@[3 * p + 1] == spec_clamp_byte(self@.grid[p]@.g) && r@[3 * p + 2]
                    == spec_clamp_byte(self@.grid[p]@.b),
    {
        let mut bytes: Vec<u8> = Vec::new();
        let mut i: usize = 0;
        let n = self.canvas.len();
        while i < n
            invariant
                0 <= i <= n,
                n == self@.grid.len(),
                bytes@.len() == 3 * i,
                forall|p: int|
                    0 <= p < i ==> bytes@[3 * p] == spec_clamp_byte(
                        (#[trigger] self@.grid[p])@.r,
                    ) && bytes@[3 * p + 1] == spec_clamp_byte(self@.grid[p]@.g) && bytes@[3 * p
                        + 2] == spec_clamp_byte(self@.grid[p]@.b),
            decreases n - i,
        {
            let c = self.canvas[i];
            bytes.push(Canvas::clamp_to_byte(c.r));
            bytes.push(Canvas::clamp_to_byte(c.g));
            bytes.push(Canvas::clamp_to_byte(c.b));
            i = i + 1;
        }
        bytes
    }

    /// Clamp one channel into a byte as the image sink expects it.
    fn clamp_to_byte(color_component: crate::fixed::Scalar) -> (r: u8)
        ensures
            r == spec_clamp_byte(color_component@),
    {
        let units = color_component.units();
        if units < 0 {
            0u8
        } else if units >= SCALE {
            255u8
        } else {
            let scaled = units.checked_mul(256).unwrap().checked_div(SCALE).unwrap();
            proof {
                assert(tdiv(units as int * 256, SCALE as int) < 256) by (nonlinear_arith)
                    requires
                        0 <= units as int,
                        (units as int) < SCALE as int,
                        tdiv(units as int * 256, SCALE as int) == (units as int * 256) / (
                        SCALE as int),
                ;
            }
            scaled as u8
        }
    }
}

} // verus!

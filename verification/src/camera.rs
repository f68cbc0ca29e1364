use vstd::prelude::*;

verus! {

use crate::canvas::{Canvas, CanvasView};
use crate::fixed::{
    Scalar, clip, fx_abs, fx_add, fx_sub, fx_mul, fx_div, fx_tan, SCALE, EPSILON,
    lemma_fx_mul_basics,
};
use crate::matrix::{Matrix, MatrixView, mv_affine, mv_identity, mv_inverse, mv_mul_tuple, spec_det};
use crate::ray::{Ray, RayView, rv_wf};
use crate::shape::mv_affinize;
use crate::tuple::{Tuple, TupleView, tv_normalize, tv_origo, tv_sub};
use crate::world::{World, spec_color_at_ok};
use core::ops::Neg;

/// Mathematical image of a camera: the pixel counts, the field of view, the
/// derived pixel geometry, and the transform with its cached inverse.
pub ghost struct CameraView {
    pub hsize: int,
    pub vsize: int,
    pub field_of_view: int,
    pub pixel_size: int,
    pub transform: MatrixView,
    pub half_width: int,
    pub half_height: int,
    pub inverse_transform: MatrixView,
}

/// The camera a construction call yields: the half extents follow from the
/// field of view and the aspect ratio, the pixel size from the half width.
pub open spec fn spec_camera(
    hsize: int,
    vsize: int,
    fov: int,
    transform: MatrixView,
    inverse_transform: MatrixView,
) -> CameraView {
    let half_view = fx_tan(fx_div(fov, 2 * SCALE as int));
    let aspect = fx_div(clip(hsize * SCALE), clip(vsize * SCALE));
    let half_width = if aspect >= SCALE as int {
        half_view
    } else {
        fx_mul(half_view, aspect)
    };
    let half_height = if aspect >= SCALE as int {
        fx_div(half_view, aspect)
    } else {
        half_view
    };
    CameraView {
        hsize,
        vsize,
        field_of_view: fov,
        pixel_size: fx_div(fx_mul(half_width, 2 * SCALE as int), clip(hsize * SCALE)),
        transform,
        half_width,
        half_height,
        inverse_transform,
    }
}

/// The ray a camera casts through the middle of one pixel.
pub open spec fn spec_ray_for_pixel(c: CameraView, px: int, py: int) -> RayView {
    let xoffset = fx_mul(fx_add(clip(px * SCALE), 500_000_000), c.pixel_size);
    let yoffset = fx_mul(fx_add(clip(py * SCALE), 500_000_000), c.pixel_size);
    let world_x = fx_sub(c.half_width, xoffset);
    let world_y = fx_sub(c.half_height, yoffset);
    let pixel = mv_mul_tuple(
        c.inverse_transform,
        TupleView { x: world_x, y: world_y, z: -(SCALE as int), w: SCALE as int },
    );
    let origin = mv_mul_tuple(c.inverse_transform, tv_origo());
    let direction = tv_normalize(tv_sub(pixel, origin));
    RayView { origin, direction }
}

/// A pinhole camera: pixel counts, field of view and view transform, with
/// the derived pixel geometry computed once at construction.
#[derive(Debug)]
pub struct Camera {
    hsize: usize,
    vsize: usize,
    field_of_view: Scalar,
    pixel_size: Scalar,
    transform: Matrix,
    half_width: Scalar,
    half_height: Scalar,
    inverse_transform: Matrix,
}

impl Camera {
    #[verifier::type_invariant]
    spec fn twf(self) -> bool {
        mv_affine(self.inverse_transform@)
    }
}

impl View for Camera {
    type V = CameraView;

    closed spec fn view(&self) -> CameraView {
        CameraView {
            hsize: self.hsize as int,
            vsize: self.vsize as int,
            field_of_view: self.field_of_view@,
            pixel_size: self.pixel_size@,
            transform: self.transform@,
            half_width: self.half_width@,
            half_height: self.half_height@,
            inverse_transform: self.inverse_transform@,
        }
    }
}

impl Camera {
    /// A camera over a pixel grid with the given field of view; a transform
    /// must be affine and must not be near-singular.  The inverse is
    /// computed once, here.
    pub fn new(hsize: usize, vsize: usize, field_of_view: Scalar, transform: Option<Matrix>) -> (r:
        Camera)
        requires
            match transform {
                Some(t) => fx_abs(spec_det(t@)) >= EPSILON as int && mv_affine(t@),
                None => true,
            },
        ensures
            r@ == spec_camera(
                hsize as int,
                vsize as int,
                field_of_view@,
                match transform {
                    Some(t) => t@,
                    None => mv_identity(),
                },
                match transform {
                    Some(t) => mv_affinize(mv_inverse(t@)),
                    None => mv_identity(),
                },
            ),
    {
        let half_view = (field_of_view / Scalar::from_int(2)).tan();
        let aspect_ratio = Scalar::from_usize(hsize) / Scalar::from_usize(vsize);
        let (half_width, half_height) = if aspect_ratio.units() >= SCALE {
            (half_view, half_view / aspect_ratio)
        } else {
            (half_view * aspect_ratio, half_view)
        };
        let pixel_size = half_width * Scalar::from_int(2) / Scalar::from_usize(hsize);
        let inverse_transform = crate::shape::inverse_transform_parameter(transform);
        let transform_m = match transform {
            Some(t) => t,
            None => Matrix::identity(),
        };
        Camera {
            hsize,
            vsize,
            field_of_view,
            pixel_size,
            transform: transform_m,
            half_width,
            half_height,
            inverse_transform,
        }
    }

    /// The width of the pixel grid.
    pub fn hsize(&self) -> (r: usize)
        ensures
            r == self@.hsize,
    {
        self.hsize
    }

    /// The height of the pixel grid.
    pub fn vsize(&self) -> (r: usize)
        ensures
            r == self@.vsize,
    {
        self.vsize
    }

    /// The field of view in radians.
    pub fn field_of_view(&self) -> (r: Scalar)
        ensures
            r@ == self@.field_of_view,
    {
        self.field_of_view
    }

    /// The side length of one pixel in view space.
    pub fn pixel_size(&self) -> (r: Scalar)
        ensures
            r@ == self@.pixel_size,
    {
        self.pixel_size
    }

    /// The view transform the camera was built with.
    pub fn transformation(&self) -> (r: Matrix)
        ensures
            r@ == self@.transform,
    {
        self.transform
    }

    /// The ray through the middle of the given pixel.  Its direction is
    /// normalized on the fixed-point grid, hence of unit length up to the
    /// resolution of the model for any reasonably proportioned camera.
    pub fn ray_for_pixel(&self, px: usize, py: usize) -> (r: Ray)
        ensures
            r@ == spec_ray_for_pixel(self@, px as int, py as int),
            rv_wf(r@),
    {
        proof {
            use_type_invariant(self);
            lemma_fx_mul_basics();
        }
        let half = Scalar::from_units(500_000_000);
        let xoffset = (Scalar::from_usize(px) + half) * self.pixel_size;
        let yoffset = (Scalar::from_usize(py) + half) * self.pixel_size;
        let world_x = self.half_width - xoffset;
        let world_y = self.half_height - yoffset;
        let pixel = self.inverse_transform * Tuple::point(
            world_x,
            world_y,
            Scalar::from_int(-1),
        );
        let origin = self.inverse_transform * crate::tuple::origo();
        let direction = (pixel - origin).normalize();

        Ray::new(origin, direction)
    }

    /// Rasterize the scene: one color per pixel, row-major, each the color
    /// the world shows along that pixel's ray.
    #[verifier::rlimit(60)]
    pub fn render(&self, world: &World) -> (r: Canvas)
        requires
            world.light is Some,
            self@.hsize * self@.vsize <= usize::MAX,
        ensures
            r@.width == self@.hsize,
            r@.height == self@.vsize,
            forall|x: int, y: int|
                0 <= x < self@.hsize && 0 <= y < self@.vsize ==> spec_color_at_ok(
                    world.objects@,
                    world.light.unwrap()@,
                    spec_ray_for_pixel(self@, x, y),
                    (#[trigger] r@.grid[y * self@.hsize + x])@,
                ),
    {
        let mut canvas = Canvas::new(self.hsize, self.vsize);
        let mut y: usize = 0;
        while y < self.vsize
            invariant
                0 <= y <= self@.vsize,
                world.light is Some,
                canvas@.width == self@.hsize,
                canvas@.height == self@.vsize,
                canvas@.grid.len() == self@.hsize * self@.vsize,
                forall|a: int, b: int|
                    0 <= a < self@.hsize && 0 <= b < y ==> spec_color_at_ok(
                        world.objects@,
                        world.light.unwrap()@,
                        spec_ray_for_pixel(self@, a, b),
                        (#[trigger] canvas@.grid[b * self@.hsize + a])@,
                    ),
            decreases self@.vsize - y,
        {
            let mut x: usize = 0;
            while x < self.hsize
                invariant
                    0 <= y < self@.vsize,
                    0 <= x <= self@.hsize,
                    world.light is Some,
                    canvas@.width == self@.hsize,
                    canvas@.height == self@.vsize,
                    canvas@.grid.len() == self@.hsize * self@.vsize,
                    forall|a: int, b: int|
                        0 <= a < self@.hsize && 0 <= b < y ==> spec_color_at_ok(
                            world.objects@,
                            world.light.unwrap()@,
                            spec_ray_for_pixel(self@, a, b),
                            (#[trigger] canvas@.grid[b * self@.hsize + a])@,
                        ),
                    forall|a: int|
                        0 <= a < x ==> spec_color_at_ok(
                            world.objects@,
                            world.light.unwrap()@,
                            spec_ray_for_pixel(self@, a, y as int),
                            (#[trigger] canvas@.grid[(y as int) * self@.hsize + a])@,
                        ),
                decreases self@.hsize - x,
            {
                let ray = self.ray_for_pixel(x, y);
                let color = world.color_at(ray);
                let ghost old_grid = canvas@.grid;
                canvas.write_pixel(x, y, color);
                proof {
                    let w = self@.hsize;
                    let h = self@.vsize;
                    assert((y as int) * w + (x as int) < w * h) by (nonlinear_arith)
                        requires
                            0 <= (x as int) < w,
                            0 <= (y as int) < h,
                    ;
                    assert(canvas@.grid == old_grid.update((y as int) * w + (x as int), color));
                    assert(canvas@.grid.len() == old_grid.len());
                    assert forall|a: int, b: int|
                        0 <= a < w && 0 <= b < y implies #[trigger] canvas@.grid[b * w + a]
                        == old_grid[b * w + a] by {
                        assert(b * w + a != (y as int) * w + (x as int) && b * w + a < w
                            * self@.vsize) by (nonlinear_arith)
                            requires
                                0 <= a < w,
                                0 <= b < y as int,
                                0 <= x as int,
                                (y as int) < self@.vsize,
                        ;
                    }
                    assert forall|a: int|
                        0 <= a < x implies #[trigger] canvas@.grid[(y as int) * w + a]
                        == old_grid[(y as int) * w + a] by {
                        assert((y as int) * w + a < w * self@.vsize) by (nonlinear_arith)
                            requires
                                0 <= a < w,
                                0 <= (y as int) < self@.vsize,
                        ;
                        assert((y as int) * w + a != (y as int) * w + (x as int));
                    }
                    assert(canvas@.grid[(y as int) * w + (x as int)] == color);
                }
                x = x + 1;
            }
            y = y + 1;
        }
        canvas
    }
}

} // verus!

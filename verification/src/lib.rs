//! A CPU ray tracer kernel over exact fixed-point arithmetic: affine
//! transforms, ray-primitive intersection, Phong shading with shadows,
//! procedural patterns and a pinhole camera, each with a verified contract.

pub mod fixed;
pub mod tuple;
pub mod color;
pub mod matrix;
pub mod transform;
pub mod ray;
pub mod pointlight;
pub mod material;
pub mod shape;
pub mod sphere;
pub mod plane;
pub mod intersection;
pub mod precomputed_data;
pub mod world;
pub mod canvas;
pub mod camera;
pub mod pattern;

use vstd::prelude::*;

verus! {

use crate::fixed::{Scalar, fx_approx_eq};

/// Componentwise tolerance test used throughout the library: true when the two
/// scalars differ by less than the fixed tolerance of one part in a hundred
/// thousand.
pub fn approx_eq(a: Scalar, b: Scalar) -> (r: bool)
    ensures
        r == fx_approx_eq(a@, b@),
{
    a.approx_eq(b)
}

} // verus!

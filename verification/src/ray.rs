use vstd::prelude::*;

verus! {

use crate::fixed::{Scalar, lemma_fx_mul_basics};
use crate::matrix::{Matrix, MatrixView, mv_affine, mv_mul_tuple};
use crate::tuple::{Tuple, TupleView, tv_add, tv_scale};

/// Mathematical image of a ray: its origin and direction.
pub ghost struct RayView {
    pub origin: TupleView,
    pub direction: TupleView,
}

/// A well-formed ray starts at a point and heads along a vector.
pub open spec fn rv_wf(r: RayView) -> bool {
    r.origin.is_point() && r.direction.is_vector()
}

/// The position reached after travelling `t` along the ray.
pub open spec fn rv_position(r: RayView, t: int) -> TupleView {
    tv_add(r.origin, tv_scale(r.direction, t))
}

/// The ray carried through a transform.
pub open spec fn rv_transform(m: MatrixView, r: RayView) -> RayView {
    RayView { origin: mv_mul_tuple(m, r.origin), direction: mv_mul_tuple(m, r.direction) }
}

/// A ray: an origin point and a direction vector.
#[derive(Debug, Copy, Clone)]
pub struct Ray {
    pub origin: Tuple,
    pub direction: Tuple,
}

impl View for Ray {
    type V = RayView;

    open spec fn view(&self) -> RayView {
        RayView { origin: self.origin@, direction: self.direction@ }
    }
}

impl Ray {
    /// A ray from an origin point and a direction vector; anything else is a
    /// caller contract violation.
    pub fn new(origin: Tuple, direction: Tuple) -> (r: Ray)
        requires
            origin@.is_point(),
            direction@.is_vector(),
        ensures
            r@ == (RayView { origin: origin@, direction: direction@ }),
            rv_wf(r@),
    {
        Ray { origin, direction }
    }

    /// The point reached after travelling `t` along the ray.
    pub fn position(&self, t: Scalar) -> (r: Tuple)
        ensures
            r@ == rv_position(self@, t@),
    {
        self.origin + self.direction * t
    }

    /// The ray carried through an affine transform.
    pub fn transform(&self, m: Matrix) -> (r: Ray)
        requires
            rv_wf(self@),
            mv_affine(m@),
        ensures
            r@ == rv_transform(m@, self@),
            rv_wf(r@),
    {
        proof {
            use_type_invariant(self.origin.w);
            lemma_fx_mul_basics();
        }
        Ray::new(m * self.origin, m * self.direction)
    }
}

} // verus!

use vstd::prelude::*;

verus! {

use crate::fixed::Scalar;
use crate::shape::{Shape, ShapeView};
use crate::tuple::{Tuple, TupleView};

/// Mathematical image of the data prepared for shading one hit.
pub ghost struct PrecomputedDataView {
    pub t: int,
    pub object: ShapeView,
    pub point: TupleView,
    pub eyev: TupleView,
    pub normalv: TupleView,
    pub inside: bool,
    pub over_point: TupleView,
}

/// Everything shading needs about one hit: the distance, the shape, the hit
/// point, the eye and normal vectors, whether the ray struck the inside, and
/// the point nudged off the surface for shadow rays.
#[derive(Debug, Copy, Clone)]
pub struct PrecomputedData {
    pub t: Scalar,
    pub object: Shape,
    pub point: Tuple,
    pub eyev: Tuple,
    pub normalv: Tuple,
    pub inside: bool,
    pub over_point: Tuple,
}

impl View for PrecomputedData {
    type V = PrecomputedDataView;

    open spec fn view(&self) -> PrecomputedDataView {
        PrecomputedDataView {
            t: self.t@,
            object: self.object@,
            point: self.point@,
            eyev: self.eyev@,
            normalv: self.normalv@,
            inside: self.inside,
            over_point: self.over_point@,
        }
    }
}

impl PrecomputedData {
    /// Gather the prepared values into one record.
    pub fn new(
        t: Scalar,
        object: Shape,
        point: Tuple,
        eyev: Tuple,
        normalv: Tuple,
        inside: bool,
        over_point: Tuple,
    ) -> (r: PrecomputedData)
        ensures
            r@ == (PrecomputedDataView {
                t: t@,
                object: object@,
                point: point@,
                eyev: eyev@,
                normalv: normalv@,
                inside: inside,
                over_point: over_point@,
            }),
    {
        PrecomputedData { t, object, point, eyev, normalv, inside, over_point }
    }
}

} // verus!

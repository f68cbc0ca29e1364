use vstd::prelude::*;

verus! {

use crate::color::{Color, ColorView, cv_add, cv_scale, cv_sub};
use crate::fixed::{fx_abs, fx_fract, SCALE, EPSILON};
use crate::matrix::{Matrix, MatrixView, mv_affine, mv_identity, mv_inverse, mv_mul_tuple, spec_det};
use crate::shape::{Shape, ShapeView, inverse_transform_parameter, mv_affinize};
use crate::tuple::{Tuple, TupleView};

/// Mathematical image of a procedural pattern: its two colors, whether it
/// stripes or blends, and its transform with the cached inverse.
pub ghost struct PatternView {
    pub stripe: bool,
    pub a: ColorView,
    pub b: ColorView,
    pub transform: MatrixView,
    pub inverse_transform: MatrixView,
}

/// The stripe rule: the floor of the local x coordinate decides, so that
/// negative x alternates rather than mirrors.  Even stripes show the first
/// color, odd stripes the second.
pub open spec fn spec_stripe_at(a: ColorView, b: ColorView, x: int) -> ColorView {
    if (x / (SCALE as int)) % 2 == 0 {
        a
    } else {
        b
    }
}

/// The gradient rule: a linear blend from the first color toward the second
/// by the fractional part of the local x coordinate.
pub open spec fn spec_gradient_at(a: ColorView, b: ColorView, x: int) -> ColorView {
    cv_add(a, cv_scale(cv_sub(b, a), fx_fract(x)))
}

/// The color of a pattern at a point in its own space.
pub open spec fn spec_pattern_at(p: PatternView, point: TupleView) -> ColorView {
    if p.stripe {
        spec_stripe_at(p.a, p.b, point.x)
    } else {
        spec_gradient_at(p.a, p.b, point.x)
    }
}

/// The color of a pattern on a shape at a world point: the point moves into
/// object space, then into pattern space, then the pattern rule decides.
pub open spec fn spec_pattern_at_shape(
    p: PatternView,
    object: ShapeView,
    world_point: TupleView,
) -> ColorView {
    let object_point = mv_mul_tuple(object.inverse_transform, world_point);
    let pattern_point = mv_mul_tuple(p.inverse_transform, object_point);
    spec_pattern_at(p, pattern_point)
}

/// Stripes that alternate along the x axis.
#[derive(Debug, Copy, Clone)]
pub struct StripePattern {
    a: Color,
    b: Color,
    transform: Matrix,
    inverse_transform: Matrix,
}

impl StripePattern {
    #[verifier::type_invariant]
    spec fn wf(self) -> bool {
        mv_affine(self.inverse_transform@)
    }
}

impl View for StripePattern {
    type V = PatternView;

    closed spec fn view(&self) -> PatternView {
        PatternView {
            stripe: true,
            a: self.a@,
            b: self.b@,
            transform: self.transform@,
            inverse_transform: self.inverse_transform@,
        }
    }
}

/// A linear blend along the x axis.
#[derive(Debug, Copy, Clone)]
pub struct GradientPattern {
    a: Color,
    b: Color,
    transform: Matrix,
    inverse_transform: Matrix,
}

impl GradientPattern {
    #[verifier::type_invariant]
    spec fn wf(self) -> bool {
        mv_affine(self.inverse_transform@)
    }
}

impl View for GradientPattern {
    type V = PatternView;

    closed spec fn view(&self) -> PatternView {
        PatternView {
            stripe: false,
            a: self.a@,
            b: self.b@,
            transform: self.transform@,
            inverse_transform: self.inverse_transform@,
        }
    }
}

/// A procedural pattern: a closed sum over the supported rules.
#[derive(Debug, Copy, Clone)]
pub enum Pattern {
    Stripe(StripePattern),
    Gradient(GradientPattern),
}

impl View for Pattern {
    type V = PatternView;

    open spec fn view(&self) -> PatternView {
        match self {
            Pattern::Stripe(p) => p@,
            Pattern::Gradient(p) => p@,
        }
    }
}

/// The pattern a construction call yields.
pub open spec fn pattern_new_view(
    stripe: bool,
    a: ColorView,
    b: ColorView,
    transform: Option<Matrix>,
) -> PatternView {
    PatternView {
        stripe,
        a,
        b,
        transform: match transform {
            Some(t) => t@,
            None => mv_identity(),
        },
        inverse_transform: match transform {
            Some(t) => mv_affinize(mv_inverse(t@)),
            None => mv_identity(),
        },
    }
}

impl StripePattern {
    /// A stripe pattern of two colors; a transform must be affine and must
    /// not be near-singular.
    pub fn new(a: Color, b: Color, transform: Option<Matrix>) -> (r: StripePattern)
        requires
            match transform {
                Some(t) => fx_abs(spec_det(t@)) >= EPSILON as int && mv_affine(t@),
                None => true,
            },
        ensures
            r@ == pattern_new_view(true, a@, b@, transform),
    {
        let inverse_transform = inverse_transform_parameter(transform);
        let transform_m = match transform {
            Some(t) => t,
            None => Matrix::identity(),
        };
        StripePattern { a, b, transform: transform_m, inverse_transform }
    }

    /// A stripe pattern wrapped as a pattern.
    pub fn new_boxed(a: Color, b: Color, transform: Option<Matrix>) -> (r: Pattern)
        requires
            match transform {
                Some(t) => fx_abs(spec_det(t@)) >= EPSILON as int && mv_affine(t@),
                None => true,
            },
        ensures
            r@ == pattern_new_view(true, a@, b@, transform),
    {
        Pattern::Stripe(StripePattern::new(a, b, transform))
    }
}

impl GradientPattern {
    /// A gradient pattern of two colors; a transform must be affine and must
    /// not be near-singular.
    pub fn new(a: Color, b: Color, transform: Option<Matrix>) -> (r: GradientPattern)
        requires
            match transform {
                Some(t) => fx_abs(spec_det(t@)) >= EPSILON as int && mv_affine(t@),
                None => true,
            },
        ensures
            r@ == pattern_new_view(false, a@, b@, transform),
    {
        let inverse_transform = inverse_transform_parameter(transform);
        let transform_m = match transform {
            Some(t) => t,
            None => Matrix::identity(),
        };
        GradientPattern { a, b, transform: transform_m, inverse_transform }
    }

    /// A gradient pattern wrapped as a pattern.
    pub fn new_boxed(a: Color, b: Color, transform: Option<Matrix>) -> (r: Pattern)
        requires
            match transform {
                Some(t) => fx_abs(spec_det(t@)) >= EPSILON as int && mv_affine(t@),
                None => true,
            },
        ensures
            r@ == pattern_new_view(false, a@, b@, transform),
    {
        Pattern::Gradient(GradientPattern::new(a, b, transform))
    }
}

impl Pattern {
    /// The first color of the pattern.
    pub fn color_a(&self) -> (r: Color)
        ensures
            r@ == self@.a,
    {
        match self {
            Pattern::Stripe(p) => p.a,
            Pattern::Gradient(p) => p.a,
        }
    }

    /// The second color of the pattern.
    pub fn color_b(&self) -> (r: Color)
        ensures
            r@ == self@.b,
    {
        match self {
            Pattern::Stripe(p) => p.b,
            Pattern::Gradient(p) => p.b,
        }
    }

    /// The transform the pattern was built with.
    pub fn transformation(&self) -> (r: Matrix)
        ensures
            r@ == self@.transform,
    {
        match self {
            Pattern::Stripe(p) => p.transform,
            Pattern::Gradient(p) => p.transform,
        }
    }

    /// The cached inverse transform, kept in affine form.
    pub fn inverse_transformation(&self) -> (r: Matrix)
        ensures
            r@ == self@.inverse_transform,
            mv_affine(r@),
    {
        match self {
            Pattern::Stripe(p) => {
                proof {
                    use_type_invariant(p);
                }
                p.inverse_transform
            },
            Pattern::Gradient(p) => {
                proof {
                    use_type_invariant(p);
                }
                p.inverse_transform
            },
        }
    }

    /// The color of the pattern at a point in its own space.
    pub fn inner_pattern_at(&self, pattern_point: Tuple) -> (r: Color)
        ensures
            r@ == spec_pattern_at(self@, pattern_point@),
    {
        match self {
            Pattern::Stripe(p) => {
                let floor_x = pattern_point.x.units().checked_div_euclid(SCALE).unwrap();
                let parity = floor_x.checked_rem_euclid(2).unwrap();
                if parity == 0 {
                    p.a
                } else {
                    p.b
                }
            },
            Pattern::Gradient(p) => {
                let distance = p.b - p.a;
                let fraction = pattern_point.x.fract();
                p.a + distance * fraction
            },
        }
    }

    /// The color of the pattern on a shape at a world point.
    pub fn pattern_at_shape(&self, object: &Shape, world_point: Tuple) -> (r: Color)
        ensures
            r@ == spec_pattern_at_shape(self@, object@, world_point@),
    {
        let object_point = object.inverse_transformation() * world_point;
        let pattern_point = self.inverse_transformation() * object_point;
        self.inner_pattern_at(pattern_point)
    }
}

} // verus!

use vstd::prelude::*;

verus! {

use crate::fixed::{Scalar, fx_abs, fx_neg, fx_div, fx_approx_eq, EPSILON};
use crate::intersection::{Intersection, Intersections, IntersectionView, iv_wf, views_of};
use crate::material::{Material, spec_material_eq, default_material_view};
use crate::matrix::{
    Matrix, MatrixView, mv_affine, mv_approx_eq, mv_identity, mv_inverse, spec_det,
};
use crate::ray::{Ray, RayView};
use crate::shape::{
    Shape, ShapeKind, ShapeView, inverse_transform_parameter, mv_affinize,
};
use crate::tuple::{Tuple, tv_vector_y_up};
use core::ops::Neg;

/// The intersection of an object-space ray with the x/z plane: nothing when
/// the ray runs parallel to the plane (within tolerance), else the single
/// distance at which it crosses.
pub open spec fn spec_plane_intersections(s: ShapeView, r: RayView) -> Seq<IntersectionView> {
    if fx_approx_eq(0, r.direction.y) {
        Seq::empty()
    } else {
        seq![
            IntersectionView { t: fx_div(fx_neg(r.origin.y), r.direction.y), object: s },
        ]
    }
}

/// Every plane's image carries the plane kind.
pub proof fn lemma_plane_kind(p: Plane)
    ensures
        p@.kind == ShapeKind::Plane,
{
}

/// The x/z plane through the origin, carried into the scene by its
/// transform.
#[derive(Debug, Copy, Clone)]
pub struct Plane {
    inverse_transform: Matrix,
    transform: Matrix,
    material: Material,
}

impl Plane {
    /// The cached inverse of every reachable plane is affine.
    #[verifier::type_invariant]
    spec fn wf(self) -> bool {
        mv_affine(self.inverse_transform@)
    }
}

impl View for Plane {
    type V = ShapeView;

    closed spec fn view(&self) -> ShapeView {
        ShapeView {
            kind: ShapeKind::Plane,
            transform: self.transform@,
            inverse_transform: self.inverse_transform@,
            material: self.material@,
        }
    }
}

impl PartialEq for Plane {
    fn eq(&self, other: &Plane) -> (r: bool) {
        self.inverse_transform == other.inverse_transform && self.transform == other.transform
            && self.material == other.material
    }
}

impl vstd::std_specs::cmp::PartialEqSpecImpl for Plane {
    open spec fn obeys_eq_spec() -> bool {
        true
    }

    open spec fn eq_spec(&self, other: &Plane) -> bool {
        mv_approx_eq(self@.inverse_transform, other@.inverse_transform) && mv_approx_eq(
            self@.transform,
            other@.transform,
        ) && spec_material_eq(self@.material, other@.material)
    }
}

impl Plane {
    /// The shape a call to `new` with these arguments yields.
    pub open spec fn new_view(material: Option<Material>, transform: Option<Matrix>) -> ShapeView {
        ShapeView {
            kind: ShapeKind::Plane,
            transform: match transform {
                Some(t) => t@,
                None => mv_identity(),
            },
            inverse_transform: match transform {
                Some(t) => mv_affinize(mv_inverse(t@)),
                None => mv_identity(),
            },
            material: match material {
                Some(m) => m@,
                None => default_material_view(),
            },
        }
    }

    /// A plane with the given material and transform; a transform must be
    /// affine and must not be near-singular.
    pub fn new(material: Option<Material>, transform: Option<Matrix>) -> (r: Plane)
        requires
            match transform {
                Some(t) => fx_abs(spec_det(t@)) >= EPSILON as int && mv_affine(t@),
                None => true,
            },
        ensures
            r@ == Plane::new_view(material, transform),
    {
        let inverse_transform = inverse_transform_parameter(transform);
        let transform_m = match transform {
            Some(t) => t,
            None => Matrix::identity(),
        };
        let material_m = match material {
            Some(m) => m,
            None => Material::default(),
        };
        Plane { transform: transform_m, inverse_transform, material: material_m }
    }

    /// The material of the plane.
    pub fn material_ref(&self) -> (r: &Material)
        ensures
            r@ == self@.material,
    {
        &self.material
    }

    /// The transform the plane was built with.
    pub fn transformation(&self) -> (r: Matrix)
        ensures
            r@ == self@.transform,
    {
        self.transform
    }

    /// The cached inverse transform, kept in affine form.
    pub fn inverse_transformation(&self) -> (r: Matrix)
        ensures
            r@ == self@.inverse_transform,
            mv_affine(r@),
    {
        proof {
            use_type_invariant(self);
        }
        self.inverse_transform
    }

    /// Intersect an object-space ray with the x/z plane.
    pub fn inner_intersect(&self, object_ray: Ray) -> (r: Intersections)
        ensures
            iv_wf(r@),
            r@.seq.to_multiset() == spec_plane_intersections(self@, object_ray@).to_multiset(),
            r@.seq.len() == spec_plane_intersections(self@, object_ray@).len(),
    {
        if crate::approx_eq(Scalar::zero(), object_ray.direction.y) {
            let r = Intersections::new(Vec::new());
            proof {
                assert(views_of(Seq::<Intersection>::empty()) =~= Seq::<
                    IntersectionView,
                >::empty());
            }
            return r;
        }
        let t = object_ray.origin.y.neg() / object_ray.direction.y;
        let mut v: Vec<Intersection> = Vec::new();
        v.push(Intersection::new(t, Shape::Plane(*self)));
        proof {
            assert(views_of(v@) =~= spec_plane_intersections(self@, object_ray@));
        }
        Intersections::new(v)
    }

    /// The object-space normal of the plane: always straight up.
    pub fn inner_normal_at(&self, _object_point: Tuple) -> (r: Tuple)
        ensures
            r@ == tv_vector_y_up(),
    {
        crate::tuple::vector_y_up()
    }
}

} // verus!

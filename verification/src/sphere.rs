use vstd::prelude::*;

verus! {

use crate::fixed::{
    Scalar, fx_abs, fx_add, fx_sub, fx_neg, fx_mul, fx_div, fx_sqrt, SCALE, EPSILON,
};
use crate::intersection::{Intersection, Intersections, IntersectionView, iv_wf, views_of};
use crate::material::{Material, spec_material_eq, default_material_view};
use crate::matrix::{
    Matrix, MatrixView, mv_affine, mv_approx_eq, mv_identity, mv_inverse, spec_det,
};
use crate::ray::{Ray, RayView};
use crate::shape::{
    Shape, ShapeKind, ShapeView, inverse_transform_parameter, mv_affinize,
};
use crate::tuple::{Tuple, TupleView, tv_dot, tv_sub, tv_origo};
use core::ops::Neg;

/// The intersection distances of an object-space ray with the unit sphere:
/// the roots of the quadratic, computed in the fixed-point order the code
/// uses, or nothing when the discriminant is negative.
pub open spec fn spec_sphere_intersections(s: ShapeView, r: RayView) -> Seq<IntersectionView> {
    let sphere_to_ray = tv_sub(r.origin, tv_origo());
    let a = tv_dot(r.direction, r.direction);
    let b = fx_mul(2 * SCALE as int, tv_dot(r.direction, sphere_to_ray));
    let c = fx_sub(tv_dot(sphere_to_ray, sphere_to_ray), SCALE as int);
    let discriminant = fx_sub(fx_mul(b, b), fx_mul(fx_mul(4 * SCALE as int, a), c));
    if discriminant < 0 {
        Seq::empty()
    } else {
        let sq = fx_sqrt(discriminant);
        let two_a = fx_mul(2 * SCALE as int, a);
        let t1 = fx_div(fx_sub(fx_neg(b), sq), two_a);
        let t2 = fx_div(fx_add(fx_neg(b), sq), two_a);
        seq![
            IntersectionView { t: t2, object: s },
            IntersectionView { t: t1, object: s },
        ]
    }
}

/// Every sphere's image carries the sphere kind.
pub proof fn lemma_sphere_kind(s: Sphere)
    ensures
        s@.kind == ShapeKind::Sphere,
{
}

/// The unit sphere at the origin, carried into the scene by its transform.
#[derive(Debug, Copy, Clone)]
pub struct Sphere {
    inverse_transform: Matrix,
    transform: Matrix,
    material: Material,
}

impl Sphere {
    /// The cached inverse of every reachable sphere is affine.
    #[verifier::type_invariant]
    spec fn wf(self) -> bool {
        mv_affine(self.inverse_transform@)
    }
}

impl View for Sphere {
    type V = ShapeView;

    closed spec fn view(&self) -> ShapeView {
        ShapeView {
            kind: ShapeKind::Sphere,
            transform: self.transform@,
            inverse_transform: self.inverse_transform@,
            material: self.material@,
        }
    }
}

impl PartialEq for Sphere {
    fn eq(&self, other: &Sphere) -> (r: bool) {
        self.transform == other.transform && self.material == other.material
    }
}

impl vstd::std_specs::cmp::PartialEqSpecImpl for Sphere {
    open spec fn obeys_eq_spec() -> bool {
        true
    }

    open spec fn eq_spec(&self, other: &Sphere) -> bool {
        mv_approx_eq(self@.transform, other@.transform) && spec_material_eq(
            self@.material,
            other@.material,
        )
    }
}

impl Default for Sphere {
    fn default() -> (r: Sphere)
        ensures
            r@ == (ShapeView {
                kind: ShapeKind::Sphere,
                transform: mv_identity(),
                inverse_transform: mv_identity(),
                material: default_material_view(),
            }),
    {
        proof {
            crate::matrix::lemma_identity_affine();
        }
        Sphere {
            transform: Matrix::identity(),
            inverse_transform: Matrix::identity(),
            material: Material::default(),
        }
    }
}

impl Sphere {
    /// A sphere with the given material and transform; a transform must be
    /// affine and must not be near-singular.
    pub fn new(material: Option<Material>, transform: Option<Matrix>) -> (r: Sphere)
        requires
            match transform {
                Some(t) => fx_abs(spec_det(t@)) >= EPSILON as int && mv_affine(t@),
                None => true,
            },
        ensures
            r@ == Sphere::new_view(material, transform),
    {
        let inverse_transform = inverse_transform_parameter(transform);
        let transform_m = match transform {
            Some(t) => t,
            None => Matrix::identity(),
        };
        let material_m = match material {
            Some(m) => m,
            None => Material::default(),
        };
        Sphere { transform: transform_m, inverse_transform, material: material_m }
    }

    /// A sphere wrapped as a shape.
    pub fn new_boxed(material: Option<Material>, transform: Option<Matrix>) -> (r: Shape)
        requires
            match transform {
                Some(t) => fx_abs(spec_det(t@)) >= EPSILON as int && mv_affine(t@),
                None => true,
            },
        ensures
            r@ == Sphere::new_view(material, transform),
    {
        Shape::Sphere(Sphere::new(material, transform))
    }

    /// The shape a call to `new` with these arguments yields.
    pub open spec fn new_view(material: Option<Material>, transform: Option<Matrix>) -> ShapeView {
        ShapeView {
            kind: ShapeKind::Sphere,
            transform: match transform {
                Some(t) => t@,
                None => mv_identity(),
            },
            inverse_transform: match transform {
                Some(t) => mv_affinize(mv_inverse(t@)),
                None => mv_identity(),
            },
            material: match material {
                Some(m) => m@,
                None => default_material_view(),
            },
        }
    }

    /// The stock sphere wrapped as a shape.
    pub fn default_boxed() -> (r: Shape)
        ensures
            r@ == (ShapeView {
                kind: ShapeKind::Sphere,
                transform: mv_identity(),
                inverse_transform: mv_identity(),
                material: default_material_view(),
            }),
    {
        Shape::Sphere(Sphere::default())
    }

    /// The material of the sphere.
    pub fn material_ref(&self) -> (r: &Material)
        ensures
            r@ == self@.material,
    {
        &self.material
    }

    /// The transform the sphere was built with.
    pub fn transformation(&self) -> (r: Matrix)
        ensures
            r@ == self@.transform,
    {
        self.transform
    }

    /// The cached inverse transform, kept in affine form.
    pub fn inverse_transformation(&self) -> (r: Matrix)
        ensures
            r@ == self@.inverse_transform,
            mv_affine(r@),
    {
        proof {
            use_type_invariant(self);
        }
        self.inverse_transform
    }

    /// Solve the quadratic for an object-space ray against the unit sphere.
    pub fn inner_intersect(&self, object_ray: Ray) -> (r: Intersections)
        ensures
            iv_wf(r@),
            r@.seq.to_multiset() == spec_sphere_intersections(self@, object_ray@).to_multiset(),
            r@.seq.len() == spec_sphere_intersections(self@, object_ray@).len(),
    {
        let sphere_to_ray = object_ray.origin - crate::tuple::origo();
        let a = object_ray.direction.dot(&object_ray.direction);
        let b = Scalar::from_int(2) * object_ray.direction.dot(&sphere_to_ray);
        let c = sphere_to_ray.dot(&sphere_to_ray) - Scalar::one();
        let discriminant = b * b - Scalar::from_int(4) * a * c;

        if discriminant < Scalar::zero() {
            let r = Intersections::new(Vec::new());
            proof {
                assert(views_of(Seq::<Intersection>::empty()) =~= Seq::<
                    IntersectionView,
                >::empty());
            }
            return r;
        }
        let sq = discriminant.sqrt();
        let two_a = Scalar::from_int(2) * a;
        let i1 = Intersection::new((b.neg() - sq) / two_a, Shape::Sphere(*self));
        let i2 = Intersection::new((b.neg() + sq) / two_a, Shape::Sphere(*self));
        let mut v: Vec<Intersection> = Vec::new();
        v.push(i2);
        v.push(i1);
        proof {
            assert(views_of(v@) =~= spec_sphere_intersections(self@, object_ray@));
        }
        Intersections::new(v)
    }

    /// The object-space normal: the vector from the center to the point.
    pub fn inner_normal_at(&self, object_point: Tuple) -> (r: Tuple)
        ensures
            r@ == tv_sub(object_point@, tv_origo()),
    {
        object_point - crate::tuple::origo()
    }
}

} // verus!

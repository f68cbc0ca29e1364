use vstd::prelude::*;

verus! {

use crate::fixed::{Scalar, fx_abs, SCALE, EPSILON};
use crate::intersection::{Intersections, IntersectionView, iv_wf};
use crate::material::{Material, MaterialView, spec_material_eq};
use crate::matrix::{
    Matrix, MatrixView, mv_affine, mv_approx_eq, mv_identity, mv_inverse, mv_mul_tuple,
    mv_transpose, spec_det,
};
use crate::plane::Plane;
use crate::ray::{Ray, RayView, rv_transform, rv_wf};
use crate::sphere::Sphere;
use crate::tuple::{Tuple, TupleView, tv_normalize};

/// The two kinds of primitive the library renders.
#[derive(Debug, Copy, Clone, PartialEq, Eq, Structural)]
pub enum ShapeKind {
    Sphere,
    Plane,
}

/// Mathematical image of a shape: its kind, its transform, the cached
/// inverse, and its material.
pub ghost struct ShapeView {
    pub kind: ShapeKind,
    pub transform: MatrixView,
    pub inverse_transform: MatrixView,
    pub material: MaterialView,
}

/// Shapes compare structurally: same kind, and the fields their kind
/// compares are within tolerance.
pub open spec fn sv_approx_eq(a: ShapeView, b: ShapeView) -> bool {
    &&& a.kind == b.kind
    &&& mv_approx_eq(a.transform, b.transform)
    &&& spec_material_eq(a.material, b.material)
    &&& (a.kind == ShapeKind::Plane ==> mv_approx_eq(a.inverse_transform, b.inverse_transform))
}

/// The matrix with its last row overwritten by `[0, 0, 0, 1]`, the form
/// every cached inverse is kept in so that points stay points.
pub open spec fn mv_affinize(m: MatrixView) -> MatrixView {
    MatrixView { size: m.size, e: m.e.update(3, seq![0int, 0int, 0int, SCALE as int]) }
}

/// The object-space normal of a shape at an object-space point.
pub open spec fn spec_inner_normal(s: ShapeView, object_point: TupleView) -> TupleView {
    match s.kind {
        ShapeKind::Sphere => crate::tuple::tv_sub(object_point, crate::tuple::tv_origo()),
        ShapeKind::Plane => crate::tuple::tv_vector_y_up(),
    }
}

/// The world-space normal: the object-space normal carried back through the
/// transposed inverse and renormalized.
pub open spec fn spec_normal_at(s: ShapeView, world_point: TupleView) -> TupleView {
    let object_point = mv_mul_tuple(s.inverse_transform, world_point);
    let object_normal = spec_inner_normal(s, object_point);
    let world_normal = mv_mul_tuple(mv_transpose(s.inverse_transform), object_normal);
    tv_normalize(world_normal)
}

/// The intersections of an object-space ray with a shape, decided by kind.
pub open spec fn spec_inner_intersections(s: ShapeView, r: RayView) -> Seq<IntersectionView> {
    match s.kind {
        ShapeKind::Sphere => crate::sphere::spec_sphere_intersections(s, r),
        ShapeKind::Plane => crate::plane::spec_plane_intersections(s, r),
    }
}

/// The intersections of a world-space ray with a shape: the ray moves into
/// object space through the cached inverse, then the kind decides.
pub open spec fn spec_shape_intersections(s: ShapeView, world_ray: RayView) -> Seq<
    IntersectionView,
> {
    spec_inner_intersections(s, rv_transform(s.inverse_transform, world_ray))
}

/// A primitive: a closed sum over the supported kinds, so that every shape
/// dispatch is a case split the verifier can follow.
#[derive(Debug, Copy, Clone)]
pub enum Shape {
    Sphere(Sphere),
    Plane(Plane),
}

impl View for Shape {
    type V = ShapeView;

    open spec fn view(&self) -> ShapeView {
        match self {
            Shape::Sphere(s) => s@,
            Shape::Plane(p) => p@,
        }
    }
}

impl PartialEq for Shape {
    fn eq(&self, other: &Shape) -> (r: bool) {
        proof {
            match self {
                Shape::Sphere(a) => crate::sphere::lemma_sphere_kind(*a),
                Shape::Plane(a) => crate::plane::lemma_plane_kind(*a),
            }
            match other {
                Shape::Sphere(b) => crate::sphere::lemma_sphere_kind(*b),
                Shape::Plane(b) => crate::plane::lemma_plane_kind(*b),
            }
        }
        match (self, other) {
            (Shape::Sphere(a), Shape::Sphere(b)) => a == b,
            (Shape::Plane(a), Shape::Plane(b)) => a == b,
            _ => false,
        }
    }
}

impl vstd::std_specs::cmp::PartialEqSpecImpl for Shape {
    open spec fn obeys_eq_spec() -> bool {
        true
    }

    open spec fn eq_spec(&self, other: &Shape) -> bool {
        sv_approx_eq(self@, other@)
    }
}

/// The cached inverse for a shape or pattern: the identity when no transform
/// was given, else the inverse of the given affine transform with its last
/// row put back in exact affine form.  A transform whose determinant lies
/// within the tolerance of zero is refused at construction.
pub fn inverse_transform_parameter(transform: Option<Matrix>) -> (r: Matrix)
    requires
        match transform {
            Some(t) => fx_abs(spec_det(t@)) >= EPSILON as int && mv_affine(t@),
            None => true,
        },
    ensures
        r@ == (match transform {
            Some(t) => mv_affinize(mv_inverse(t@)),
            None => mv_identity(),
        }),
        mv_affine(r@),
{
    match transform {
        None => {
            let m = Matrix::identity();
            proof {
                assert(mv_affine(m@));
            }
            m
        },
        Some(t) => {
            let mut inv = t.inverse().unwrap();
            let z = Scalar::zero();
            inv.set(3, 0, z);
            inv.set(3, 1, z);
            inv.set(3, 2, z);
            inv.set(3, 3, Scalar::one());
            proof {
                assert(inv@.e =~~= mv_affinize(mv_inverse(t@)).e);
                assert(inv@ =~= mv_affinize(mv_inverse(t@)));
            }
            inv
        },
    }
}

impl Shape {
    /// The material of the shape.
    pub fn material(&self) -> (r: &Material)
        ensures
            r@ == self@.material,
    {
        match self {
            Shape::Sphere(s) => s.material_ref(),
            Shape::Plane(p) => p.material_ref(),
        }
    }

    /// The transform the shape was built with.
    pub fn transformation(&self) -> (r: Matrix)
        ensures
            r@ == self@.transform,
    {
        match self {
            Shape::Sphere(s) => s.transformation(),
            Shape::Plane(p) => p.transformation(),
        }
    }

    /// The cached inverse transform, kept in affine form.
    pub fn inverse_transformation(&self) -> (r: Matrix)
        ensures
            r@ == self@.inverse_transform,
            mv_affine(r@),
    {
        match self {
            Shape::Sphere(s) => s.inverse_transformation(),
            Shape::Plane(p) => p.inverse_transformation(),
        }
    }

    /// The intersections with an object-space ray, decided by the kind.
    pub fn inner_intersect(&self, object_ray: Ray) -> (r: Intersections)
        ensures
            iv_wf(r@),
            r@.seq.to_multiset() == spec_inner_intersections(self@, object_ray@).to_multiset(),
            r@.seq.len() == spec_inner_intersections(self@, object_ray@).len(),
    {
        match self {
            Shape::Sphere(s) => {
                proof {
                    crate::sphere::lemma_sphere_kind(*s);
                }
                s.inner_intersect(object_ray)
            },
            Shape::Plane(p) => {
                proof {
                    crate::plane::lemma_plane_kind(*p);
                }
                p.inner_intersect(object_ray)
            },
        }
    }

    /// The object-space normal at an object-space point, decided by the kind.
    pub fn inner_normal_at(&self, object_point: Tuple) -> (r: Tuple)
        ensures
            r@ == spec_inner_normal(self@, object_point@),
    {
        match self {
            Shape::Sphere(s) => {
                proof {
                    crate::sphere::lemma_sphere_kind(*s);
                }
                s.inner_normal_at(object_point)
            },
            Shape::Plane(p) => {
                proof {
                    crate::plane::lemma_plane_kind(*p);
                }
                p.inner_normal_at(object_point)
            },
        }
    }

    /// The intersections of a world-space ray with this shape.
    pub fn intersect(&self, world_ray: Ray) -> (r: Intersections)
        requires
            rv_wf(world_ray@),
        ensures
            iv_wf(r@),
            r@.seq.to_multiset() == spec_shape_intersections(self@, world_ray@).to_multiset(),
            r@.seq.len() == spec_shape_intersections(self@, world_ray@).len(),
    {
        self.inner_intersect(world_ray.transform(self.inverse_transformation()))
    }

    /// The world-space surface normal at a world-space point.
    pub fn normal_at(&self, world_point: Tuple) -> (r: Tuple)
        ensures
            r@ == spec_normal_at(self@, world_point@),
            r@.is_vector(),
    {
        let inv = self.inverse_transformation();
        let object_normal = self.inner_normal_at(inv * world_point);
        let mut world_normal = inv.transpose() * object_normal;
        world_normal.w = Scalar::zero();
        world_normal.normalize()
    }
}

} // verus!

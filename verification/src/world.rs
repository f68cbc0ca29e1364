use vstd::prelude::*;

verus! {

use vstd::seq_lib::*;
use crate::color::{Color, ColorView, cv_black};
use crate::fixed::Scalar;
use crate::intersection::{
    Intersection, Intersections, IntersectionView, iv_wf, spec_prepare, views_of,
};
use crate::material::{Material, spec_lighting};
use crate::matrix::Matrix;
use crate::pointlight::{PointLight, PointLightView};
use crate::precomputed_data::PrecomputedData;
use crate::ray::{Ray, RayView, rv_wf};
use crate::shape::{Shape, ShapeView, ShapeKind, mv_affinize, spec_shape_intersections};
use crate::matrix::{mv_identity, mv_inverse};
use crate::transform::mv_scaling;
use crate::material::{MaterialView, default_material_view};
use crate::sphere::Sphere;
use crate::tuple::{Tuple, TupleView, tv_magnitude, tv_normalize, tv_sub};

/// The intersections of a ray with the first `n` objects of a scene, in
/// object order.
pub open spec fn spec_world_prefix(objects: Seq<Shape>, n: int, r: RayView) -> Seq<
    IntersectionView,
>
    decreases n,
{
    if n <= 0 {
        Seq::empty()
    } else {
        spec_world_prefix(objects, n - 1, r) + spec_shape_intersections(objects[n - 1]@, r)
    }
}

/// The intersections of a ray with every object of a scene.
pub open spec fn spec_world_intersections(objects: Seq<Shape>, r: RayView) -> Seq<
    IntersectionView,
> {
    spec_world_prefix(objects, objects.len() as int, r)
}

/// A point is shadowed exactly when some object stands between it and the
/// light: an intersection of the shadow ray at a non-negative distance
/// strictly nearer than the light.
pub open spec fn spec_is_shadowed(
    objects: Seq<Shape>,
    light: PointLightView,
    point: TupleView,
) -> bool {
    let v = tv_sub(light.position, point);
    let distance = tv_magnitude(v);
    let direction = tv_normalize(v);
    let xs = spec_world_intersections(objects, RayView { origin: point, direction: direction });
    exists|i: int| 0 <= i < xs.len() && 0 <= (#[trigger] xs[i]).t < distance
}

/// The color a prepared hit shades to: the Phong model, with the shadow test
/// made at the over-point.
pub open spec fn spec_shade_hit(
    objects: Seq<Shape>,
    light: PointLightView,
    c: crate::precomputed_data::PrecomputedDataView,
) -> ColorView {
    spec_lighting(
        c.object.material,
        light,
        c.point,
        c.eyev,
        c.normalv,
        spec_is_shadowed(objects, light, c.over_point),
    )
}

/// What `color_at` promises of its result: black when the ray hits nothing
/// in front of it; otherwise the shade of a hit with the least non-negative
/// distance.  When two hits share that least distance, which of them shades
/// the pixel is left open.
#[verifier::opaque]
pub open spec fn spec_color_at_ok(
    objects: Seq<Shape>,
    light: PointLightView,
    r: RayView,
    color: ColorView,
) -> bool {
    let xs = spec_world_intersections(objects, r);
    if forall|i: int| 0 <= i < xs.len() ==> (#[trigger] xs[i]).t < 0 {
        color == cv_black()
    } else {
        exists|h: IntersectionView|
            #![trigger xs.contains(h)]
            xs.contains(h) && h.t >= 0 && (forall|i: int|
                0 <= i < xs.len() && (#[trigger] xs[i]).t >= 0 ==> h.t <= xs[i].t) && color
                == spec_shade_hit(objects, light, spec_prepare(h, r))
    }
}

/// The material of the stock outer sphere, as a mathematical value.
pub open spec fn default_outer_material_view() -> MaterialView {
    MaterialView {
        color: (ColorView { r: 800_000_000, g: crate::fixed::SCALE as int, b: 600_000_000 }),
        ambient: crate::material::DEFAULT_AMBIENT_UNITS as int,
        diffuse: 700_000_000,
        specular: 200_000_000,
        shininess: crate::material::DEFAULT_SHININESS_UNITS as int,
    }
}

/// The stock outer sphere, as a mathematical value.
pub open spec fn default_outer_sphere_view() -> ShapeView {
    ShapeView {
        kind: ShapeKind::Sphere,
        transform: mv_identity(),
        inverse_transform: mv_identity(),
        material: default_outer_material_view(),
    }
}

/// The stock inner sphere at half scale, as a mathematical value.
pub open spec fn default_inner_sphere_view() -> ShapeView {
    ShapeView {
        kind: ShapeKind::Sphere,
        transform: mv_scaling(500_000_000, 500_000_000, 500_000_000),
        inverse_transform: mv_affinize(
            mv_inverse(mv_scaling(500_000_000, 500_000_000, 500_000_000)),
        ),
        material: default_material_view(),
    }
}

/// Sequences with the same multiset hold the same members.
proof fn lemma_same_multiset_same_members(a: Seq<IntersectionView>, b: Seq<IntersectionView>)
    requires
        a.to_multiset() == b.to_multiset(),
    ensures
        forall|x: IntersectionView| a.contains(x) <==> b.contains(x),
{
    broadcast use vstd::seq_lib::group_to_multiset_ensures;

    assert forall|x: IntersectionView| a.contains(x) <==> b.contains(x) by {
        assert(a.contains(x) <==> a.to_multiset().count(x) > 0);
        assert(b.contains(x) <==> b.to_multiset().count(x) > 0);
    }
}

/// A scene: one optional light and the shapes it holds.
pub struct World {
    pub light: Option<PointLight>,
    pub objects: Vec<Shape>,
}

impl World {
    /// A world from a light and its objects.
    pub fn new(light: PointLight, objects: Vec<Shape>) -> (r: World)
        ensures
            r.light == Some(light),
            r.objects@ == objects@,
    {
        World { light: Some(light), objects }
    }

    /// A world with no light and no objects.
    pub fn empty() -> (r: World)
        ensures
            r.light is None,
            r.objects@.len() == 0,
    {
        World { light: None, objects: Vec::new() }
    }

    /// The two stock spheres: an outer colored one and an inner one at half
    /// scale.
    pub fn default_objects() -> (r: Vec<Shape>)
        ensures
            r@.len() == 2,
            r@[0]@ == default_outer_sphere_view(),
            r@[1]@ == default_inner_sphere_view(),
    {
        let m = World::default_outer_material();
        let s1 = Sphere::new_boxed(Some(m), None);
        let half = Scalar::from_units(500_000_000);
        let tr = Matrix::scaling(half, half, half);
        proof {
            World::lemma_half_scaling_invertible();
            assert(crate::matrix::mv_affine(tr@)) by {
                assert(tr@.e[3][0] == 0);
                assert(tr@.e[3][1] == 0);
                assert(tr@.e[3][2] == 0);
                assert(tr@.e[3][3] == crate::fixed::SCALE as int);
            }
        }
        let s2 = Sphere::new_boxed(None, Some(tr));
        let mut v: Vec<Shape> = Vec::new();
        v.push(s1);
        v.push(s2);
        v
    }

    /// The material of the stock outer sphere.
    pub fn default_outer_material() -> (r: Material)
        ensures
            r@ == default_outer_material_view(),
    {
        Material::new(
            Color::new(
                Scalar::from_units(800_000_000),
                Scalar::one(),
                Scalar::from_units(600_000_000),
            ),
            Scalar::from_units(crate::material::DEFAULT_AMBIENT_UNITS),
            Scalar::from_units(700_000_000),
            Scalar::from_units(200_000_000),
            Scalar::from_units(crate::material::DEFAULT_SHININESS_UNITS),
        )
    }

    /// Scaling by one half on every axis has a non-zero determinant.
    proof fn lemma_half_scaling_invertible()
        ensures
            crate::matrix::spec_det(
                crate::transform::mv_scaling(500_000_000, 500_000_000, 500_000_000),
            ) == 125_000_000,
    {
        reveal_with_fuel(crate::matrix::spec_det, 4);
        reveal_with_fuel(crate::matrix::spec_det_sum, 6);
        crate::fixed::lemma_fx_mul_basics();
        let t = crate::transform::mv_scaling(500_000_000, 500_000_000, 500_000_000);
        let s1 = crate::matrix::mv_sub(t, 0, 0);
        let s2 = crate::matrix::mv_sub(s1, 0, 0);
        assert(s2.size == 2 && s2.e[0][0] == 500_000_000 && s2.e[0][1] == 0 && s2.e[1][0] == 0
            && s2.e[1][1] == crate::fixed::SCALE as int);
        assert(crate::matrix::spec_det(s2) == 500_000_000);
        assert(s1.size == 3 && s1.e[0][0] == 500_000_000 && s1.e[0][1] == 0 && s1.e[0][2] == 0);
        assert(crate::matrix::spec_det_sum(s1, 1) == crate::fixed::fx_mul(
            500_000_000,
            crate::matrix::spec_det(s2),
        ));
        assert(crate::fixed::fx_mul(500_000_000, 500_000_000) == 250_000_000);
        assert(crate::matrix::spec_det_sum(s1, 1) == 250_000_000);
        assert(crate::matrix::spec_det_sum(s1, 2) == 250_000_000);
        assert(crate::matrix::spec_det_sum(s1, 3) == 250_000_000);
        assert(crate::matrix::spec_det(s1) == 250_000_000);
        assert(crate::matrix::spec_det_sum(t, 1) == crate::fixed::fx_mul(
            500_000_000,
            crate::matrix::spec_det(s1),
        ));
        assert(crate::fixed::fx_mul(500_000_000, 250_000_000) == 125_000_000);
        assert(crate::matrix::spec_det_sum(t, 2) == 125_000_000);
        assert(crate::matrix::spec_det_sum(t, 3) == 125_000_000);
        assert(crate::matrix::spec_det_sum(t, 4) == 125_000_000);
    }

    /// The stock two-sphere world lit from the upper left.
    pub fn default_world() -> (r: World)
        ensures
            r.light matches Some(l) && l@ == (PointLightView {
                position: (TupleView {
                    x: -10 * crate::fixed::SCALE as int,
                    y: 10 * crate::fixed::SCALE as int,
                    z: -10 * crate::fixed::SCALE as int,
                    w: crate::fixed::SCALE as int,
                }),
                intensity: crate::color::cv_white(),
            }),
            r.objects@.len() == 2,
            r.objects@[0]@ == default_outer_sphere_view(),
            r.objects@[1]@ == default_inner_sphere_view(),
    {
        let light = PointLight::new(
            Tuple::point(Scalar::from_int(-10), Scalar::from_int(10), Scalar::from_int(-10)),
            crate::color::white(),
        );
        World::new(light, World::default_objects())
    }

    /// Intersect a ray with every object and merge the results.
    pub fn intersect(&self, ray: Ray) -> (r: Intersections)
        requires
            rv_wf(ray@),
        ensures
            iv_wf(r@),
            r@.seq.to_multiset() == spec_world_intersections(self.objects@, ray@).to_multiset(),
    {
        let mut xs = Intersections::new(Vec::new());
        proof {
            assert(views_of(Seq::<Intersection>::empty()) =~= Seq::<IntersectionView>::empty());
            broadcast use vstd::seq_lib::group_to_multiset_ensures;

            assert(xs@.seq.to_multiset() =~= spec_world_prefix(
                self.objects@,
                0,
                ray@,
            ).to_multiset());
        }
        let mut i: usize = 0;
        while i < self.objects.len()
            invariant
                0 <= i <= self.objects@.len(),
                rv_wf(ray@),
                iv_wf(xs@),
                xs@.seq.to_multiset() == spec_world_prefix(
                    self.objects@,
                    i as int,
                    ray@,
                ).to_multiset(),
            decreases self.objects@.len() - i,
        {
            let shape_xs = self.objects[i].intersect(ray);
            proof {
                lemma_multiset_commutative(
                    spec_world_prefix(self.objects@, i as int, ray@),
                    spec_shape_intersections(self.objects@[i as int]@, ray@),
                );
            }
            xs.extend(shape_xs);
            i = i + 1;
        }
        xs
    }

    /// Is the point cut off from the light by some object in between?
    pub fn is_shadowed(&self, point: Tuple) -> (r: bool)
        requires
            self.light is Some,
            point@.is_point(),
        ensures
            r == spec_is_shadowed(self.objects@, self.light.unwrap()@, point@),
    {
        let light = self.light.unwrap();
        let v = light.position - point;
        let distance = v.magnitude();
        let direction = v.normalize();
        let r = Ray::new(point, direction);
        let intersections = self.intersect(r);
        let ghost spec_xs = spec_world_intersections(self.objects@, r@);
        proof {
            lemma_same_multiset_same_members(intersections@.seq, spec_xs);
        }
        match intersections.hit() {
            None => {
                proof {
                    assert forall|i: int| 0 <= i < spec_xs.len() implies !(0 <= (#[trigger] spec_xs[i]).t
                        < distance@) by {
                        if 0 <= spec_xs[i].t < distance@ {
                            assert(spec_xs.contains(spec_xs[i]));
                            assert(intersections@.seq.contains(spec_xs[i]));
                        }
                    }
                }
                false
            },
            Some(h) => {
                let shadowed = h.t.units() < distance.units();
                proof {
                    if shadowed {
                        assert(intersections@.seq.contains(h@));
                        assert(spec_xs.contains(h@));
                        let w = choose|i: int| 0 <= i < spec_xs.len() && spec_xs[i] == h@;
                        assert(0 <= spec_xs[w].t < distance@);
                    } else {
                        assert forall|i: int|
                            0 <= i < spec_xs.len() implies !(0 <= (#[trigger] spec_xs[i]).t
                            < distance@) by {
                            if 0 <= spec_xs[i].t < distance@ {
                                assert(spec_xs.contains(spec_xs[i]));
                                assert(intersections@.seq.contains(spec_xs[i]));
                            }
                        }
                    }
                }
                shadowed
            },
        }
    }

    /// Shade one prepared hit with the world's light, testing for shadow at
    /// the over-point.
    pub fn shade_hit(&self, comps: PrecomputedData) -> (r: Color)
        requires
            self.light is Some,
            comps@.over_point.is_point(),
        ensures
            r@ == spec_shade_hit(self.objects@, self.light.unwrap()@, comps@),
    {
        let light = self.light.unwrap();
        let in_shadow = self.is_shadowed(comps.over_point);
        comps.object.material().lighting(&light, comps.point, comps.eyev, comps.normalv, in_shadow)
    }

    /// The color seen along a ray: black on a miss, else the shade of the
    /// nearest hit in front of the ray.
    pub fn color_at(&self, ray: Ray) -> (r: Color)
        requires
            self.light is Some,
            rv_wf(ray@),
        ensures
            spec_color_at_ok(self.objects@, self.light.unwrap()@, ray@, r@),
    {
        proof {
            reveal(spec_color_at_ok);
        }
        let xs = self.intersect(ray);
        let ghost spec_xs = spec_world_intersections(self.objects@, ray@);
        proof {
            lemma_same_multiset_same_members(xs@.seq, spec_xs);
        }
        match xs.hit() {
            None => {
                proof {
                    assert forall|i: int| 0 <= i < spec_xs.len() implies (#[trigger] spec_xs[i]).t
                        < 0 by {
                        assert(spec_xs.contains(spec_xs[i]));
                        assert(xs@.seq.contains(spec_xs[i]));
                    }
                }
                crate::color::black()
            },
            Some(i) => {
                let comps = i.prepare_computations(ray);
                let c = self.shade_hit(comps);
                proof {
                    assert(xs@.seq.contains(i@));
                    assert(spec_xs.contains(i@));
                    assert forall|k: int|
                        0 <= k < spec_xs.len() && (#[trigger] spec_xs[k]).t >= 0 implies i@.t
                        <= spec_xs[k].t by {
                        assert(spec_xs.contains(spec_xs[k]));
                        assert(xs@.seq.contains(spec_xs[k]));
                        let w = choose|j: int|
                            0 <= j < xs@.seq.len() && xs@.seq[j] == spec_xs[k];
                        assert(xs@.seq[w].t >= 0);
                    }
                    assert(!(forall|k: int|
                        0 <= k < spec_xs.len() ==> (#[trigger] spec_xs[k]).t < 0)) by {
                        let w = choose|j: int| 0 <= j < spec_xs.len() && spec_xs[j] == i@;
                        assert(spec_xs[w].t >= 0);
                    }
                }
                c
            },
        }
    }
}

} // verus!

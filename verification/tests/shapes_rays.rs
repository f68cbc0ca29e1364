use ray_tracer::color::green;
use ray_tracer::fixed::Scalar;
use ray_tracer::intersection::{Intersection, Intersections};
use ray_tracer::material::Material;
use ray_tracer::matrix::{identity_matrix, Matrix};
use ray_tracer::plane::Plane;
use ray_tracer::ray::Ray;
use ray_tracer::shape::Shape;
use ray_tracer::sphere::Sphere;
use ray_tracer::tuple::Tuple;

fn s(x: f64) -> Scalar {
    Scalar::from_units((x * 1_000_000_000.0).round() as i128)
}

fn point(x: f64, y: f64, z: f64) -> Tuple {
    Tuple::point(s(x), s(y), s(z))
}

fn vector(x: f64, y: f64, z: f64) -> Tuple {
    Tuple::vector(s(x), s(y), s(z))
}

fn translation(x: f64, y: f64, z: f64) -> Matrix {
    Matrix::translation(s(x), s(y), s(z))
}

fn scaling(x: f64, y: f64, z: f64) -> Matrix {
    Matrix::scaling(s(x), s(y), s(z))
}

fn default_sphere_shape() -> Shape {
    Shape::Sphere(Sphere::default())
}

#[test]
fn creating_querying_ray() {
    let origin = point(1., 2., 3.);
    let direction = vector(4., 5., 6.);
    let r = Ray::new(origin, direction);

    assert_eq!(r.origin, origin);
    assert_eq!(r.direction, direction);
}

#[test]
fn computing_point_from_distance() {
    let r = Ray::new(point(2., 3., 4.), vector(1., 0., 0.));
    assert_eq!(r.position(s(0.)), point(2., 3., 4.));
    assert_eq!(r.position(s(1.)), point(3., 3., 4.));
    assert_eq!(r.position(s(-1.)), point(1., 3., 4.));
    assert_eq!(r.position(s(2.5)), point(4.5, 3., 4.));
}

#[test]
fn translating_ray() {
    let r = Ray::new(point(1., 2., 3.), vector(0., 1., 0.));
    let m = translation(3., 4., 5.);
    let r2 = r.transform(m);

    assert_eq!(r2.origin, point(4., 6., 8.));
    assert_eq!(r2.direction, vector(0., 1., 0.));
}

#[test]
fn scaling_ray() {
    let r = Ray::new(point(1., 2., 3.), vector(0., 1., 0.));
    let m = scaling(2., 3., 4.);
    let r2 = r.transform(m);

    assert_eq!(r2.origin, point(2., 6., 12.));
    assert_eq!(r2.direction, vector(0., 3., 0.));
}

#[test]
fn ray_intersect_sphere_at_two_points() {
    let r = Ray::new(point(0., 0., -5.), vector(0., 0., 1.));
    let sp = Sphere::default();
    let xs = sp.inner_intersect(r);

    assert_eq!(xs.len(), 2);
    assert_eq!(xs.at(0).t, s(4.));
    assert_eq!(xs.at(1).t, s(6.));
}

#[test]
fn ray_intersect_sphere_at_tangent() {
    let r = Ray::new(point(0., 1., -5.), vector(0., 0., 1.));
    let sp = Sphere::default();
    let xs = sp.inner_intersect(r);

    assert_eq!(xs.len(), 2);
    assert_eq!(xs.at(0).t, s(5.));
    assert_eq!(xs.at(1).t, s(5.));
}

#[test]
fn ray_miss_sphere() {
    let r = Ray::new(point(0., 2., -5.), vector(0., 0., 1.));
    let sp = Sphere::default();
    let xs = sp.inner_intersect(r);

    assert_eq!(xs.len(), 0);
}

#[test]
fn ray_originates_insider_sphere() {
    let r = Ray::new(point(0., 0., 0.), vector(0., 0., 1.));
    let sp = Sphere::default();
    let xs = sp.inner_intersect(r);

    assert_eq!(xs.len(), 2);
    assert_eq!(xs.at(0).t, s(-1.));
    assert_eq!(xs.at(1).t, s(1.));
}

#[test]
fn sphere_behind_ray() {
    let r = Ray::new(point(0., 0., 5.), vector(0., 0., 1.));
    let sp = Sphere::default();
    let xs = sp.inner_intersect(r);

    assert_eq!(xs.len(), 2);
    assert_eq!(xs.at(0).t, s(-6.));
    assert_eq!(xs.at(1).t, s(-4.));
}

#[test]
fn normal_on_sphere_on_x_axis() {
    let sp = Sphere::default();
    let n = sp.inner_normal_at(point(1., 0., 0.));

    assert_eq!(n, vector(1., 0., 0.));
}

#[test]
fn normal_on_sphere_on_y_axis() {
    let sp = Sphere::default();
    let n = sp.inner_normal_at(point(0., 1., 0.));

    assert_eq!(n, vector(0., 1., 0.));
}

#[test]
fn normal_on_sphere_on_z_axis() {
    let sp = Sphere::default();
    let n = sp.inner_normal_at(point(0., 0., 1.));

    assert_eq!(n, vector(0., 0., 1.));
}

#[test]
fn normal_on_sphere_on_non_axial_point() {
    let sp = Sphere::default();
    let pv = 3.0f64.sqrt() / 3.0;
    let n = sp.inner_normal_at(point(pv, pv, pv));

    assert_eq!(n, vector(pv, pv, pv));
}

#[test]
fn normal_is_normalized_vector() {
    let sp = Sphere::default();
    let pv = 3.0f64.sqrt() / 3.0;
    let n = sp.inner_normal_at(point(pv, pv, pv));

    assert_eq!(n, n.normalize());
}

#[test]
fn normal_of_plane_is_constant() {
    let p = Plane::new(None, None);
    let n1 = p.inner_normal_at(point(0., 0., 0.));
    let n2 = p.inner_normal_at(point(10., 0., -10.));
    let n3 = p.inner_normal_at(point(-5., 0., 150.));

    assert_eq!(n1, vector(0., 1., 0.));
    assert_eq!(n2, vector(0., 1., 0.));
    assert_eq!(n3, vector(0., 1., 0.));
}

#[test]
fn intersect_with_ray_parallel_to_plane() {
    let p = Plane::new(None, None);
    let r = Ray::new(point(0., 10., 0.), vector(0., 0., 1.));
    let xs = p.inner_intersect(r);

    assert_eq!(xs.len(), 0);
}

#[test]
fn intersect_with_coplanar_ray() {
    let p = Plane::new(None, None);
    let r = Ray::new(point(0., 0., 0.), vector(0., 0., 1.));
    let xs = p.inner_intersect(r);

    assert_eq!(xs.len(), 0);
}

#[test]
fn ray_intersecting_plane_from_above() {
    let p = Plane::new(None, None);
    let r = Ray::new(point(0., 1., 0.), vector(0., -1., 0.));
    let xs = p.inner_intersect(r);

    assert_eq!(xs.len(), 1);
    assert_eq!(xs.at(0).t, s(1.));
    assert_eq!(xs.at(0).object, Shape::Plane(p));
}

#[test]
fn ray_intersecting_plane_from_below() {
    let p = Plane::new(None, None);
    let r = Ray::new(point(0., -1., 0.), vector(0., 1., 0.));
    let xs = p.inner_intersect(r);

    assert_eq!(xs.len(), 1);
    assert_eq!(xs.at(0).t, s(1.));
    assert_eq!(xs.at(0).object, Shape::Plane(p));
}

#[test]
fn default_transformation() {
    let sh = default_sphere_shape();

    assert_eq!(sh.transformation(), identity_matrix());
}

#[test]
fn assign_transformation() {
    let tr = translation(2., 3., 4.);
    let sh = Sphere::new_boxed(None, Some(tr));

    assert_eq!(sh.transformation(), tr);
}

#[test]
fn shape_default_material() {
    let sh = default_sphere_shape();
    let m = sh.material();

    assert_eq!(*m, Material::default());
}

#[test]
fn assign_material() {
    let m = Material::new(green(), s(0.1), s(0.2), s(0.3), s(0.4));
    let sh = Sphere::new_boxed(Some(m), None);

    assert_eq!(*sh.material(), m);
}

#[test]
fn intersect_scaled_shape_with_ray() {
    let r = Ray::new(point(0., 0., -5.), vector(0., 0., 1.));
    let tr = scaling(2., 2., 2.);
    let sh = Sphere::new_boxed(None, Some(tr));
    let object_ray = r.transform(sh.inverse_transformation());

    assert_eq!(object_ray.origin, point(0., 0., -2.5));
    assert_eq!(object_ray.direction, vector(0., 0., 0.5));
}

#[test]
fn intersect_translated_shape_with_ray() {
    let r = Ray::new(point(0., 0., -5.), vector(0., 0., 1.));
    let tr = translation(5., 0., 0.);
    let sh = Sphere::new_boxed(None, Some(tr));
    let object_ray = r.transform(sh.inverse_transformation());

    assert_eq!(object_ray.origin, point(-5., 0., -5.));
    assert_eq!(object_ray.direction, vector(0., 0., 1.));
}

#[test]
fn compute_normal_on_translated_shape() {
    let tr = translation(0., 1., 0.);
    let sh = Sphere::new_boxed(None, Some(tr));
    let n = sh.normal_at(point(0., 1.70711, -0.70711));

    assert_eq!(n, vector(0., 0.70711, -0.70711));
}

#[test]
fn compute_normal_on_transformed_shape() {
    let tr = scaling(1., 0.5, 1.) * Matrix::rotation_z(s(std::f64::consts::PI / 5.));
    let sh = Sphere::new_boxed(None, Some(tr));
    let pv = 2.0f64.sqrt() / 2.;
    let n = sh.normal_at(point(0., pv, -pv));

    assert_eq!(n, vector(0., 0.97014, -0.24254));
}

#[test]
fn intersection_encapsulates_t_and_object() {
    let sh = default_sphere_shape();
    let i = Intersection::new(s(3.5), sh);

    assert_eq!(i.t, s(3.5));
    assert_eq!(i.object, sh);
}

#[test]
fn aggregate_intersections() {
    let sh = default_sphere_shape();
    let i1 = Intersection::new(s(1.), sh);
    let i2 = Intersection::new(s(2.), sh);
    let xs = Intersections::new(vec![i1, i2]);

    assert_eq!(2, xs.len());
    assert_eq!(s(1.), xs.at(0).t);
    assert_eq!(s(2.), xs.at(1).t);
}

#[test]
fn aggregate_intersections_with_add() {
    let sh = default_sphere_shape();
    let i1 = Intersection::new(s(1.), sh);
    let i2 = Intersection::new(s(2.), sh);
    let i3 = Intersection::new(s(3.), sh);
    let i4 = Intersection::new(s(4.), sh);
    let xs = Intersections::new(vec![i1, i2, i3, i4]);

    assert_eq!(4, xs.len());
    assert_eq!(s(1.), xs.at(0).t);
    assert_eq!(s(2.), xs.at(1).t);
    assert_eq!(s(3.), xs.at(2).t);
    assert_eq!(s(4.), xs.at(3).t);
}

#[test]
fn intersect_sets_object_on_intersection() {
    let r = Ray::new(point(0., 0., -5.), vector(0., 0., 1.));
    let sh = default_sphere_shape();
    let xs = sh.intersect(r);

    assert_eq!(2, xs.len());
    assert_eq!(xs.at(0).object, sh);
    assert_eq!(xs.at(1).object, sh);
}

#[test]
fn hit_all_intersections_positive_t() {
    let sh = default_sphere_shape();
    let i1 = Intersection::new(s(1.), sh);
    let i2 = Intersection::new(s(2.), sh);
    let xs = Intersections::new(vec![i2, i1]);
    let i = xs.hit().unwrap();

    assert_eq!(i, i1);
}

#[test]
fn hit_some_intersections_negative_t() {
    let sh = default_sphere_shape();
    let i1 = Intersection::new(s(-1.), sh);
    let i2 = Intersection::new(s(1.), sh);
    let xs = Intersections::new(vec![i2, i1]);
    let i = xs.hit().unwrap();

    assert_eq!(i, i2);
}

#[test]
fn hit_all_intersections_negative_t() {
    let sh = default_sphere_shape();
    let i1 = Intersection::new(s(-2.), sh);
    let i2 = Intersection::new(s(-1.), sh);
    let xs = Intersections::new(vec![i2, i1]);
    let i = xs.hit();

    assert!(i.is_none());
}

#[test]
fn hit_lowest_non_negative_intersection() {
    let sh = default_sphere_shape();
    let i1 = Intersection::new(s(5.), sh);
    let i2 = Intersection::new(s(7.), sh);
    let i3 = Intersection::new(s(-3.), sh);
    let i4 = Intersection::new(s(2.), sh);
    let xs = Intersections::new(vec![i1, i2, i3, i4]);
    let i = xs.hit().unwrap();

    assert_eq!(i, i4);
}

#[test]
fn extend_intersections_gets_union() {
    let s1 = default_sphere_shape();
    let i1 = Intersection::new(s(5.), s1);
    let i2 = Intersection::new(s(7.), s1);
    let i3 = Intersection::new(s(-3.), s1);
    let i4 = Intersection::new(s(2.), s1);
    let mut xs1 = Intersections::new(vec![i1, i2, i3, i4]);

    let s2 = default_sphere_shape();
    let i5 = Intersection::new(s(-1.), s2);
    let i6 = Intersection::new(s(1.), s2);
    let i7 = Intersection::new(s(2.), s2);
    let xs2 = Intersections::new(vec![i5, i6, i7]);

    xs1.extend(xs2);

    assert_eq!(xs1.len(), 7);
    assert_eq!(xs1.hit().unwrap(), i6);
}

#[test]
fn precompute_state_of_intersection() {
    let r = Ray::new(point(0., 0., -5.), vector(0., 0., 1.));
    let shape = default_sphere_shape();
    let i = Intersection::new(s(4.), shape);
    let comps = i.prepare_computations(r);

    assert_eq!(comps.t, i.t);
    assert_eq!(comps.point, point(0., 0., -1.));
    assert_eq!(comps.eyev, vector(0., 0., -1.));
}

#[test]
fn hit_when_intersection_on_outside() {
    let r = Ray::new(point(0., 0., -5.), vector(0., 0., 1.));
    let shape = default_sphere_shape();
    let i = Intersection::new(s(4.), shape);
    let comps = i.prepare_computations(r);

    assert!(!comps.inside);
}

#[test]
fn hit_when_intersection_on_inside() {
    let r = Ray::new(point(0., 0., 0.), vector(0., 0., 1.));
    let shape = default_sphere_shape();
    let i = Intersection::new(s(1.), shape);
    let comps = i.prepare_computations(r);

    assert_eq!(comps.point, point(0., 0., 1.));
    assert_eq!(comps.eyev, vector(0., 0., -1.));
    assert!(comps.inside);
    assert_eq!(comps.normalv, vector(0., 0., -1.));
}

#[test]
fn hit_should_offset_point() {
    let r = Ray::new(point(0., 0., -5.), vector(0., 0., 1.));
    let transform = translation(0., 0., 1.);
    let shape = Sphere::new_boxed(None, Some(transform));
    let i = Intersection::new(s(5.), shape);
    let comps = i.prepare_computations(r);
    assert!(comps.over_point.z < Scalar::epsilon() / s(-2.));
    assert!(comps.point.z > comps.over_point.z);
}

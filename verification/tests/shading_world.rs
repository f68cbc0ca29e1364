use ray_tracer::approx_eq;
use ray_tracer::camera::Camera;
use ray_tracer::canvas::Canvas;
use ray_tracer::color::{black, white, Color};
use ray_tracer::fixed::Scalar;
use ray_tracer::intersection::Intersection;
use ray_tracer::material::Material;
use ray_tracer::matrix::{identity_matrix, Matrix};
use ray_tracer::pattern::{GradientPattern, StripePattern};
use ray_tracer::pointlight::PointLight;
use ray_tracer::ray::Ray;
use ray_tracer::plane::Plane;
use ray_tracer::shape::Shape;
use ray_tracer::sphere::Sphere;
use ray_tracer::tuple::{origo, Tuple};
use ray_tracer::world::World;

fn s(x: f64) -> Scalar {
    Scalar::from_units((x * 1_000_000_000.0).round() as i128)
}

fn point(x: f64, y: f64, z: f64) -> Tuple {
    Tuple::point(s(x), s(y), s(z))
}

fn vector(x: f64, y: f64, z: f64) -> Tuple {
    Tuple::vector(s(x), s(y), s(z))
}

fn color(r: f64, g: f64, b: f64) -> Color {
    Color::new(s(r), s(g), s(b))
}

fn translation(x: f64, y: f64, z: f64) -> Matrix {
    Matrix::translation(s(x), s(y), s(z))
}

fn scaling(x: f64, y: f64, z: f64) -> Matrix {
    Matrix::scaling(s(x), s(y), s(z))
}

#[test]
fn material_default_material() {
    let m = Material::default();
    assert_eq!(m.ambient, s(0.1));
    assert_eq!(m.diffuse, s(0.9));
    assert_eq!(m.specular, s(0.9));
    assert_eq!(m.shininess, s(200.));
}

#[test]
fn lighing_eye_between_light_and_surface() {
    let m = Material::default();
    let position = origo();
    let eyev = vector(0., 0., -1.);
    let normalv = vector(0., 0., -1.);
    let light = PointLight::new(point(0., 0., -10.), white());
    let result = m.lighting(&light, position, eyev, normalv, false);

    assert_eq!(result, color(1.9, 1.9, 1.9));
}

#[test]
fn lighing_eye_between_light_and_surface_eye_offset_45_degrees() {
    let m = Material::default();
    let position = origo();
    let pv = 2.0f64.sqrt() / 2.0;
    let eyev = vector(0., pv, -pv);
    let normalv = vector(0., 0., -1.);
    let light = PointLight::new(point(0., 0., -10.), white());
    let result = m.lighting(&light, position, eyev, normalv, false);

    assert_eq!(result, color(1., 1., 1.));
}

#[test]
fn lighing_eye_opposite_surface_light_offset_45_degrees() {
    let m = Material::default();
    let position = origo();
    let eyev = vector(0., 0., -1.0);
    let normalv = vector(0., 0., -1.);
    let light = PointLight::new(point(0., 10., -10.), white());
    let result = m.lighting(&light, position, eyev, normalv, false);

    assert_eq!(result, color(0.7364, 0.7364, 0.7364));
}

#[test]
fn lighing_eye_in_path_of_reflection_vector() {
    let m = Material::default();
    let position = origo();
    let pv = -2.0f64.sqrt() / 2.0;
    let eyev = vector(0., pv, pv);
    let normalv = vector(0., 0., -1.);
    let light = PointLight::new(point(0., 10., -10.), white());
    let result = m.lighting(&light, position, eyev, normalv, false);

    assert_eq!(result, color(1.6364, 1.6364, 1.6364));
}

#[test]
fn lighing_light_behind_surface() {
    let m = Material::default();
    let position = origo();
    let eyev = vector(0., 0., -1.0);
    let normalv = vector(0., 0., -1.);
    let light = PointLight::new(point(0., 0., 10.), white());
    let result = m.lighting(&light, position, eyev, normalv, false);

    assert_eq!(result, color(0.1, 0.1, 0.1));
}

#[test]
fn lighing_with_surface_in_shadow() {
    let m = Material::default();
    let position = origo();
    let eyev = vector(0., 0., -1.);
    let normalv = vector(0., 0., -1.);
    let light = PointLight::new(point(0., 0., -10.), white());
    let in_shadow = true;
    let result = m.lighting(&light, position, eyev, normalv, in_shadow);

    assert_eq!(result, color(0.1, 0.1, 0.1));
}

#[test]
fn empty_world() {
    let w = World::empty();

    assert_eq!(w.objects.len(), 0);
    assert!(w.light.is_none());
}

#[test]
fn test_default_world() {
    let light = PointLight::new(point(-10., 10., -10.), white());
    let w = World::default_world();
    assert_eq!(w.light.unwrap(), light);

    let m = w.objects[0].material();
    assert_eq!(m.color, color(0.8, 1., 0.6));
    assert_eq!(m.diffuse, s(0.7));
    assert_eq!(m.specular, s(0.2));

    let tr = w.objects[1].transformation();
    assert_eq!(tr, scaling(0.5, 0.5, 0.5));
}

#[test]
fn intersect_world_with_ray() {
    let w = World::default_world();
    let r = Ray::new(point(0., 0., -5.), vector(0., 0., 1.));
    let xs = w.intersect(r);

    assert_eq!(xs.len(), 4);
    assert_eq!(xs.at(0).t, s(4.));
    assert_eq!(xs.at(1).t, s(4.5));
    assert_eq!(xs.at(2).t, s(5.5));
    assert_eq!(xs.at(3).t, s(6.));
}

#[test]
fn shading_intersection() {
    let w = World::default_world();
    let r = Ray::new(point(0., 0., -5.), vector(0., 0., 1.));
    let shape = w.objects[0];
    let i = Intersection::new(s(4.), shape);
    let comps = i.prepare_computations(r);
    let c = w.shade_hit(comps);

    assert_eq!(c, color(0.38066, 0.47583, 0.2855));
}

#[test]
fn shading_intersection_from_inside() {
    let light = PointLight::new(point(0., 0.25, 0.), white());
    let w = World::new(light, World::default_objects());
    let r = Ray::new(origo(), vector(0., 0., 1.));
    let shape = w.objects[1];
    let i = Intersection::new(s(0.5), shape);
    let comps = i.prepare_computations(r);
    let c = w.shade_hit(comps);

    assert_eq!(c, color(0.90498, 0.90498, 0.90498));
}

#[test]
fn color_when_ray_misses() {
    let w = World::default_world();
    let r = Ray::new(point(0., 0., -5.), vector(0., 1., 0.));
    let c = w.color_at(r);

    assert_eq!(c, black());
}

#[test]
fn color_when_ray_hits() {
    let w = World::default_world();
    let r = Ray::new(point(0., 0., -5.), vector(0., 0., 1.));
    let c = w.color_at(r);

    assert_eq!(c, color(0.38066, 0.47583, 0.2855));
}

#[test]
fn color_with_intersection_behind_ray() {
    let m1 = Material::new(color(0.8, 1., 0.6), s(1.), s(0.7), s(0.2), s(200.));
    let s1 = Sphere::new_boxed(Some(m1), None);
    let tr = scaling(0.5, 0.5, 0.5);
    let inner_color = white();
    let m2 = Material::new(inner_color, s(1.), s(0.9), s(0.9), s(200.));
    let s2 = Sphere::new_boxed(Some(m2), Some(tr));
    let light = PointLight::new(point(-10., 10., -10.), white());
    let w = World::new(light, vec![s1, s2]);
    let r = Ray::new(point(0., 0., 0.75), vector(0., 0., -1.));
    let c = w.color_at(r);

    assert_eq!(c, inner_color);
}

#[test]
fn no_shadow_when_nothing_collinear_with_point_and_light() {
    let w = World::default_world();
    let p = point(0., 10., 0.);

    assert!(!w.is_shadowed(p));
}

#[test]
fn shadow_when_object_between_point_and_light() {
    let w = World::default_world();
    let p = point(10., -10., 10.);

    assert!(w.is_shadowed(p));
}

#[test]
fn no_shadow_when_point_behind_light() {
    let w = World::default_world();
    let p = point(-20., 20., -20.);

    assert!(!w.is_shadowed(p));
}

#[test]
fn no_shadow_when_object_behind_point() {
    let w = World::default_world();
    let p = point(-2., 2., -2.);

    assert!(!w.is_shadowed(p));
}

#[test]
fn shade_hit_given_intersection_in_shadow() {
    let light = PointLight::new(point(0., 0., -10.), white());
    let s1 = Sphere::default_boxed();
    let s2_transform = translation(0., 0., 10.);
    let s2 = Sphere::new_boxed(None, Some(s2_transform));

    let w = World::new(light, vec![s1, s2]);

    let r = Ray::new(point(0., 0., 5.), vector(0., 0., 1.));
    let i = Intersection::new(s(4.), s2);
    let comps = i.prepare_computations(r);
    let c = w.shade_hit(comps);

    assert_eq!(c, color(0.1, 0.1, 0.1));
}

#[test]
fn create_stripe_pattern() {
    let pattern = StripePattern::new(white(), black(), None);
    let boxed = ray_tracer::pattern::Pattern::Stripe(pattern);

    assert_eq!(boxed.color_a(), white());
    assert_eq!(boxed.color_b(), black());
}

#[test]
fn stripe_pattern_constant_in_y() {
    let pattern = StripePattern::new_boxed(white(), black(), None);
    assert_eq!(pattern.inner_pattern_at(point(0., 0., 0.)), white());
    assert_eq!(pattern.inner_pattern_at(point(0., 1., 0.)), white());
    assert_eq!(pattern.inner_pattern_at(point(0., 2., 0.)), white());
}

#[test]
fn stripe_pattern_constant_in_z() {
    let pattern = StripePattern::new_boxed(white(), black(), None);
    assert_eq!(pattern.inner_pattern_at(point(0., 0., 0.)), white());
    assert_eq!(pattern.inner_pattern_at(point(0., 0., 1.)), white());
    assert_eq!(pattern.inner_pattern_at(point(0., 0., 2.)), white());
}

#[test]
fn stripe_pattern_alternates_in_x() {
    let pattern = StripePattern::new_boxed(white(), black(), None);
    assert_eq!(pattern.inner_pattern_at(point(0., 0., 0.)), white());
    assert_eq!(pattern.inner_pattern_at(point(0.9, 0., 0.)), white());
    assert_eq!(pattern.inner_pattern_at(point(1., 0., 0.)), black());
    assert_eq!(pattern.inner_pattern_at(point(-0.1, 0., 0.)), black());
    assert_eq!(pattern.inner_pattern_at(point(-1., 0., 0.)), black());
    assert_eq!(pattern.inner_pattern_at(point(-1.1, 0., 0.)), white());
}

#[test]
fn stripe_pattern_alternates_across_negative_even_integers() {
    let pattern = StripePattern::new_boxed(white(), black(), None);
    assert_eq!(pattern.inner_pattern_at(point(2., 0., 0.)), white());
    assert_eq!(pattern.inner_pattern_at(point(-2., 0., 0.)), white());
    assert_eq!(pattern.inner_pattern_at(point(-2.5, 0., 0.)), black());
    assert_eq!(pattern.inner_pattern_at(point(-3., 0., 0.)), black());
    assert_eq!(pattern.inner_pattern_at(point(-4., 0., 0.)), white());
}

#[test]
fn stripes_with_object_transformation() {
    let o = Sphere::new_boxed(None, Some(scaling(2., 2., 2.)));
    let pattern = StripePattern::new_boxed(white(), black(), None);
    let c = pattern.pattern_at_shape(&o, point(1.5, 0., 0.));
    assert_eq!(white(), c);
}

#[test]
fn stripes_with_pattern_transformation() {
    let o = Sphere::new_boxed(None, None);
    let pattern = StripePattern::new_boxed(white(), black(), Some(scaling(2., 2., 2.)));
    let c = pattern.pattern_at_shape(&o, point(1.5, 0., 0.));
    assert_eq!(white(), c);
}

#[test]
fn stripes_with_object_and_pattern_transformation() {
    let o = Sphere::new_boxed(None, Some(scaling(2., 2., 2.)));
    let pattern = StripePattern::new_boxed(white(), black(), Some(translation(0.5, 0., 0.)));
    let c = pattern.pattern_at_shape(&o, point(2.5, 0., 0.));
    assert_eq!(white(), c);
}

#[test]
fn default_pattern_transformation() {
    let tp = GradientPattern::new_boxed(white(), black(), None);
    assert_eq!(tp.transformation(), identity_matrix());
}

#[test]
fn assign_transformation_to_pattern() {
    let tp = GradientPattern::new_boxed(white(), black(), Some(translation(1., 2., 3.)));
    assert_eq!(tp.transformation(), translation(1., 2., 3.));
}

#[test]
fn pattern_with_object_transformation() {
    let shape = Sphere::new_boxed(None, Some(scaling(2., 2., 2.)));
    let tp = GradientPattern::new_boxed(white(), black(), None);
    let c = tp.pattern_at_shape(&shape, point(1.5, 3., 4.));
    assert_eq!(c, color(0.25, 0.25, 0.25));
}

#[test]
fn pattern_with_pattern_transformation() {
    let shape = Sphere::new_boxed(None, None);
    let tp = GradientPattern::new_boxed(white(), black(), Some(scaling(2., 2., 2.)));
    let c = tp.pattern_at_shape(&shape, point(1.5, 3., 4.));
    assert_eq!(c, color(0.25, 0.25, 0.25));
}

#[test]
fn pattern_with_object_and_pattern_transformation() {
    let shape = Sphere::new_boxed(None, Some(scaling(2., 2., 2.)));
    let tp = GradientPattern::new_boxed(white(), black(), Some(translation(0.5, 1., 1.5)));
    let c = tp.pattern_at_shape(&shape, point(2.5, 3., 3.5));
    assert_eq!(c, color(0.25, 0.25, 0.25));
}

#[test]
fn gradient_linearly_interpolates_between_colors() {
    let pattern = GradientPattern::new(white(), black(), None);
    let boxed = ray_tracer::pattern::Pattern::Gradient(pattern);
    assert_eq!(boxed.inner_pattern_at(point(0., 0., 0.)), white());
    assert_eq!(
        boxed.inner_pattern_at(point(0.25, 0., 0.)),
        color(0.75, 0.75, 0.75)
    );
    assert_eq!(boxed.inner_pattern_at(point(0.5, 0., 0.)), color(0.5, 0.5, 0.5));
    assert_eq!(
        boxed.inner_pattern_at(point(0.75, 0., 0.)),
        color(0.25, 0.25, 0.25)
    );
}

#[test]
fn creating_canvas() {
    let c = Canvas::new(10, 20);

    assert_eq!(c.width(), 10);
    assert_eq!(c.height(), 20);

    for y in 0..20 {
        for x in 0..10 {
            assert_eq!(c.pixel_at(x, y), black());
        }
    }
}

#[test]
fn writing_pixel_to_canvas() {
    let mut c = Canvas::new(10, 20);
    let red = color(1., 0., 0.);

    c.write_pixel(2, 3, red);

    assert_eq!(c.pixel_at(2, 3), red);
}

#[test]
fn construct_pixel_data() {
    const WIDTH: usize = 5;
    const HEIGHT: usize = 3;
    const BYTES_PER_PIXEL: usize = 3;

    let mut c = Canvas::new(WIDTH, HEIGHT);
    let c1 = color(1.5, 0., 0.);
    let c2 = color(0., 0.5, 0.);
    let c3 = color(-0.5, 0., 1.);

    c.write_pixel(0, 0, c1);
    c.write_pixel(2, 1, c2);
    c.write_pixel(4, 2, c3);

    let rgb_bytes = c.to_rgb_bytes();

    assert_eq!(255u8, rgb_bytes[0]);
    assert_eq!(128u8, rgb_bytes[(2 + 1 * WIDTH) * BYTES_PER_PIXEL + 1]);
    assert_eq!(0u8, rgb_bytes[(4 + 2 * WIDTH) * BYTES_PER_PIXEL + 0]);
    assert_eq!(255u8, rgb_bytes[(4 + 2 * WIDTH) * BYTES_PER_PIXEL + 2]);
}

#[test]
fn construct_camera() {
    let c = Camera::new(160, 120, s(std::f64::consts::FRAC_PI_2), None);

    assert_eq!(c.hsize(), 160);
    assert_eq!(c.vsize(), 120);
    assert_eq!(c.field_of_view(), s(std::f64::consts::FRAC_PI_2));
    assert_eq!(c.transformation(), identity_matrix());
}

#[test]
fn pixel_size_horizontal_canvas() {
    let c = Camera::new(200, 125, s(std::f64::consts::FRAC_PI_2), None);
    assert!(approx_eq(c.pixel_size(), s(0.01)));
}

#[test]
fn pixel_size_vertical_canvas() {
    let c = Camera::new(125, 200, s(std::f64::consts::FRAC_PI_2), None);
    assert!(approx_eq(c.pixel_size(), s(0.01)));
}

#[test]
fn construct_ray_through_center_of_canvas() {
    let c = Camera::new(201, 101, s(std::f64::consts::FRAC_PI_2), None);
    let r = c.ray_for_pixel(100, 50);

    assert_eq!(r.origin, origo());
    assert_eq!(r.direction, vector(0., 0., -1.));
}

#[test]
fn construct_ray_through_corner_of_canvas() {
    let c = Camera::new(201, 101, s(std::f64::consts::FRAC_PI_2), None);
    let r = c.ray_for_pixel(0, 0);

    assert_eq!(r.origin, origo());
    assert_eq!(r.direction, vector(0.66519, 0.33259, -0.66851));
}

#[test]
fn construct_ray_when_camera_transformed() {
    let t = Matrix::rotation_y(s(std::f64::consts::FRAC_PI_4)) * translation(0., -2., 5.);
    let c = Camera::new(201, 101, s(std::f64::consts::FRAC_PI_2), Some(t));
    let r = c.ray_for_pixel(100, 50);

    let pv = 2.0f64.sqrt() / 2.;
    assert_eq!(r.origin, point(0., 2., -5.));
    assert_eq!(r.direction, vector(pv, 0., -pv));
}

#[test]
fn render_default_world_center_pixel() {
    let w = World::default_world();
    let from = point(0., 0., -5.);
    let to = origo();
    let up = vector(0., 1., 0.);
    let t = Matrix::view_transform(from, to, up);
    let c = Camera::new(11, 11, s(std::f64::consts::FRAC_PI_2), Some(t));
    let image = c.render(&w);

    assert_eq!(image.pixel_at(5, 5), color(0.38066, 0.47583, 0.2855));
}

#[test]
fn color_at_plane_floor_lit_from_above() {
    let light = PointLight::new(point(0., 10., 0.), white());
    let floor = Shape::Plane(Plane::new(None, None));
    let w = World::new(light, vec![floor]);
    let r = Ray::new(point(0., 1., 0.), vector(0., -1., 0.));
    let c = w.color_at(r);

    assert_eq!(c, color(1.9, 1.9, 1.9));
}

#[test]
fn color_at_ray_parallel_to_plane_floor() {
    let light = PointLight::new(point(0., 10., 0.), white());
    let floor = Shape::Plane(Plane::new(None, None));
    let w = World::new(light, vec![floor]);
    let r = Ray::new(point(0., 1., 0.), vector(0., 0., 1.));
    let c = w.color_at(r);

    assert_eq!(c, black());
}

#[test]
fn extend_with_empty_collection_keeps_hit() {
    let sh = Sphere::default_boxed();
    let i1 = Intersection::new(s(2.), sh);
    let i2 = Intersection::new(s(-1.), sh);
    let mut xs = ray_tracer::intersection::Intersections::new(vec![i1, i2]);
    let empty = ray_tracer::intersection::Intersections::new(vec![]);

    xs.extend(empty);

    assert_eq!(xs.len(), 2);
    assert_eq!(xs.hit().unwrap(), i1);
}

use ray_tracer::fixed::Scalar;
use ray_tracer::matrix::{identity_matrix, Matrix};
use ray_tracer::tuple::{origo, Tuple};

fn s(x: f64) -> Scalar {
    Scalar::from_units((x * 1_000_000_000.0).round() as i128)
}

fn point(x: f64, y: f64, z: f64) -> Tuple {
    Tuple::point(s(x), s(y), s(z))
}

fn vector(x: f64, y: f64, z: f64) -> Tuple {
    Tuple::vector(s(x), s(y), s(z))
}

fn tuple(x: f64, y: f64, z: f64, w: f64) -> Tuple {
    Tuple::new(s(x), s(y), s(z), s(w))
}

fn r4(a: [f64; 4]) -> [Scalar; 4] {
    [s(a[0]), s(a[1]), s(a[2]), s(a[3])]
}

fn r3(a: [f64; 3]) -> [Scalar; 3] {
    [s(a[0]), s(a[1]), s(a[2])]
}

fn r2(a: [f64; 2]) -> [Scalar; 2] {
    [s(a[0]), s(a[1])]
}

fn m4(a: [f64; 4], b: [f64; 4], c: [f64; 4], d: [f64; 4]) -> Matrix {
    Matrix::new(r4(a), r4(b), r4(c), r4(d))
}

fn m3(a: [f64; 3], b: [f64; 3], c: [f64; 3]) -> Matrix {
    Matrix::new3(r3(a), r3(b), r3(c))
}

fn m2(a: [f64; 2], b: [f64; 2]) -> Matrix {
    Matrix::new2(r2(a), r2(b))
}

fn translation(x: f64, y: f64, z: f64) -> Matrix {
    Matrix::translation(s(x), s(y), s(z))
}

fn scaling(x: f64, y: f64, z: f64) -> Matrix {
    Matrix::scaling(s(x), s(y), s(z))
}

#[test]
fn construct_4x4_matrix() {
    let m = m4(
        [1., 2., 3., 4.],
        [5.5, 6.5, 7.5, 8.5],
        [9., 10., 11., 12.],
        [13.5, 14.5, 15.5, 16.5],
    );
    assert_eq!(s(1.), m.at(0, 0));
    assert_eq!(s(4.), m.at(0, 3));
    assert_eq!(s(5.5), m.at(1, 0));
    assert_eq!(s(7.5), m.at(1, 2));
    assert_eq!(s(11.), m.at(2, 2));
    assert_eq!(s(13.5), m.at(3, 0));
    assert_eq!(s(15.5), m.at(3, 2));
}

#[test]
fn construct_3x3_matrix() {
    let m = m3([-3., 5., 0.], [1., -2., -7.], [0., 1., 1.]);
    assert_eq!(s(-3.), m.at(0, 0));
    assert_eq!(s(-2.), m.at(1, 1));
    assert_eq!(s(1.), m.at(2, 2));
}

#[test]
fn construct_2x2_matrix() {
    let m = m2([-3., 5.], [1., -2.]);
    assert_eq!(s(-3.), m.at(0, 0));
    assert_eq!(s(5.), m.at(0, 1));
    assert_eq!(s(1.), m.at(1, 0));
    assert_eq!(s(-2.), m.at(1, 1));
}

#[test]
fn matrix_equality_identical_matrices() {
    let a = m4(
        [1., 2., 3., 4.],
        [5., 6., 7., 8.],
        [9., 8., 7., 6.],
        [5., 4., 3., 2.],
    );
    let b = m4(
        [1., 2., 3., 4.],
        [5., 6., 7., 8.],
        [9., 8., 7., 6.],
        [5., 4., 3., 2.],
    );

    assert_eq!(a, b);
}

#[test]
fn matrix_equality_different_matrices() {
    let a = m4(
        [1., 2., 3., 4.],
        [5., 6., 7., 8.],
        [9., 8., 7., 6.],
        [5., 4., 3., 2.],
    );
    let b = m4(
        [1., 2., 3., 4.],
        [5., 6., 7., 8.],
        [9., 8., 7., 6.],
        [5., 4., 3., 1.],
    );

    assert_ne!(a, b);
}

#[test]
fn multiplying_two_matrices() {
    let a = m4(
        [1., 2., 3., 4.],
        [5., 6., 7., 8.],
        [9., 8., 7., 6.],
        [5., 4., 3., 2.],
    );
    let b = m4(
        [-2., 1., 2., 3.],
        [3., 2., 1., -1.],
        [4., 3., 6., 5.],
        [1., 2., 7., 8.],
    );
    let expected = m4(
        [20., 22., 50., 48.],
        [44., 54., 114., 108.],
        [40., 58., 110., 102.],
        [16., 26., 46., 42.],
    );

    let result = a * b;
    assert_eq!(expected, result);
}

#[test]
fn tuple_from_matrix_row() {
    let a = m4(
        [1., 2., 3., 4.],
        [5., 6., 7., 8.],
        [9., 8., 7., 6.],
        [5., 4., 3., 2.],
    );
    let b = tuple(5., 4., 3., 2.);

    assert_eq!(b, a.tuple(3));
}

#[test]
fn multiply_matrix_by_tuple() {
    let a = m4(
        [1., 2., 3., 4.],
        [2., 4., 4., 2.],
        [8., 6., 4., 1.],
        [0., 0., 0., 1.],
    );
    let b = tuple(1., 2., 3., 1.);
    let expected = tuple(18., 24., 33., 1.);

    assert_eq!(expected, a * b);
}

#[test]
fn multiply_matrix_by_identity_matrix() {
    let a = m4(
        [0., 1., 2., 8.],
        [1., 2., 4., 8.],
        [2., 4., 8., 16.],
        [4., 8., 16., 32.],
    );

    assert_eq!(a, a * identity_matrix());
}

#[test]
fn transpose_matrix() {
    let a = m4(
        [0., 9., 3., 0.],
        [9., 8., 0., 8.],
        [1., 8., 5., 3.],
        [0., 0., 5., 8.],
    );
    let expected = m4(
        [0., 9., 1., 0.],
        [9., 8., 8., 0.],
        [3., 0., 5., 5.],
        [0., 8., 3., 8.],
    );

    assert_eq!(expected, a.transpose());
}

#[test]
fn transpose_identity_matrix() {
    assert_eq!(identity_matrix(), identity_matrix().transpose());
}

#[test]
fn determinant_2x2_matrix() {
    let a = m2([1., 5.], [-3., 2.]);
    assert_eq!(s(17.), a.determinant());
}

#[test]
fn submatrix_of_3x3_is_2x2_matrix() {
    let a = m3([1., 5., 0.], [-3., 2., 7.], [0., 6., -3.]);
    let expected = m2([-3., 2.], [0., 6.]);
    assert_eq!(expected, a.submatrix(0, 2));
}

#[test]
fn submatrix_of_4x4_is_3x3_matrix() {
    let a = m4(
        [-6., 1., 1., 6.],
        [-8., 5., 8., 6.],
        [-1., 0., 8., 2.],
        [-7., 1., -1., 1.],
    );
    let expected = m3([-6., 1., 6.], [-8., 8., 6.], [-7., -1., 1.]);
    assert_eq!(expected, a.submatrix(2, 1));
}

#[test]
fn minor_of_3x3_matrix() {
    let a = m3([3., 5., 0.], [2., -1., -7.], [6., -1., 5.]);
    let b = a.submatrix(1, 0);
    assert_eq!(s(25.), b.determinant());
    assert_eq!(s(25.), a.minor(1, 0));
}

#[test]
fn cofactor_of_3x3_matrix() {
    let a = m3([3., 5., 0.], [2., -1., -7.], [6., -1., 5.]);
    assert_eq!(s(-12.), a.minor(0, 0));
    assert_eq!(s(-12.), a.cofactor(0, 0));
    assert_eq!(s(25.), a.minor(1, 0));
    assert_eq!(s(-25.), a.cofactor(1, 0));
}

#[test]
fn determinant_of_3x3_matrix() {
    let a = m3([1., 2., 6.], [-5., 8., -4.], [2., 6., 4.]);
    assert_eq!(s(56.), a.cofactor(0, 0));
    assert_eq!(s(12.), a.cofactor(0, 1));
    assert_eq!(s(-46.), a.cofactor(0, 2));
    assert_eq!(s(-196.), a.determinant());
}

#[test]
fn determinant_of_4x4_matrix() {
    let a = m4(
        [-2., -8., 3., 5.],
        [-3., 1., 7., 3.],
        [1., 2., -9., 6.],
        [-6., 7., 7., -9.],
    );
    assert_eq!(s(690.), a.cofactor(0, 0));
    assert_eq!(s(447.), a.cofactor(0, 1));
    assert_eq!(s(210.), a.cofactor(0, 2));
    assert_eq!(s(51.), a.cofactor(0, 3));
    assert_eq!(s(-4071.), a.determinant());
}

#[test]
fn matrix_is_invertible() {
    let a = m4(
        [6., 4., 4., 4.],
        [5., 5., 7., 6.],
        [4., -9., 3., -7.],
        [9., 1., 7., -6.],
    );
    assert_eq!(s(-2120.), a.determinant());
    assert!(a.inverse().is_some());
}

#[test]
fn matrix_is_not_invertible() {
    let a = m4(
        [-4., 2., -2., -3.],
        [9., 6., 2., 6.],
        [0., -5., 1., -5.],
        [0., 0., 0., 0.],
    );
    assert_eq!(s(0.), a.determinant());
    assert!(a.inverse().is_none());
}

#[test]
fn near_singular_matrix_is_not_invertible() {
    let a = m4(
        [0.000000001, 0., 0., 0.],
        [0., 1., 0., 0.],
        [0., 0., 1., 0.],
        [0., 0., 0., 1.],
    );
    assert!(a.inverse().is_none());
}

#[test]
fn inverse_of_matrix() {
    let a = m4(
        [-5., 2., 6., -8.],
        [1., -5., 1., 8.],
        [7., 7., -6., -7.],
        [1., -3., 7., 4.],
    );
    let b = a.inverse().unwrap();
    assert_eq!(s(532.), a.determinant());
    assert_eq!(s(-160.), a.cofactor(2, 3));
    assert_eq!(s(-160.) / s(532.), b.at(3, 2));
    assert_eq!(s(105.), a.cofactor(3, 2));
    assert_eq!(s(105.) / s(532.), b.at(2, 3));

    let expected = m4(
        [0.21805, 0.45113, 0.24060, -0.04511],
        [-0.80827, -1.45677, -0.44361, 0.52068],
        [-0.07895, -0.22368, -0.05263, 0.19737],
        [-0.52256, -0.81391, -0.30075, 0.30639],
    );
    assert_eq!(expected, b);
}

#[test]
fn inverse_of_another_matrix() {
    let a = m4(
        [8., -5., 9., 2.],
        [7., 5., 6., 1.],
        [-6., 0., 9., 6.],
        [-3., 0., -9., -4.],
    );
    let b = a.inverse().unwrap();

    let expected = m4(
        [-0.15385, -0.15385, -0.28205, -0.53846],
        [-0.07692, 0.12308, 0.02564, 0.03077],
        [0.35897, 0.35897, 0.43590, 0.92308],
        [-0.69231, -0.69231, -0.76923, -1.92308],
    );
    assert_eq!(expected, b);
}

#[test]
fn inverse_of_a_third_matrix() {
    let a = m4(
        [9., 3., 0., 9.],
        [-5., -2., -6., -3.],
        [-4., 9., 6., 4.],
        [-7., 6., 6., 2.],
    );
    let b = a.inverse().unwrap();

    let expected = m4(
        [-0.04074, -0.07778, 0.14444, -0.22222],
        [-0.07778, 0.03333, 0.36667, -0.33333],
        [-0.02901, -0.14630, -0.10926, 0.12963],
        [0.17778, 0.06667, -0.26667, 0.33333],
    );
    assert_eq!(expected, b);
}

#[test]
fn multiply_matrix_product_by_inverse() {
    let a = m4(
        [3., -9., 7., 3.],
        [3., -8., 2., -9.],
        [-4., 4., 4., 1.],
        [-6., 5., -1., 1.],
    );
    let b = m4(
        [8., 2., 2., 2.],
        [3., -1., 7., 0.],
        [7., 0., 5., 4.],
        [6., -2., 0., 5.],
    );
    let c = a * b;
    assert_eq!(a, c * b.inverse().unwrap());
}

#[test]
fn multiply_by_translation_matrix() {
    let transform = translation(5., -3., 2.);
    let p = point(-3., 4., 5.);
    let actual = transform * p;
    let expected = point(2., 1., 7.);

    assert_eq!(actual, expected);
}

#[test]
fn multiply_by_inverted_translation_matrix() {
    let transform = translation(5., -3., 2.);
    let inv = transform.inverse().unwrap();
    let p = point(-3., 4., 5.);
    let actual = inv * p;
    let expected = point(-8., 7., 3.);

    assert_eq!(actual, expected);
}

#[test]
fn translation_does_not_change_vector() {
    let transform = translation(5., -3., 2.);
    let v = vector(-3., 4., 5.);
    let actual = transform * v;

    assert_eq!(actual, v);
}

#[test]
fn translation_round_trip_restores_point() {
    let transform = translation(5., -3., 2.);
    let inv = transform.inverse().unwrap();
    let p = point(-3., 4., 5.);
    let actual = inv * (transform * p);

    assert_eq!(actual, p);
}

#[test]
fn scaling_matrix_applied_to_point() {
    let transform = scaling(2., 3., 4.);
    let p = point(-4., 6., 8.);
    let actual = transform * p;
    let expected = point(-8., 18., 32.);

    assert_eq!(actual, expected);
}

#[test]
fn scaling_matrix_applied_to_vector() {
    let transform = scaling(2., 3., 4.);
    let v = vector(-4., 6., 8.);
    let actual = transform * v;
    let expected = vector(-8., 18., 32.);

    assert_eq!(actual, expected);
}

#[test]
fn inverted_scaling_matrix_applied_to_vector() {
    let transform = scaling(2., 3., 4.);
    let inv = transform.inverse().unwrap();
    let v = vector(-4., 6., 8.);
    let actual = inv * v;
    let expected = vector(-2., 2., 2.);

    assert_eq!(actual, expected);
}

#[test]
fn reflection_is_scaling_by_negative_value() {
    let transform = scaling(-1., 1., 1.);
    let p = point(2., 3., 4.);
    let actual = transform * p;
    let expected = point(-2., 3., 4.);

    assert_eq!(actual, expected);
}

#[test]
fn rotate_point_around_x_axis() {
    let p = point(0., 1., 0.);
    let half_quarter = Matrix::rotation_x(s(std::f64::consts::FRAC_PI_4));
    let full_quarter = Matrix::rotation_x(s(std::f64::consts::FRAC_PI_2));
    let actual_half_quarter = half_quarter * p;
    let actual_full_quarter = full_quarter * p;

    let pv = 2.0f64.sqrt() / 2.;
    assert_eq!(actual_half_quarter, point(0., pv, pv));
    assert_eq!(actual_full_quarter, point(0., 0., 1.));
}

#[test]
fn inverse_rotate_point_around_x_axis() {
    let p = point(0., 1., 0.);
    let half_quarter = Matrix::rotation_x(s(std::f64::consts::FRAC_PI_4));
    let inv = half_quarter.inverse().unwrap();
    let actual = inv * p;
    let pv = 2.0f64.sqrt() / 2.;
    let expected = point(0., pv, -pv);

    assert_eq!(actual, expected);
}

#[test]
fn rotate_point_around_y_axis() {
    let p = point(0., 0., 1.);
    let half_quarter = Matrix::rotation_y(s(std::f64::consts::FRAC_PI_4));
    let full_quarter = Matrix::rotation_y(s(std::f64::consts::FRAC_PI_2));
    let actual_half_quarter = half_quarter * p;
    let actual_full_quarter = full_quarter * p;

    let pv = 2.0f64.sqrt() / 2.;
    assert_eq!(actual_half_quarter, point(pv, 0., pv));
    assert_eq!(actual_full_quarter, point(1., 0., 0.));
}

#[test]
fn rotate_point_around_z_axis() {
    let p = point(0., 1., 0.);
    let half_quarter = Matrix::rotation_z(s(std::f64::consts::FRAC_PI_4));
    let full_quarter = Matrix::rotation_z(s(std::f64::consts::FRAC_PI_2));
    let actual_half_quarter = half_quarter * p;
    let actual_full_quarter = full_quarter * p;

    let pv = 2.0f64.sqrt() / 2.;
    assert_eq!(actual_half_quarter, point(-pv, pv, 0.));
    assert_eq!(actual_full_quarter, point(-1., 0., 0.));
}

#[test]
fn shearing_transformation_moves_x_in_proportion_to_y() {
    let transform = Matrix::shearing(s(1.), s(0.), s(0.), s(0.), s(0.), s(0.));
    let p = point(2., 3., 4.);
    let actual = transform * p;
    let expected = point(5., 3., 4.);

    assert_eq!(actual, expected);
}

#[test]
fn shearing_transformation_moves_x_in_proportion_to_z() {
    let transform = Matrix::shearing(s(0.), s(1.), s(0.), s(0.), s(0.), s(0.));
    let p = point(2., 3., 4.);
    let actual = transform * p;
    let expected = point(6., 3., 4.);

    assert_eq!(actual, expected);
}

#[test]
fn shearing_transformation_moves_y_in_proportion_to_x() {
    let transform = Matrix::shearing(s(0.), s(0.), s(1.), s(0.), s(0.), s(0.));
    let p = point(2., 3., 4.);
    let actual = transform * p;
    let expected = point(2., 5., 4.);

    assert_eq!(actual, expected);
}

#[test]
fn shearing_transformation_moves_y_in_proportion_to_z() {
    let transform = Matrix::shearing(s(0.), s(0.), s(0.), s(1.), s(0.), s(0.));
    let p = point(2., 3., 4.);
    let actual = transform * p;
    let expected = point(2., 7., 4.);

    assert_eq!(actual, expected);
}

#[test]
fn shearing_transformation_moves_z_in_proportion_to_x() {
    let transform = Matrix::shearing(s(0.), s(0.), s(0.), s(0.), s(1.), s(0.));
    let p = point(2., 3., 4.);
    let actual = transform * p;
    let expected = point(2., 3., 6.);

    assert_eq!(actual, expected);
}

#[test]
fn shearing_transformation_moves_z_in_proportion_to_y() {
    let transform = Matrix::shearing(s(0.), s(0.), s(0.), s(0.), s(0.), s(1.));
    let p = point(2., 3., 4.);
    let actual = transform * p;
    let expected = point(2., 3., 7.);

    assert_eq!(actual, expected);
}

#[test]
fn individual_transformations_applied_in_sequence() {
    let p = point(1., 0., 1.);
    let a = Matrix::rotation_x(s(std::f64::consts::FRAC_PI_2));
    let b = scaling(5., 5., 5.);
    let c = translation(10., 5., 7.);

    let p2 = a * p;
    assert_eq!(p2, point(1., -1., 0.));

    let p3 = b * p2;
    assert_eq!(p3, point(5., -5., 0.));

    let p4 = c * p3;
    assert_eq!(p4, point(15., 0., 7.));
}

#[test]
fn chained_transformations_applied_in_reverse_order() {
    let p = point(1., 0., 1.);
    let a = Matrix::rotation_x(s(std::f64::consts::FRAC_PI_2));
    let b = scaling(5., 5., 5.);
    let c = translation(10., 5., 7.);

    let t = c * b * a;
    let actual = t * p;
    assert_eq!(actual, point(15., 0., 7.));
}

#[test]
fn view_transformation_matrix_for_default_orientation() {
    let from = origo();
    let to = point(0., 0., -1.);
    let up = vector(0., 1., 0.);
    let t = Matrix::view_transform(from, to, up);

    assert_eq!(t, identity_matrix());
}

#[test]
fn view_transformation_matrix_looking_positive_z_direction() {
    let from = origo();
    let to = point(0., 0., 1.);
    let up = vector(0., 1., 0.);
    let t = Matrix::view_transform(from, to, up);

    assert_eq!(t, scaling(-1., 1., -1.));
}

#[test]
fn view_transformation_matrix_moves_world() {
    let from = point(0., 0., 8.);
    let to = origo();
    let up = vector(0., 1., 0.);
    let t = Matrix::view_transform(from, to, up);

    assert_eq!(t, translation(0., 0., -8.));
}

#[test]
fn arbitrary_view_transformation_matrix() {
    let from = point(1., 3., 2.);
    let to = point(4., -2., 8.);
    let up = vector(1., 1., 0.);
    let t = Matrix::view_transform(from, to, up);
    let expected = m4(
        [-0.50709, 0.50709, 0.67612, -2.36643],
        [0.76772, 0.60609, 0.12122, -2.82842],
        [-0.35857, 0.59761, -0.71714, 0.00000],
        [0.00000, 0.00000, 0.00000, 1.00000],
    );

    assert_eq!(t, expected);
}

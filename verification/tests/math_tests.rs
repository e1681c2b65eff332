use math_engine::matrix2::Matrix2;
use math_engine::matrix3::Matrix3;
use math_engine::matrix4::Matrix4;
use math_engine::plane::{three_planes_intersect, two_planes_intersect, Plane};
use math_engine::point3::{line_line_distance_squared, plane_line_intersect, point_line_distance_squared, Point3};
use math_engine::quarternion::Quarternion;
use math_engine::rgb::RGB;
use math_engine::rgb_u32::RGBu32;
use math_engine::rgb_u8::RGBu8;
use math_engine::scalar::Scalar;
use math_engine::transform4::Transform4;
use math_engine::vector2::Vector2;
use math_engine::vector3::Vector3;
use math_engine::vector4::Vector4;

#[test]
fn add() {
    let a = Vector3::new(1, 2, 3);
    let b = Vector3::new(2, 3, 4);
    let want = Vector3::new(3, 5, 7);
    assert!((a.add(&b)) == want);
}

#[test]
fn matrix2_determinant_concrete() {
    let m = Matrix2::new(1, 2, 3, 4);
    let d = m.determinant();
    assert_eq!(d, Scalar::new(-2, 1));
}

#[test]
fn matrix2_inverse_times_matrix_is_identity() {
    let m = Matrix2::new(1, 2, 3, 4);
    let p = m.mul(&m.inverse());
    assert_eq!(p.n00, p.den);
    assert_eq!(p.n11, p.den);
    assert_eq!(p.n01, 0);
    assert_eq!(p.n10, 0);
}

#[test]
fn matrix3_inverse_times_matrix_is_identity() {
    let m = Matrix3::new(2, 0, 1, 0, 3, 0, 1, 0, 1);
    let p = m.mul(&m.inverse());
    assert_eq!(p.n00, p.den);
    assert_eq!(p.n11, p.den);
    assert_eq!(p.n22, p.den);
    assert_eq!(p.n01, 0);
    assert_eq!(p.n02, 0);
    assert_eq!(p.n10, 0);
    assert_eq!(p.n12, 0);
    assert_eq!(p.n20, 0);
    assert_eq!(p.n21, 0);
}

#[test]
fn matrix4_inverse_times_matrix_is_identity() {
    let m = Matrix4::new(1, 0, 2, 1, 0, 1, 0, 3, 2, 0, 1, 0, 0, 0, 0, 1);
    let p = m.mul(&m.inverse());
    assert_eq!(p.n00, p.den);
    assert_eq!(p.n11, p.den);
    assert_eq!(p.n22, p.den);
    assert_eq!(p.n33, p.den);
    assert_eq!(p.n01, 0);
    assert_eq!(p.n02, 0);
    assert_eq!(p.n03, 0);
    assert_eq!(p.n10, 0);
    assert_eq!(p.n12, 0);
    assert_eq!(p.n13, 0);
    assert_eq!(p.n20, 0);
    assert_eq!(p.n21, 0);
    assert_eq!(p.n23, 0);
    assert_eq!(p.n30, 0);
    assert_eq!(p.n31, 0);
    assert_eq!(p.n32, 0);
}

#[test]
fn transform_inverse_times_transform_is_identity() {
    let t = Transform4::new(1, 0, 2, 5, 0, 3, 0, -7, 2, 0, 1, 4);
    let p = t.mul(&t.inverse());
    assert_eq!(p.n00, p.den);
    assert_eq!(p.n11, p.den);
    assert_eq!(p.n22, p.den);
    assert_eq!(p.n01, 0);
    assert_eq!(p.n02, 0);
    assert_eq!(p.n03, 0);
    assert_eq!(p.n10, 0);
    assert_eq!(p.n12, 0);
    assert_eq!(p.n13, 0);
    assert_eq!(p.n20, 0);
    assert_eq!(p.n21, 0);
    assert_eq!(p.n23, 0);
}

#[test]
fn transpose_twice_is_identity_map() {
    let m = Matrix3::new(1, 2, 3, 4, 5, 6, 7, 8, 9);
    assert_eq!(m.transpose().transpose(), m);
    let m2 = Matrix2::new(1, 2, 3, 4);
    assert_eq!(m2.transpose().transpose(), m2);
    let m4 = Matrix4::new(1, 2, 3, 4, 5, 6, 7, 8, 9, 10, 11, 12, 13, 14, 15, 16);
    assert_eq!(m4.transpose().transpose(), m4);
}

#[test]
fn identity_fixes_vectors() {
    let v = Vector3::new(7, -2, 9);
    let r = Matrix3::identity().mul_vector(&v);
    assert!(r.eq_rat(&v));
}

#[test]
fn quaternion_matrix_round_trip() {
    // unit quaternion (3, 4, 0, 0) / 5; the x-dominant branch fires
    let q = Quarternion::new_scaled(3, 4, 0, 0, 5);
    let m = q.get_rotation_matrix();
    let mut q2 = Quarternion::new(0, 0, 0, 1);
    q2.set_rotation_matrix(&m);
    let m2 = q2.get_rotation_matrix();
    // the matrix form is round-trip stable even if the sign may flip
    assert_eq!(m.n00 * m2.den, m2.n00 * m.den);
    assert_eq!(m.n01 * m2.den, m2.n01 * m.den);
    assert_eq!(m.n02 * m2.den, m2.n02 * m.den);
    assert_eq!(m.n10 * m2.den, m2.n10 * m.den);
    assert_eq!(m.n11 * m2.den, m2.n11 * m.den);
    assert_eq!(m.n12 * m2.den, m2.n12 * m.den);
    assert_eq!(m.n20 * m2.den, m2.n20 * m.den);
    assert_eq!(m.n21 * m2.den, m2.n21 * m.den);
    assert_eq!(m.n22 * m2.den, m2.n22 * m.den);
}

#[test]
fn quaternion_round_trip_trace_branch() {
    // unit quaternion (1, 2, 2, 4) / 5; the scalar part dominates
    assert_eq!(1 * 1 + 2 * 2 + 2 * 2 + 4 * 4, 5 * 5);
    let q = Quarternion::new_scaled(1, 2, 2, 4, 5);
    let m = q.get_rotation_matrix();
    let mut q2 = Quarternion::new(0, 0, 0, 1);
    q2.set_rotation_matrix(&m);
    // the recovered quaternion is the same rotation, here the same sign
    assert_eq!(q2.x * q.den, q.x * q2.den);
    assert_eq!(q2.y * q.den, q.y * q2.den);
    assert_eq!(q2.z * q.den, q.z * q2.den);
    assert_eq!(q2.w * q.den, q.w * q2.den);
}

#[test]
fn set_rotation_matrix_rounds_irrational_roots_down() {
    // the rotation about z with cosine 3/5, sine 4/5: a proper rotation
    // whose quaternion is irrational; the conversion still succeeds, with
    // the root 44 of 2000 taken rounded down
    let m = Matrix3::make_rotation_z(&Scalar::new(3, 5), &Scalar::new(4, 5));
    let mut q = Quarternion::new(0, 0, 0, 1);
    q.set_rotation_matrix(&m);
    assert_eq!(q, Quarternion::new_scaled(0, 0, 1000, 2000, 2200));
}

#[test]
fn quaternion_transform_matches_matrix() {
    let q = Quarternion::new_scaled(3, 4, 0, 0, 5);
    let v = Vector3::new(2, -1, 5);
    let a = q.transform(&v);
    let b = q.get_rotation_matrix().mul_vector(&v);
    assert!(a.eq_rat(&b));
}

#[test]
fn rotation_composition_associates() {
    let r1 = Matrix3::new(1, 2, 0, 0, 1, 3, 1, 0, 1);
    let r2 = Matrix3::new(0, 1, 0, -1, 0, 0, 0, 0, 1);
    let v = Vector3::new(4, 5, 6);
    let a = r1.mul(&r2).mul_vector(&v);
    let b = r1.mul_vector(&r2.mul_vector(&v));
    assert_eq!(a, b);
}

#[test]
fn determinant_multiplies_over_products() {
    let a2 = Matrix2::new(1, 2, 3, 4);
    let b2 = Matrix2::new(5, 6, 7, 8);
    let dp = a2.mul(&b2).determinant();
    let dd = a2.determinant().mul(&b2.determinant());
    assert!(dp.eq_rat(&dd));
    let a3 = Matrix3::new(2, 0, 1, 0, 3, 0, 1, 0, 1);
    let b3 = Matrix3::new(1, 1, 0, 0, 1, 1, 1, 0, 1);
    let dp3 = a3.mul(&b3).determinant();
    let dd3 = a3.determinant().mul(&b3.determinant());
    assert!(dp3.eq_rat(&dd3));
}

#[test]
fn three_planes_degenerate_gives_none() {
    let f1 = Plane::new(1, 0, 0, -1);
    let f2 = Plane::new(1, 0, 0, -1);
    let f3 = Plane::new(0, 1, 0, -2);
    assert!(three_planes_intersect(&f1, &f2, &f3).is_none());
}

#[test]
fn three_planes_intersect_concrete() {
    let f1 = Plane::new(1, 0, 0, -1);
    let f2 = Plane::new(0, 1, 0, -2);
    let f3 = Plane::new(0, 0, 1, -3);
    let p = three_planes_intersect(&f1, &f2, &f3).unwrap();
    assert!(p.eq_rat(&Point3::new(1, 2, 3)));
}

#[test]
fn two_parallel_planes_give_none() {
    let f1 = Plane::new(0, 0, 1, -1);
    let f2 = Plane::new(0, 0, 2, -5);
    assert!(two_planes_intersect(&f1, &f2).is_none());
}

#[test]
fn two_planes_intersect_concrete() {
    let f1 = Plane::new(1, 0, 0, 0);
    let f2 = Plane::new(0, 1, 0, 0);
    let (p, v) = two_planes_intersect(&f1, &f2).unwrap();
    // the z axis: a point on it and its direction
    assert!(p.eq_rat(&Point3::new(0, 0, 0)));
    assert!(v.eq_rat(&Vector3::new(0, 0, 1)));
}

#[test]
fn plane_line_parallel_gives_none() {
    let p = Point3::new(0, 0, 5);
    let v = Vector3::new(1, 0, 0);
    let f = Plane::new(0, 0, 1, 0);
    assert!(plane_line_intersect(&p, &v, &f).is_none());
}

#[test]
fn plane_line_intersect_concrete() {
    let p = Point3::new(0, 0, 5);
    let v = Vector3::new(0, 0, 1);
    let f = Plane::new(0, 0, 1, 0);
    let q = plane_line_intersect(&p, &v, &f).unwrap();
    assert!(q.eq_rat(&Point3::new(0, 0, 0)));
}

#[test]
fn translation_moves_the_origin() {
    let t = Transform4::make_translation(&Vector3::new(1, 2, 3));
    let p = t.mul_point(&Point3::new(0, 0, 0));
    assert!(p.eq_rat(&Point3::new(1, 2, 3)));
}

#[test]
fn quarter_turn_about_z() {
    // a quarter turn: cosine 0, sine 1
    let t = Transform4::make_rotation_z(&Scalar::from_int(0), &Scalar::from_int(1));
    let v = t.mul_vector(&Vector3::new(1, 0, 0));
    assert!(v.eq_rat(&Vector3::new(0, 1, 0)));
}

#[test]
fn color_modulation_concrete() {
    let r = RGB::new(1, 0, 0);
    let g = RGB::new(0, 1, 0);
    let black = RGB::new(0, 0, 0);
    assert!(r.mul(&g).eq_rat(&black));
}

#[test]
fn rgbu8_conversion_scales_and_clamps() {
    let c = RGB::new_scaled(1, 2, -1, 2);
    let u = RGBu8::from_rgb(&c);
    assert_eq!(u, RGBu8::new(127, 255, 0));
    let w = RGBu32::from_rgb(&RGB::new(3, 0, 1));
    assert_eq!(w, RGBu32::new(3, 0, 1));
}

#[test]
fn magnitude_is_exact_or_none() {
    let v = Vector3::new(3, 4, 0);
    assert_eq!(v.magnitude().unwrap(), Scalar::new(5, 1));
    assert!(Vector3::new(1, 1, 1).magnitude().is_none());
    let u = v.normalize().unwrap();
    assert!(u.eq_rat(&Vector3::new_scaled(3, 4, 0, 5)));
    let mut w = Vector3::new(3, 4, 0);
    assert!(w.normalize_mut());
    assert!(w.eq_rat(&u));
}

#[test]
fn vector2_and_vector4_basics() {
    let a = Vector2::new(3, 4);
    assert_eq!(a.magnitude().unwrap(), Scalar::new(5, 1));
    assert_eq!(a.dot(&Vector2::new(1, 1)), Scalar::new(7, 1));
    let b = Vector4::new(1, 2, 2, 0);
    assert_eq!(b.magnitude().unwrap(), Scalar::new(3, 1));
    assert_eq!(
        b.add(&Vector4::new(1, 1, 1, 1)),
        Vector4::new(2, 3, 3, 1)
    );
}

#[test]
fn rodrigues_rotation_about_x_axis() {
    // rotating about the x axis by the angle with cosine 3/5, sine 4/5
    let c = Scalar::new(3, 5);
    let s = Scalar::new(4, 5);
    let axis = Vector3::new(1, 0, 0);
    let m = Matrix3::make_rotation(&c, &s, &axis);
    let mx = Matrix3::make_rotation_x(&c, &s);
    let v = Vector3::new(0, 1, 0);
    let a = m.mul_vector(&v);
    let b = mx.mul_vector(&v);
    assert!(a.eq_rat(&b));
    assert!(a.eq_rat(&Vector3::new_scaled(0, 3, 4, 5)));
}

#[test]
fn line_transforms_by_the_pluecker_rule() {
    // the z axis line through the origin, translated by (1, 0, 0)
    let l = math_engine::line::Line::new(0, 0, 1, 0, 0, 0);
    let t = Transform4::make_translation(&Vector3::new(1, 0, 0));
    let m = l.transform(&t);
    assert!(m.direction.eq_rat(&Vector3::new(0, 0, 1)));
    // moment becomes t cross direction = (0, -1, 0)
    assert!(m.moment.eq_rat(&Vector3::new(0, -1, 0)));
}

#[test]
fn point_line_distance_squared_concrete() {
    // the point (1, 1, 0) sits at distance 1 from the x axis
    let q = Point3::new(1, 1, 0);
    let p = Point3::new(0, 0, 0);
    let v = Vector3::new(1, 0, 0);
    let d2 = point_line_distance_squared(&q, &p, &v);
    assert!(d2.eq_rat(&Scalar::new(1, 1)));
}

#[test]
fn line_line_distance_squared_skew_and_parallel() {
    // the x axis against the line through (0, 0, 5) along y: distance 5
    let p1 = Point3::new(0, 0, 0);
    let v1 = Vector3::new(1, 0, 0);
    let d2 = line_line_distance_squared(&p1, &v1, &Point3::new(0, 0, 5), &Vector3::new(0, 1, 0));
    assert!(d2.eq_rat(&Scalar::new(25, 1)));
    // two parallel lines three apart fall back to the point-to-line form
    let d2p = line_line_distance_squared(&p1, &v1, &Point3::new(0, 3, 0), &Vector3::new(2, 0, 0));
    assert!(d2p.eq_rat(&Scalar::new(9, 1)));
}

#[test]
fn vector4_project_and_reject() {
    let v = Vector4::new(1, 2, 3, 4);
    let axis = Vector4::new(1, 0, 0, 0);
    assert_eq!(v.project(&axis), Vector4::new(1, 0, 0, 0));
    assert_eq!(v.reject(&axis), Vector4::new(0, 2, 3, 4));
}

#[test]
fn transform_new_with_vecs_assembles_columns() {
    let t = Transform4::new_with_vecs(
        &Vector3::new(1, 0, 0),
        &Vector3::new(0, 1, 0),
        &Vector3::new(0, 0, 1),
        &Point3::new(1, 2, 3),
    );
    assert_eq!(t, Transform4::new(1, 0, 0, 1, 0, 1, 0, 2, 0, 0, 1, 3));
}

#[test]
fn quaternion_round_trip_vector_dominant_branches() {
    // unit quaternions (2, 4, 1, 2) / 5 and (1, 2, 4, 2) / 5: the y and z
    // components dominate, so the other two Shepperd branches fire
    for q in [
        Quarternion::new_scaled(2, 4, 1, 2, 5),
        Quarternion::new_scaled(1, 2, 4, 2, 5),
    ] {
        let m = q.get_rotation_matrix();
        let mut q2 = Quarternion::new(0, 0, 0, 1);
        q2.set_rotation_matrix(&m);
        assert_eq!(q2.x * q.den, q.x * q2.den);
        assert_eq!(q2.y * q.den, q.y * q2.den);
        assert_eq!(q2.z * q.den, q.z * q2.den);
        assert_eq!(q2.w * q.den, q.w * q2.den);
    }
}

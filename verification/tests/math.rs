//! Tests for the scalar, vector and matrix kernel.

use raytracer::basics::{Color, Point, Vec3};
use raytracer::fixed::{Fx, BOUND, HALF_PI_FX, PI_FX, SCALE};
use raytracer::matrix::{Mat3, Transformation};

fn fx(v: i64) -> Fx {
    Fx::from_int(v)
}

fn half() -> Fx {
    Fx::from_raw(SCALE / 2)
}

fn close(a: Fx, expected_raw: i64, tol: i64) -> bool {
    (a.raw() - expected_raw).abs() <= tol
}

#[test]
fn test_fixed_arithmetic() {
    assert_eq!(fx(3).add(fx(4)).raw(), 7 * SCALE);
    assert_eq!(fx(3).sub(fx(4)).raw(), -SCALE);
    assert_eq!(fx(3).mul(fx(4)).raw(), 12 * SCALE);
    assert_eq!(fx(12).div(fx(4)).raw(), 3 * SCALE);
    // Truncation toward zero, matching the contract's `tdiv`.
    assert_eq!(fx(-7).div(fx(2)).raw(), -7 * SCALE / 2);
    // Saturation at the representable bound.
    assert_eq!(Fx::from_raw(BOUND).add(Fx::one()).raw(), BOUND);
    assert_eq!(Fx::from_raw(-BOUND).sub(Fx::one()).raw(), -BOUND);
}

#[test]
fn test_fixed_sqrt() {
    assert_eq!(fx(4).sqrt().raw(), 2 * SCALE);
    assert_eq!(fx(9).sqrt().raw(), 3 * SCALE);
    assert_eq!(fx(0).sqrt().raw(), 0);
    // sqrt(2) to within one raw unit of the true value.
    assert!(close(fx(2).sqrt(), 1482910, 2));
}

#[test]
fn test_fixed_trig() {
    assert_eq!(Fx::zero().cos().raw(), SCALE);
    // cos(pi/2) is zero, cos(pi) is -1, sin(pi/2) is 1, each within the
    // polynomial's tolerance.
    assert!(close(Fx::from_raw(HALF_PI_FX).cos(), 0, 105));
    assert!(close(Fx::from_raw(PI_FX).cos(), -SCALE, 105));
    assert!(close(Fx::from_raw(HALF_PI_FX).sin(), SCALE, 105));
    assert!(close(Fx::from_raw(-HALF_PI_FX).sin(), -SCALE, 105));
    // Reduction: cos(x + 2pi) == cos(x) up to the wrap's rounding.
    let x = Fx::from_raw(300000);
    let shifted = Fx::from_raw(300000 + 2 * PI_FX);
    assert!(close(x.cos(), shifted.cos().raw(), 105));
}

#[test]
fn test_vector_ops() {
    let a = Vec3::new(fx(1), fx(2), fx(3));
    let b = Vec3::new(fx(4), fx(5), fx(6));
    assert_eq!(a.dot_product(&b).raw(), 32 * SCALE);
    let c = a.cross_product(&b);
    assert_eq!(c.x.raw(), -3 * SCALE);
    assert_eq!(c.y.raw(), 6 * SCALE);
    assert_eq!(c.z.raw(), -3 * SCALE);
    assert_eq!(a.norm_squared().raw(), 14 * SCALE);
    let unit = Vec3::new(fx(3), fx(0), fx(4)).normalize();
    assert!(close(unit.x, 3 * SCALE / 5, 2));
    assert!(close(unit.z, 4 * SCALE / 5, 2));
}

#[test]
fn test_color_clamp() {
    let c = Color::new(fx(2), fx(-1), half());
    assert_eq!(c.r.raw(), SCALE);
    assert_eq!(c.g.raw(), 0);
    assert_eq!(c.b.raw(), SCALE / 2);
    let sum = c.add(&Color::new(half(), half(), half()));
    assert_eq!(sum.r.raw(), SCALE);
    assert_eq!(sum.g.raw(), SCALE / 2);
    assert_eq!(sum.b.raw(), SCALE);
}

fn sample_mat() -> Mat3 {
    // Rows 1.3 2.5 3.0 / 1.0 1.0 8.7 / 1.5 6.2 2.5 in fixed point.
    Mat3::from_rows(
        Vec3::new(Fx::from_raw(1363149), Fx::from_raw(2621440), fx(3)),
        Vec3::new(fx(1), fx(1), Fx::from_raw(9122611)),
        Vec3::new(Fx::from_raw(1572864), Fx::from_raw(6501171), Fx::from_raw(2621440)),
    )
}

#[test]
fn test_matrix_det() {
    let identity = Mat3::identity();
    let singular_mat = Mat3::from_rows(
        Vec3::new(fx(1), fx(2), fx(0)),
        Vec3::new(fx(1), fx(2), fx(0)),
        Vec3::new(fx(1), fx(2), fx(1)),
    );
    assert_eq!(identity.det().raw(), SCALE);
    assert_eq!(singular_mat.det().raw(), 0);
    // det of the sample matrix is about -26.397.
    assert!(close(sample_mat().det(), -27679261, 105));
}

#[test]
fn test_mat_inverse() {
    let inv = sample_mat().compute_inverse();
    assert!(close(inv.r0.x, 2043366, 105));
    assert!(close(inv.r0.y, -490583, 105));
    assert!(close(inv.r0.z, -744818, 105));
    assert!(close(inv.r1.x, -419082, 105));
    assert!(close(inv.r1.y, 49654, 105));
    assert!(close(inv.r1.z, 330103, 105));
    assert!(close(inv.r2.x, -186696, 105));
    assert!(close(inv.r2.y, 171204, 105));
    assert!(close(inv.r2.z, 47667, 105));
}

#[test]
fn test_transformation() {
    let transformation = Transformation::identity();
    let point = Point::new(fx(1), fx(1), fx(1));
    let point_transformed = transformation.transform_point(&point);
    assert_eq!(point_transformed.x.raw(), SCALE);
    assert_eq!(point_transformed.y.raw(), SCALE);
    assert_eq!(point_transformed.z.raw(), SCALE);
}

#[test]
fn test_transpose() {
    let mat = Mat3::from_rows(
        Vec3::new(fx(1), fx(2), fx(3)),
        Vec3::new(fx(4), fx(5), fx(6)),
        Vec3::new(fx(7), fx(8), fx(9)),
    );
    let mat_t = mat.transpose();
    assert_eq!(mat_t.r0.x.raw(), 1 * SCALE);
    assert_eq!(mat_t.r0.y.raw(), 4 * SCALE);
    assert_eq!(mat_t.r0.z.raw(), 7 * SCALE);
    assert_eq!(mat_t.r1.x.raw(), 2 * SCALE);
    assert_eq!(mat_t.r1.y.raw(), 5 * SCALE);
    assert_eq!(mat_t.r1.z.raw(), 8 * SCALE);
    assert_eq!(mat_t.r2.x.raw(), 3 * SCALE);
    assert_eq!(mat_t.r2.y.raw(), 6 * SCALE);
    assert_eq!(mat_t.r2.z.raw(), 9 * SCALE);
}

#[test]
fn test_mv_product() {
    let mat = Mat3::from_rows(
        Vec3::new(fx(1), fx(2), fx(3)),
        Vec3::new(fx(4), fx(5), fx(6)),
        Vec3::new(fx(7), fx(8), fx(9)),
    );
    let vec = Vec3::new(fx(1), fx(2), fx(3));
    let result = mat.mul_vec(&vec);
    assert_eq!(result.x.raw(), (1 + 4 + 9) * SCALE);
    assert_eq!(result.y.raw(), (4 + 10 + 18) * SCALE);
    assert_eq!(result.z.raw(), (7 + 16 + 27) * SCALE);
}

#[test]
fn test_mm_product() {
    let mat = Mat3::from_rows(
        Vec3::new(fx(1), fx(2), fx(3)),
        Vec3::new(fx(4), fx(5), fx(6)),
        Vec3::new(fx(7), fx(8), fx(9)),
    );
    let identity = Mat3::identity();
    let left_product = identity.mul_mat(&mat);
    let right_product = mat.mul_mat(&identity);
    for product in [left_product, right_product] {
        assert_eq!(mat.r0.x.raw(), product.r0.x.raw());
        assert_eq!(mat.r0.y.raw(), product.r0.y.raw());
        assert_eq!(mat.r0.z.raw(), product.r0.z.raw());
        assert_eq!(mat.r1.x.raw(), product.r1.x.raw());
        assert_eq!(mat.r1.y.raw(), product.r1.y.raw());
        assert_eq!(mat.r1.z.raw(), product.r1.z.raw());
        assert_eq!(mat.r2.x.raw(), product.r2.x.raw());
        assert_eq!(mat.r2.y.raw(), product.r2.y.raw());
        assert_eq!(mat.r2.z.raw(), product.r2.z.raw());
    }
}

#[test]
fn test_rotation() {
    let axis = Vec3::new(fx(0), fx(1), fx(0));
    let rotation = Mat3::rotation(Fx::from_raw(HALF_PI_FX), axis);
    let reverse_rotation = Mat3::rotation(Fx::from_raw(-HALF_PI_FX), axis);
    let rotation_product = rotation.mul_mat(&reverse_rotation);
    assert!(close(rotation_product.r0.x, SCALE, 105));
    assert!(close(rotation_product.r1.y, SCALE, 105));
    assert!(close(rotation_product.r2.z, SCALE, 105));
    let point = Point::new(fx(1), fx(0), fx(0));
    let point_rotated = rotation.mul_point(&point);
    assert!(close(rotation.det(), SCALE, 105));
    assert!(close(point_rotated.x, 0, 105));
    assert!(close(point_rotated.y, 0, 105));
    assert!(close(point_rotated.z, -SCALE, 105));
}

#[test]
fn test_transform_inverse_roundtrip() {
    // Applying a transform and then its inverse recovers the point within
    // a small fixed-point epsilon.
    let t = Transformation::new(sample_mat(), Vec3::new(fx(1), fx(-2), half()));
    let t_inv = t.compute_inverse();
    let p = Point::new(half(), fx(2), fx(-3));
    let back = t_inv.transform_point(&t.transform_point(&p));
    assert!(close(back.x, p.x.raw(), 8000));
    assert!(close(back.y, p.y.raw(), 8000));
    assert!(close(back.z, p.z.raw(), 8000));
}

#[test]
fn test_look_at_orthonormal_rows() {
    // The look-at linear part has mutually orthogonal rows of unit length,
    // up to the fixed-point tolerance.
    let position = Vec3::new(fx(1), fx(2), fx(-7));
    let t = Transformation::create_look_at(&position, Fx::from_raw(-HALF_PI_FX + 300000),
        Fx::from_raw(200000));
    let m = &t.transform_mat;
    let rows = [m.r0, m.r1, m.r2];
    for a in 0..3 {
        for b in 0..3 {
            let d = rows[a].dot_product(&rows[b]).raw();
            if a == b {
                assert!((d - SCALE).abs() < 500, "row {} not unit: {}", a, d);
            } else {
                assert!(d.abs() < 500, "rows {} {} not orthogonal: {}", a, b, d);
            }
        }
    }
}

#[test]
fn test_reflection_law() {
    // For a unit incoming direction and a unit normal, the mirror formula
    // gives equal angles on both sides of the normal.
    let d = Vec3::new(Fx::from_raw(741455), Fx::from_raw(-741455), fx(0));
    let n = Vec3::new(fx(0), fx(1), fx(0));
    let rdn = d.normalize_safe();
    let refl = d.add(&n.scale(Fx::from_int(-2).mul(rdn.dot_product(&n))));
    let lhs = refl.dot_product(&n).raw();
    let rhs = -d.dot_product(&n).raw();
    assert!((lhs - rhs).abs() < 64, "{} vs {}", lhs, rhs);
}

//! 3x3 matrices and affine transformations.
//!
//! The ghost model `M3` holds three row vectors; every operation's contract
//! states each resulting entry exactly.  The algebraic laws (adjugate
//! inversion, look-at orthogonality) are proved over the exact-arithmetic
//! counterparts in `basics`.

use vstd::prelude::*;

use crate::basics::{
    V3, v3, Vec3, Point, vadd, vscale, dot, cross, norm_sq, vnorm, vnormalize, dot_e, cross_e,
    vscale_e, lemma_cross_orthogonal,
};
use crate::fixed::{Fx, fadd, fsub, fmul, fdiv, cos_s, sin_s, SCALE};

verus! {

/// Ghost model of a 3x3 matrix: three rows.
pub ghost struct M3 {
    pub r0: V3,
    pub r1: V3,
    pub r2: V3,
}

/// Ghost model of an affine transformation.
pub ghost struct TF {
    pub mat: M3,
    pub translation: V3,
}

pub open spec fn m3_identity() -> M3 {
    M3 {
        r0: v3(SCALE as int, 0, 0),
        r1: v3(0, SCALE as int, 0),
        r2: v3(0, 0, SCALE as int),
    }
}

pub open spec fn m3_diag(s: V3) -> M3 {
    M3 { r0: v3(s.x, 0, 0), r1: v3(0, s.y, 0), r2: v3(0, 0, s.z) }
}

/// Matrix-vector product.
pub open spec fn mat_vec(m: M3, v: V3) -> V3 {
    V3 { x: dot(m.r0, v), y: dot(m.r1, v), z: dot(m.r2, v) }
}

pub open spec fn transpose_s(m: M3) -> M3 {
    M3 {
        r0: v3(m.r0.x, m.r1.x, m.r2.x),
        r1: v3(m.r0.y, m.r1.y, m.r2.y),
        r2: v3(m.r0.z, m.r1.z, m.r2.z),
    }
}

/// Determinant by cofactor expansion along the first row, in fixed point.
pub open spec fn det_s(m: M3) -> int {
    fadd(
        fsub(
            fmul(m.r0.x, fsub(fmul(m.r1.y, m.r2.z), fmul(m.r2.y, m.r1.z))),
            fmul(m.r0.y, fsub(fmul(m.r1.x, m.r2.z), fmul(m.r1.z, m.r2.x))),
        ),
        fmul(m.r0.z, fsub(fmul(m.r1.x, m.r2.y), fmul(m.r1.y, m.r2.x))),
    )
}

/// Inverse by the adjugate method, in fixed point.
pub open spec fn inverse_s(m: M3) -> M3 {
    let invdet = fdiv(SCALE as int, det_s(m));
    M3 {
        r0: V3 {
            x: fmul(fsub(fmul(m.r1.y, m.r2.z), fmul(m.r2.y, m.r1.z)), invdet),
            y: fmul(fsub(fmul(m.r0.z, m.r2.y), fmul(m.r0.y, m.r2.z)), invdet),
            z: fmul(fsub(fmul(m.r0.y, m.r1.z), fmul(m.r0.z, m.r1.y)), invdet),
        },
        r1: V3 {
            x: fmul(fsub(fmul(m.r1.z, m.r2.x), fmul(m.r1.x, m.r2.z)), invdet),
            y: fmul(fsub(fmul(m.r0.x, m.r2.z), fmul(m.r0.z, m.r2.x)), invdet),
            z: fmul(fsub(fmul(m.r1.x, m.r0.z), fmul(m.r0.x, m.r1.z)), invdet),
        },
        r2: V3 {
            x: fmul(fsub(fmul(m.r1.x, m.r2.y), fmul(m.r2.x, m.r1.y)), invdet),
            y: fmul(fsub(fmul(m.r2.x, m.r0.y), fmul(m.r0.x, m.r2.y)), invdet),
            z: fmul(fsub(fmul(m.r0.x, m.r1.y), fmul(m.r1.x, m.r0.y)), invdet),
        },
    }
}

/// Matrix product, computed through the transpose as the row-based
/// representation requires.
pub open spec fn mat_mul_s(a: M3, b: M3) -> M3 {
    let bt = transpose_s(b);
    transpose_s(M3 { r0: mat_vec(a, bt.r0), r1: mat_vec(a, bt.r1), r2: mat_vec(a, bt.r2) })
}

pub open spec fn mat_scale_s(m: M3, s: int) -> M3 {
    M3 { r0: vscale(m.r0, s), r1: vscale(m.r1, s), r2: vscale(m.r2, s) }
}

/// Rotation about an arbitrary axis by an angle in fixed-point radians.
pub open spec fn rotation_s(angle: int, ax: V3) -> M3 {
    let c = cos_s(angle);
    let s = sin_s(angle);
    let omc = fsub(SCALE as int, c);
    let n = vnorm(ax);
    let nsq = norm_sq(ax);
    M3 {
        r0: V3 {
            x: fdiv(fadd(fmul(ax.x, ax.x), fmul(fadd(fmul(ax.y, ax.y), fmul(ax.z, ax.z)), c)), nsq),
            y: fdiv(fsub(fmul(fmul(ax.x, ax.y), omc), fmul(fmul(ax.z, n), s)), nsq),
            z: fdiv(fadd(fmul(fmul(ax.x, ax.z), omc), fmul(fmul(ax.y, n), s)), nsq),
        },
        r1: V3 {
            x: fdiv(fadd(fmul(fmul(ax.x, ax.y), omc), fmul(fmul(ax.z, n), s)), nsq),
            y: fdiv(fadd(fmul(ax.y, ax.y), fmul(fadd(fmul(ax.x, ax.x), fmul(ax.z, ax.z)), c)), nsq),
            z: fdiv(fsub(fmul(fmul(ax.y, ax.z), omc), fmul(fmul(ax.x, n), s)), nsq),
        },
        r2: V3 {
            x: fdiv(fsub(fmul(fmul(ax.x, ax.z), omc), fmul(fmul(ax.y, n), s)), nsq),
            y: fdiv(fadd(fmul(fmul(ax.y, ax.z), omc), fmul(fmul(ax.x, n), s)), nsq),
            z: fdiv(fadd(fmul(ax.z, ax.z), fmul(fadd(fmul(ax.x, ax.x), fmul(ax.y, ax.y)), c)), nsq),
        },
    }
}

// ---------------------------------------------------------------------------
// Exact-arithmetic counterparts, for the algebraic laws.
// ---------------------------------------------------------------------------

pub open spec fn matvec_e(m: M3, v: V3) -> V3 {
    V3 { x: dot_e(m.r0, v), y: dot_e(m.r1, v), z: dot_e(m.r2, v) }
}

pub open spec fn det_e(m: M3) -> int {
    m.r0.x * (m.r1.y * m.r2.z - m.r2.y * m.r1.z) - m.r0.y * (m.r1.x * m.r2.z - m.r1.z * m.r2.x)
        + m.r0.z * (m.r1.x * m.r2.y - m.r1.y * m.r2.x)
}

/// The adjugate: the inverse scaled by the determinant.
pub open spec fn adj_e(m: M3) -> M3 {
    M3 {
        r0: V3 {
            x: m.r1.y * m.r2.z - m.r2.y * m.r1.z,
            y: m.r0.z * m.r2.y - m.r0.y * m.r2.z,
            z: m.r0.y * m.r1.z - m.r0.z * m.r1.y,
        },
        r1: V3 {
            x: m.r1.z * m.r2.x - m.r1.x * m.r2.z,
            y: m.r0.x * m.r2.z - m.r0.z * m.r2.x,
            z: m.r1.x * m.r0.z - m.r0.x * m.r1.z,
        },
        r2: V3 {
            x: m.r1.x * m.r2.y - m.r2.x * m.r1.y,
            y: m.r2.x * m.r0.y - m.r0.x * m.r2.y,
            z: m.r0.x * m.r1.y - m.r1.x * m.r0.y,
        },
    }
}

/// Distributes a row of coefficients over three linear combinations.
#[verifier::rlimit(20)]
proof fn lemma_regroup(
    a0: int,
    a1: int,
    a2: int,
    p0: int,
    p1: int,
    p2: int,
    q0: int,
    q1: int,
    q2: int,
    r0: int,
    r1: int,
    r2: int,
    vx: int,
    vy: int,
    vz: int,
)
    ensures
        a0 * (p0 * vx + p1 * vy + p2 * vz) + a1 * (q0 * vx + q1 * vy + q2 * vz) + a2 * (r0 * vx + r1
            * vy + r2 * vz) == (a0 * p0 + a1 * q0 + a2 * r0) * vx + (a0 * p1 + a1 * q1 + a2 * r1)
            * vy + (a0 * p2 + a1 * q2 + a2 * r2) * vz,
{
    broadcast use vstd::arithmetic::mul::group_mul_is_commutative_and_distributive;
    broadcast use vstd::arithmetic::mul::lemma_mul_is_associative;

}

/// A row of the adjugate dotted with the matching column gives the
/// determinant; dotted with another column it vanishes.
#[verifier::rlimit(20)]
proof fn lemma_cofactor_columns(m: M3)
    ensures
        dot_e(adj_e(m).r0, v3(m.r0.x, m.r1.x, m.r2.x)) == det_e(m),
        dot_e(adj_e(m).r0, v3(m.r0.y, m.r1.y, m.r2.y)) == 0,
        dot_e(adj_e(m).r0, v3(m.r0.z, m.r1.z, m.r2.z)) == 0,
        dot_e(adj_e(m).r1, v3(m.r0.x, m.r1.x, m.r2.x)) == 0,
        dot_e(adj_e(m).r1, v3(m.r0.y, m.r1.y, m.r2.y)) == det_e(m),
        dot_e(adj_e(m).r1, v3(m.r0.z, m.r1.z, m.r2.z)) == 0,
        dot_e(adj_e(m).r2, v3(m.r0.x, m.r1.x, m.r2.x)) == 0,
        dot_e(adj_e(m).r2, v3(m.r0.y, m.r1.y, m.r2.y)) == 0,
        dot_e(adj_e(m).r2, v3(m.r0.z, m.r1.z, m.r2.z)) == det_e(m),
{
    let m00 = m.r0.x;
    let m01 = m.r0.y;
    let m02 = m.r0.z;
    let m10 = m.r1.x;
    let m11 = m.r1.y;
    let m12 = m.r1.z;
    let m20 = m.r2.x;
    let m21 = m.r2.y;
    let m22 = m.r2.z;
    let d = det_e(m);
    broadcast use vstd::arithmetic::mul::group_mul_is_commutative_and_distributive;
    broadcast use vstd::arithmetic::mul::lemma_mul_is_associative;

    assert((m11 * m22 - m21 * m12) * m00 + (m02 * m21 - m01 * m22) * m10 + (m01 * m12 - m02 * m11)
        * m20 == d);
    assert((m11 * m22 - m21 * m12) * m01 + (m02 * m21 - m01 * m22) * m11 + (m01 * m12 - m02 * m11)
        * m21 == 0);
    assert((m11 * m22 - m21 * m12) * m02 + (m02 * m21 - m01 * m22) * m12 + (m01 * m12 - m02 * m11)
        * m22 == 0);
    assert((m12 * m20 - m10 * m22) * m00 + (m00 * m22 - m02 * m20) * m10 + (m10 * m02 - m00 * m12)
        * m20 == 0);
    assert((m12 * m20 - m10 * m22) * m01 + (m00 * m22 - m02 * m20) * m11 + (m10 * m02 - m00 * m12)
        * m21 == d);
    assert((m12 * m20 - m10 * m22) * m02 + (m00 * m22 - m02 * m20) * m12 + (m10 * m02 - m00 * m12)
        * m22 == 0);
    assert((m10 * m21 - m20 * m11) * m00 + (m20 * m01 - m00 * m21) * m10 + (m00 * m11 - m10 * m01)
        * m20 == 0);
    assert((m10 * m21 - m20 * m11) * m01 + (m20 * m01 - m00 * m21) * m11 + (m00 * m11 - m10 * m01)
        * m21 == 0);
    assert((m10 * m21 - m20 * m11) * m02 + (m20 * m01 - m00 * m21) * m12 + (m00 * m11 - m10 * m01)
        * m22 == d);
}

/// Applying a matrix and then its adjugate returns every point scaled by the
/// determinant: the exact-arithmetic form of "a transform followed by its
/// inverse is the identity".
pub proof fn lemma_adjugate_inverse(m: M3, v: V3)
    ensures
        matvec_e(adj_e(m), matvec_e(m, v)) == vscale_e(v, det_e(m)),
{
    let a = adj_e(m);
    let d = det_e(m);
    lemma_cofactor_columns(m);
    lemma_regroup(
        a.r0.x, a.r0.y, a.r0.z, m.r0.x, m.r0.y, m.r0.z, m.r1.x, m.r1.y, m.r1.z, m.r2.x, m.r2.y,
        m.r2.z, v.x, v.y, v.z,
    );
    lemma_regroup(
        a.r1.x, a.r1.y, a.r1.z, m.r0.x, m.r0.y, m.r0.z, m.r1.x, m.r1.y, m.r1.z, m.r2.x, m.r2.y,
        m.r2.z, v.x, v.y, v.z,
    );
    lemma_regroup(
        a.r2.x, a.r2.y, a.r2.z, m.r0.x, m.r0.y, m.r0.z, m.r1.x, m.r1.y, m.r1.z, m.r2.x, m.r2.y,
        m.r2.z, v.x, v.y, v.z,
    );
    assert(dot_e(a.r0, matvec_e(m, v)) == d * v.x + 0 * v.y + 0 * v.z);
    assert(dot_e(a.r1, matvec_e(m, v)) == 0 * v.x + d * v.y + 0 * v.z);
    assert(dot_e(a.r2, matvec_e(m, v)) == 0 * v.x + 0 * v.y + d * v.z);
    assert(matvec_e(a, matvec_e(m, v)).x == v.x * d) by (nonlinear_arith)
        requires
            matvec_e(a, matvec_e(m, v)).x == d * v.x + 0 * v.y + 0 * v.z,
    ;
    assert(matvec_e(a, matvec_e(m, v)).y == v.y * d) by (nonlinear_arith)
        requires
            matvec_e(a, matvec_e(m, v)).y == 0 * v.x + d * v.y + 0 * v.z,
    ;
    assert(matvec_e(a, matvec_e(m, v)).z == v.z * d) by (nonlinear_arith)
        requires
            matvec_e(a, matvec_e(m, v)).z == 0 * v.x + 0 * v.y + d * v.z,
    ;
}

/// The three rows of a look-at basis (right, up, forward, with the two cross
/// products of the construction) are mutually orthogonal in exact
/// arithmetic.
pub proof fn lemma_lookat_rows_orthogonal(u: V3, d: V3)
    ensures
        dot_e(cross_e(u, d), d) == 0,
        dot_e(cross_e(d, cross_e(u, d)), d) == 0,
        dot_e(cross_e(d, cross_e(u, d)), cross_e(u, d)) == 0,
{
    lemma_cross_orthogonal(u, d);
    lemma_cross_orthogonal(d, cross_e(u, d));
}

/// A 3x3 matrix stored as three rows.
#[derive(Clone, Copy, Debug)]
pub struct Mat3 {
    pub r0: Vec3,
    pub r1: Vec3,
    pub r2: Vec3,
}

impl View for Mat3 {
    type V = M3;

    open spec fn view(&self) -> M3 {
        M3 { r0: self.r0@, r1: self.r1@, r2: self.r2@ }
    }
}

impl Mat3 {
    pub fn from_rows(r0: Vec3, r1: Vec3, r2: Vec3) -> (r: Mat3)
        ensures
            r@ == (M3 { r0: r0@, r1: r1@, r2: r2@ }),
    {
        Mat3 { r0, r1, r2 }
    }

    pub fn identity() -> (r: Mat3)
        ensures
            r@ == m3_identity(),
    {
        Mat3 {
            r0: Vec3::new(Fx::one(), Fx::zero(), Fx::zero()),
            r1: Vec3::new(Fx::zero(), Fx::one(), Fx::zero()),
            r2: Vec3::new(Fx::zero(), Fx::zero(), Fx::one()),
        }
    }

    /// A diagonal scaling matrix.
    pub fn scale(scales: Vec3) -> (r: Mat3)
        ensures
            r@ == m3_diag(scales@),
    {
        Mat3 {
            r0: Vec3::new(scales.x, Fx::zero(), Fx::zero()),
            r1: Vec3::new(Fx::zero(), scales.y, Fx::zero()),
            r2: Vec3::new(Fx::zero(), Fx::zero(), scales.z),
        }
    }

    /// Rotation about `axis` by `angle`; the axis must not be degenerate.
    pub fn rotation(angle: Fx, axis: Vec3) -> (r: Mat3)
        requires
            norm_sq(axis@) != 0,
        ensures
            r@ == rotation_s(angle@, axis@),
    {
        let c = angle.cos();
        let s = angle.sin();
        let omc = Fx::one().sub(c);
        let n = axis.norm();
        let nsq = axis.norm_squared();
        Mat3 {
            r0: Vec3::new(
                axis.x.mul(axis.x).add(axis.y.mul(axis.y).add(axis.z.mul(axis.z)).mul(c)).div(nsq),
                axis.x.mul(axis.y).mul(omc).sub(axis.z.mul(n).mul(s)).div(nsq),
                axis.x.mul(axis.z).mul(omc).add(axis.y.mul(n).mul(s)).div(nsq),
            ),
            r1: Vec3::new(
                axis.x.mul(axis.y).mul(omc).add(axis.z.mul(n).mul(s)).div(nsq),
                axis.y.mul(axis.y).add(axis.x.mul(axis.x).add(axis.z.mul(axis.z)).mul(c)).div(nsq),
                axis.y.mul(axis.z).mul(omc).sub(axis.x.mul(n).mul(s)).div(nsq),
            ),
            r2: Vec3::new(
                axis.x.mul(axis.z).mul(omc).sub(axis.y.mul(n).mul(s)).div(nsq),
                axis.y.mul(axis.z).mul(omc).add(axis.x.mul(n).mul(s)).div(nsq),
                axis.z.mul(axis.z).add(axis.x.mul(axis.x).add(axis.y.mul(axis.y)).mul(c)).div(nsq),
            ),
        }
    }

    /// Determinant by cofactor expansion.
    pub fn det(&self) -> (r: Fx)
        ensures
            r@ == det_s(self@),
    {
        self.r0.x.mul(self.r1.y.mul(self.r2.z).sub(self.r2.y.mul(self.r1.z))).sub(
            self.r0.y.mul(self.r1.x.mul(self.r2.z).sub(self.r1.z.mul(self.r2.x))),
        ).add(self.r0.z.mul(self.r1.x.mul(self.r2.y).sub(self.r1.y.mul(self.r2.x))))
    }

    /// Inverse by the adjugate method; the matrix must not be singular.
    pub fn compute_inverse(&self) -> (r: Mat3)
        requires
            det_s(self@) != 0,
        ensures
            r@ == inverse_s(self@),
    {
        let invdet = Fx::one().div(self.det());
        Mat3 {
            r0: Vec3::new(
                self.r1.y.mul(self.r2.z).sub(self.r2.y.mul(self.r1.z)).mul(invdet),
                self.r0.z.mul(self.r2.y).sub(self.r0.y.mul(self.r2.z)).mul(invdet),
                self.r0.y.mul(self.r1.z).sub(self.r0.z.mul(self.r1.y)).mul(invdet),
            ),
            r1: Vec3::new(
                self.r1.z.mul(self.r2.x).sub(self.r1.x.mul(self.r2.z)).mul(invdet),
                self.r0.x.mul(self.r2.z).sub(self.r0.z.mul(self.r2.x)).mul(invdet),
                self.r1.x.mul(self.r0.z).sub(self.r0.x.mul(self.r1.z)).mul(invdet),
            ),
            r2: Vec3::new(
                self.r1.x.mul(self.r2.y).sub(self.r2.x.mul(self.r1.y)).mul(invdet),
                self.r2.x.mul(self.r0.y).sub(self.r0.x.mul(self.r2.y)).mul(invdet),
                self.r0.x.mul(self.r1.y).sub(self.r1.x.mul(self.r0.y)).mul(invdet),
            ),
        }
    }

    pub fn transpose(&self) -> (r: Mat3)
        ensures
            r@ == transpose_s(self@),
    {
        Mat3 {
            r0: Vec3::new(self.r0.x, self.r1.x, self.r2.x),
            r1: Vec3::new(self.r0.y, self.r1.y, self.r2.y),
            r2: Vec3::new(self.r0.z, self.r1.z, self.r2.z),
        }
    }

    pub fn mul_vec(&self, vec: &Vec3) -> (r: Vec3)
        ensures
            r@ == mat_vec(self@, vec@),
    {
        Vec3 {
            x: self.r0.dot_product(vec),
            y: self.r1.dot_product(vec),
            z: self.r2.dot_product(vec),
        }
    }

    pub fn mul_point(&self, point: &Point) -> (r: Point)
        ensures
            r@ == mat_vec(self@, point@),
    {
        let vec = point.to_vec();
        Point {
            x: self.r0.dot_product(&vec),
            y: self.r1.dot_product(&vec),
            z: self.r2.dot_product(&vec),
        }
    }

    pub fn mul_mat(&self, other: &Mat3) -> (r: Mat3)
        ensures
            r@ == mat_mul_s(self@, other@),
    {
        let other_t = other.transpose();
        (Mat3 {
            r0: self.mul_vec(&other_t.r0),
            r1: self.mul_vec(&other_t.r1),
            r2: self.mul_vec(&other_t.r2),
        }).transpose()
    }

    /// Scales every entry.
    pub fn mul_scalar(&self, scalar: Fx) -> (r: Mat3)
        ensures
            r@ == mat_scale_s(self@, scalar@),
    {
        Mat3 {
            r0: self.r0.scale(scalar),
            r1: self.r1.scale(scalar),
            r2: self.r2.scale(scalar),
        }
    }

    /// Row lookup by index.
    pub fn row(&self, idx: usize) -> (r: Vec3)
        requires
            idx < 3,
        ensures
            idx == 0 ==> r@ == self@.r0,
            idx == 1 ==> r@ == self@.r1,
            idx == 2 ==> r@ == self@.r2,
    {
        if idx == 0 {
            self.r0
        } else if idx == 1 {
            self.r1
        } else {
            self.r2
        }
    }
}

// ---------------------------------------------------------------------------
// Affine transformations.
// ---------------------------------------------------------------------------

pub open spec fn tf_vec(t: TF, v: V3) -> V3 {
    mat_vec(t.mat, v)
}

pub open spec fn tf_point(t: TF, p: V3) -> V3 {
    vadd(mat_vec(t.mat, p), t.translation)
}

/// Composition `a . b` (apply `b`, then `a`), with the transpose convention
/// of the row-based representation.
pub open spec fn compose_s(a: TF, b: TF) -> TF {
    TF {
        mat: mat_mul_s(a.mat, transpose_s(b.mat)),
        translation: vadd(mat_vec(a.mat, b.translation), a.translation),
    }
}

pub open spec fn tf_inverse_s(t: TF) -> TF {
    let minv = inverse_s(t.mat);
    TF { mat: minv, translation: vscale(mat_vec(minv, t.translation), -(SCALE as int)) }
}

/// Direction of the look-at basis before normalization.
pub open spec fn lookat_dir_raw(yaw: int, pitch: int) -> V3 {
    V3 {
        x: fmul(cos_s(yaw), cos_s(pitch)),
        y: sin_s(pitch),
        z: fmul(sin_s(yaw), cos_s(pitch)),
    }
}

pub open spec fn lookat_right_raw(yaw: int, pitch: int) -> V3 {
    cross(v3(0, SCALE as int, 0), vnormalize(lookat_dir_raw(yaw, pitch)))
}

pub open spec fn lookat_up_raw(yaw: int, pitch: int) -> V3 {
    cross(vnormalize(lookat_dir_raw(yaw, pitch)), vnormalize(lookat_right_raw(yaw, pitch)))
}

/// The world-to-camera transform built from a position and yaw/pitch.
pub open spec fn lookat_s(pos: V3, yaw: int, pitch: int) -> TF {
    let rot = M3 {
        r0: vnormalize(lookat_right_raw(yaw, pitch)),
        r1: vnormalize(lookat_up_raw(yaw, pitch)),
        r2: vnormalize(lookat_dir_raw(yaw, pitch)),
    };
    TF { mat: rot, translation: mat_vec(rot, vscale(pos, -(SCALE as int))) }
}

/// An affine transformation: a linear part and a translation.
#[derive(Clone, Copy, Debug)]
pub struct Transformation {
    pub transform_mat: Mat3,
    pub translation: Vec3,
}

impl View for Transformation {
    type V = TF;

    open spec fn view(&self) -> TF {
        TF { mat: self.transform_mat@, translation: self.translation@ }
    }
}

impl Transformation {
    pub fn new(transform_mat: Mat3, translation: Vec3) -> (r: Transformation)
        ensures
            r@ == (TF { mat: transform_mat@, translation: translation@ }),
    {
        Transformation { transform_mat, translation }
    }

    pub fn translation(translation: Vec3) -> (r: Transformation)
        ensures
            r@ == (TF { mat: m3_identity(), translation: translation@ }),
    {
        Transformation::new(Mat3::identity(), translation)
    }

    pub fn rotation(angle: Fx, axis: Vec3) -> (r: Transformation)
        requires
            norm_sq(axis@) != 0,
        ensures
            r@ == (TF { mat: rotation_s(angle@, axis@), translation: v3(0, 0, 0) }),
    {
        Transformation::new(Mat3::rotation(angle, axis), Vec3::zero())
    }

    pub fn scale(scales: Vec3) -> (r: Transformation)
        ensures
            r@ == (TF { mat: m3_diag(scales@), translation: v3(0, 0, 0) }),
    {
        Transformation::new(Mat3::scale(scales), Vec3::zero())
    }

    pub fn identity() -> (r: Transformation)
        ensures
            r@ == (TF { mat: m3_identity(), translation: v3(0, 0, 0) }),
    {
        Transformation { transform_mat: Mat3::identity(), translation: Vec3::zero() }
    }

    /// Builds the world-to-camera transform from a position and yaw/pitch.
    /// The construction normalizes three vectors, so the orientation must
    /// not be degenerate (looking straight along the world up axis is).
    pub fn create_look_at(position: &Vec3, yaw: Fx, pitch: Fx) -> (r: Transformation)
        requires
            vnorm(lookat_dir_raw(yaw@, pitch@)) != 0,
            vnorm(lookat_right_raw(yaw@, pitch@)) != 0,
            vnorm(lookat_up_raw(yaw@, pitch@)) != 0,
        ensures
            r@ == lookat_s(position@, yaw@, pitch@),
    {
        let direction = Vec3::new(
            yaw.cos().mul(pitch.cos()),
            pitch.sin(),
            yaw.sin().mul(pitch.cos()),
        ).normalize();
        let right = Vec3::new(Fx::zero(), Fx::one(), Fx::zero()).cross_product(
            &direction,
        ).normalize();
        let up = direction.cross_product(&right).normalize();
        let rotation_inv = Mat3 { r0: right, r1: up, r2: direction };
        Transformation {
            translation: rotation_inv.mul_vec(&position.scale(Fx::one().neg())),
            transform_mat: rotation_inv,
        }
    }

    /// Inverts the transform; the linear part must not be singular.
    pub fn compute_inverse(&self) -> (r: Transformation)
        requires
            det_s(self@.mat) != 0,
        ensures
            r@ == tf_inverse_s(self@),
    {
        let transform_inv = self.transform_mat.compute_inverse();
        let back_translation = transform_inv.mul_vec(&self.translation).scale(Fx::one().neg());
        Transformation { transform_mat: transform_inv, translation: back_translation }
    }

    /// Composition: applies `other`, then `self`.
    pub fn compose(&self, other: &Transformation) -> (r: Transformation)
        ensures
            r@ == compose_s(self@, other@),
    {
        Transformation {
            transform_mat: self.transform_mat.mul_mat(&other.transform_mat.transpose()),
            translation: self.transform_mat.mul_vec(&other.translation).add(&self.translation),
        }
    }

    pub fn transform_vec(&self, vec: &Vec3) -> (r: Vec3)
        ensures
            r@ == tf_vec(self@, vec@),
    {
        self.transform_mat.mul_vec(vec)
    }

    pub fn transform_point(&self, point: &Point) -> (r: Point)
        ensures
            r@ == tf_point(self@, point@),
    {
        let vec = point.to_vec();
        self.transform_mat.mul_vec(&vec).add(&self.translation).to_point()
    }
}

} // verus!

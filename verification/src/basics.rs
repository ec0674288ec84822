//! Vectors, points, colors, rays and lights.
//!
//! Each executable type has a ghost model over the mathematical integers
//! (`V3` for vectors and points, `C3` for colors), and every operation's
//! contract states the computed components exactly.

use vstd::prelude::*;

use crate::fixed::{Fx, fadd, fsub, fmul, fdiv, fsqrt, SCALE, BOUND};

verus! {

/// Ghost model of a vector or point: three unbounded integer components.
pub ghost struct V3 {
    pub x: int,
    pub y: int,
    pub z: int,
}

/// Ghost model of a color.
pub ghost struct C3 {
    pub r: int,
    pub g: int,
    pub b: int,
}

pub open spec fn v3(x: int, y: int, z: int) -> V3 {
    V3 { x, y, z }
}

pub open spec fn vadd(a: V3, b: V3) -> V3 {
    V3 { x: fadd(a.x, b.x), y: fadd(a.y, b.y), z: fadd(a.z, b.z) }
}

pub open spec fn vsub(a: V3, b: V3) -> V3 {
    V3 { x: fsub(a.x, b.x), y: fsub(a.y, b.y), z: fsub(a.z, b.z) }
}

pub open spec fn vscale(a: V3, s: int) -> V3 {
    V3 { x: fmul(a.x, s), y: fmul(a.y, s), z: fmul(a.z, s) }
}

pub open spec fn vneg(a: V3) -> V3 {
    V3 { x: -a.x, y: -a.y, z: -a.z }
}

/// Dot product, accumulated left to right as the executable code does.
pub open spec fn dot(a: V3, b: V3) -> int {
    fadd(fadd(fmul(a.x, b.x), fmul(a.y, b.y)), fmul(a.z, b.z))
}

pub open spec fn cross(a: V3, b: V3) -> V3 {
    V3 {
        x: fsub(fmul(a.y, b.z), fmul(a.z, b.y)),
        y: fsub(fmul(a.z, b.x), fmul(a.x, b.z)),
        z: fsub(fmul(a.x, b.y), fmul(a.y, b.x)),
    }
}

pub open spec fn norm_sq(a: V3) -> int {
    dot(a, a)
}

pub open spec fn vnorm(a: V3) -> int {
    fsqrt(norm_sq(a))
}

pub open spec fn vnormalize(a: V3) -> V3 {
    let n = vnorm(a);
    V3 { x: fdiv(a.x, n), y: fdiv(a.y, n), z: fdiv(a.z, n) }
}

/// Total normalization: a degenerate vector is returned unchanged.
pub open spec fn vnormalize_t(a: V3) -> V3 {
    if vnorm(a) == 0 {
        a
    } else {
        vnormalize(a)
    }
}

/// The point reached from `o` after travelling `t` along `d`.
pub open spec fn ray_point(o: V3, d: V3, t: int) -> V3 {
    vadd(o, vscale(d, t))
}

/// The parameter at which a ray from `o` along `d` reaches `p`, recovered
/// from the ratio of squared distances; the saturation bound when `d` is
/// degenerate.
pub open spec fn ray_param(o: V3, d: V3, p: V3) -> int {
    if norm_sq(d) == 0 {
        BOUND as int
    } else {
        fsqrt(fdiv(norm_sq(vsub(p, o)), norm_sq(d)))
    }
}

pub open spec fn clamp01(x: int) -> int {
    if x < 0 {
        0
    } else if x > SCALE as int {
        SCALE as int
    } else {
        x
    }
}

pub open spec fn cclamp(c: C3) -> C3 {
    C3 { r: clamp01(c.r), g: clamp01(c.g), b: clamp01(c.b) }
}

pub open spec fn cadd_raw(a: C3, b: C3) -> C3 {
    C3 { r: fadd(a.r, b.r), g: fadd(a.g, b.g), b: fadd(a.b, b.b) }
}

/// Clamped color addition, as the original combination step performs it.
pub open spec fn cadd(a: C3, b: C3) -> C3 {
    cclamp(cadd_raw(a, b))
}

/// Clamped scaling of a color by a strength factor.
pub open spec fn cscale(c: C3, s: int) -> C3 {
    cclamp(C3 { r: fmul(c.r, s), g: fmul(c.g, s), b: fmul(c.b, s) })
}

/// All channels lie inside `[0, 1]` (in fixed-point units).
pub open spec fn color_in_range(c: C3) -> bool {
    &&& 0 <= c.r <= SCALE as int
    &&& 0 <= c.g <= SCALE as int
    &&& 0 <= c.b <= SCALE as int
}

// ---------------------------------------------------------------------------
// Exact-arithmetic counterparts (no scaling, no saturation).  The algebraic
// laws of the kernel are stated and proved over these.
// ---------------------------------------------------------------------------

pub open spec fn dot_e(a: V3, b: V3) -> int {
    a.x * b.x + a.y * b.y + a.z * b.z
}

pub open spec fn cross_e(a: V3, b: V3) -> V3 {
    V3 { x: a.y * b.z - a.z * b.y, y: a.z * b.x - a.x * b.z, z: a.x * b.y - a.y * b.x }
}

pub open spec fn vadd_e(a: V3, b: V3) -> V3 {
    V3 { x: a.x + b.x, y: a.y + b.y, z: a.z + b.z }
}

pub open spec fn vsub_e(a: V3, b: V3) -> V3 {
    V3 { x: a.x - b.x, y: a.y - b.y, z: a.z - b.z }
}

pub open spec fn vscale_e(a: V3, s: int) -> V3 {
    V3 { x: a.x * s, y: a.y * s, z: a.z * s }
}

/// Mirror image of `d` about the plane with normal `n`, scaled by `n . n`
/// so that it is division-free.
pub open spec fn reflect_e(d: V3, n: V3) -> V3 {
    vsub_e(vscale_e(d, dot_e(n, n)), vscale_e(n, 2 * dot_e(d, n)))
}

proof fn lemma_cross_dot_cancel(ax: int, ay: int, az: int, bx: int, by0: int, bz: int)
    ensures
        (ay * bz - az * by0) * ax + (az * bx - ax * bz) * ay + (ax * by0 - ay * bx) * az == 0,
        (ay * bz - az * by0) * bx + (az * bx - ax * bz) * by0 + (ax * by0 - ay * bx) * bz == 0,
{
    broadcast use vstd::arithmetic::mul::group_mul_is_commutative_and_distributive;
    broadcast use vstd::arithmetic::mul::lemma_mul_is_associative;

}

/// A cross product is orthogonal to both of its factors.
pub proof fn lemma_cross_orthogonal(a: V3, b: V3)
    ensures
        dot_e(cross_e(a, b), a) == 0,
        dot_e(cross_e(a, b), b) == 0,
{
    lemma_cross_dot_cancel(a.x, a.y, a.z, b.x, b.y, b.z);
}

proof fn lemma_reflect_cancel(dx: int, dy: int, dz: int, nx: int, ny: int, nz: int)
    ensures
        (dx * (nx * nx + ny * ny + nz * nz) - nx * (2 * (dx * nx + dy * ny + dz * nz))) * nx + (dy
            * (nx * nx + ny * ny + nz * nz) - ny * (2 * (dx * nx + dy * ny + dz * nz))) * ny + (dz
            * (nx * nx + ny * ny + nz * nz) - nz * (2 * (dx * nx + dy * ny + dz * nz))) * nz == -((
        dx * nx + dy * ny + dz * nz) * (nx * nx + ny * ny + nz * nz)),
{
    broadcast use vstd::arithmetic::mul::group_mul_is_commutative_and_distributive;
    broadcast use vstd::arithmetic::mul::lemma_mul_is_associative;

}

/// Law of reflection: the reflected direction makes the same angle with the
/// normal as the incoming direction, measured by dot products (stated in
/// exact arithmetic; the executable pipeline approximates this in fixed
/// point).
pub proof fn lemma_reflection_law(d: V3, n: V3)
    ensures
        dot_e(reflect_e(d, n), n) == -(dot_e(d, n) * dot_e(n, n)),
{
    lemma_reflect_cancel(d.x, d.y, d.z, n.x, n.y, n.z);
}

pub proof fn lemma_square_nonneg(x: int)
    ensures
        x * x >= 0,
{
    assert(x * x >= 0) by (nonlinear_arith);
}

/// A squared norm is never negative.
pub proof fn lemma_norm_sq_nonneg(a: V3)
    ensures
        0 <= norm_sq(a) <= BOUND as int,
{
    lemma_square_nonneg(a.x);
    lemma_square_nonneg(a.y);
    lemma_square_nonneg(a.z);
}

/// A vector with component-wise fixed-point arithmetic.
#[derive(Clone, Copy, Debug, PartialEq, Eq, Structural)]
pub struct Vec3 {
    pub x: Fx,
    pub y: Fx,
    pub z: Fx,
}

impl View for Vec3 {
    type V = V3;

    open spec fn view(&self) -> V3 {
        V3 { x: self.x@, y: self.y@, z: self.z@ }
    }
}

impl Vec3 {
    pub fn new(x: Fx, y: Fx, z: Fx) -> (r: Vec3)
        ensures
            r@ == v3(x@, y@, z@),
    {
        Vec3 { x, y, z }
    }

    pub fn zero() -> (r: Vec3)
        ensures
            r@ == v3(0, 0, 0),
    {
        Vec3 { x: Fx::zero(), y: Fx::zero(), z: Fx::zero() }
    }

    pub fn add(&self, other: &Vec3) -> (r: Vec3)
        ensures
            r@ == vadd(self@, other@),
    {
        Vec3 { x: self.x.add(other.x), y: self.y.add(other.y), z: self.z.add(other.z) }
    }

    pub fn sub(&self, other: &Vec3) -> (r: Vec3)
        ensures
            r@ == vsub(self@, other@),
    {
        Vec3 { x: self.x.sub(other.x), y: self.y.sub(other.y), z: self.z.sub(other.z) }
    }

    pub fn scale(&self, s: Fx) -> (r: Vec3)
        ensures
            r@ == vscale(self@, s@),
    {
        Vec3 { x: self.x.mul(s), y: self.y.mul(s), z: self.z.mul(s) }
    }

    pub fn neg(&self) -> (r: Vec3)
        ensures
            r@ == vneg(self@),
    {
        Vec3 { x: self.x.neg(), y: self.y.neg(), z: self.z.neg() }
    }

    pub fn dot_product(&self, other: &Vec3) -> (r: Fx)
        ensures
            r@ == dot(self@, other@),
    {
        self.x.mul(other.x).add(self.y.mul(other.y)).add(self.z.mul(other.z))
    }

    pub fn cross_product(&self, other: &Vec3) -> (r: Vec3)
        ensures
            r@ == cross(self@, other@),
    {
        Vec3 {
            x: self.y.mul(other.z).sub(self.z.mul(other.y)),
            y: self.z.mul(other.x).sub(self.x.mul(other.z)),
            z: self.x.mul(other.y).sub(self.y.mul(other.x)),
        }
    }

    pub fn norm_squared(&self) -> (r: Fx)
        ensures
            r@ == norm_sq(self@),
            r@ >= 0,
    {
        proof {
            lemma_norm_sq_nonneg(self@);
        }
        self.dot_product(self)
    }

    pub fn norm(&self) -> (r: Fx)
        ensures
            r@ == vnorm(self@),
    {
        self.norm_squared().sqrt()
    }

    /// Scales the vector to unit length.  A zero-length vector is a
    /// documented caller error, excluded here.
    pub fn normalize(&self) -> (r: Vec3)
        requires
            vnorm(self@) != 0,
        ensures
            r@ == vnormalize(self@),
    {
        let n = self.norm();
        Vec3 { x: self.x.div(n), y: self.y.div(n), z: self.z.div(n) }
    }

    /// Normalization with a defensive check: a vector whose computed norm is
    /// zero is handed back unchanged instead of dividing by zero.
    pub fn normalize_safe(&self) -> (r: Vec3)
        ensures
            r@ == vnormalize_t(self@),
    {
        let n = self.norm();
        if n.is_zero() {
            *self
        } else {
            Vec3 { x: self.x.div(n), y: self.y.div(n), z: self.z.div(n) }
        }
    }

    /// Component lookup by axis index.
    pub fn axis(&self, idx: usize) -> (r: Fx)
        requires
            idx < 3,
        ensures
            idx == 0 ==> r@ == self@.x,
            idx == 1 ==> r@ == self@.y,
            idx == 2 ==> r@ == self@.z,
    {
        if idx == 0 {
            self.x
        } else if idx == 1 {
            self.y
        } else {
            self.z
        }
    }

    pub fn to_point(&self) -> (r: Point)
        ensures
            r@ == self@,
    {
        Point { x: self.x, y: self.y, z: self.z }
    }
}

/// A position in space; kept distinct from `Vec3` so that point/vector
/// arithmetic cannot be mixed up.
#[derive(Clone, Copy, Debug, PartialEq, Eq, Structural)]
pub struct Point {
    pub x: Fx,
    pub y: Fx,
    pub z: Fx,
}

impl View for Point {
    type V = V3;

    open spec fn view(&self) -> V3 {
        V3 { x: self.x@, y: self.y@, z: self.z@ }
    }
}

impl Point {
    pub fn new(x: Fx, y: Fx, z: Fx) -> (r: Point)
        ensures
            r@ == v3(x@, y@, z@),
    {
        Point { x, y, z }
    }

    pub fn zero() -> (r: Point)
        ensures
            r@ == v3(0, 0, 0),
    {
        Point { x: Fx::zero(), y: Fx::zero(), z: Fx::zero() }
    }

    /// Point difference yields a vector.
    pub fn sub(&self, other: &Point) -> (r: Vec3)
        ensures
            r@ == vsub(self@, other@),
    {
        Vec3 { x: self.x.sub(other.x), y: self.y.sub(other.y), z: self.z.sub(other.z) }
    }

    /// Point plus vector yields a point.
    pub fn add_vec(&self, direction: &Vec3) -> (r: Point)
        ensures
            r@ == vadd(self@, direction@),
    {
        Point {
            x: self.x.add(direction.x),
            y: self.y.add(direction.y),
            z: self.z.add(direction.z),
        }
    }

    pub fn to_vec(&self) -> (r: Vec3)
        ensures
            r@ == self@,
    {
        Vec3 { x: self.x, y: self.y, z: self.z }
    }

    pub fn axis(&self, idx: usize) -> (r: Fx)
        requires
            idx < 3,
        ensures
            idx == 0 ==> r@ == self@.x,
            idx == 1 ==> r@ == self@.y,
            idx == 2 ==> r@ == self@.z,
    {
        if idx == 0 {
            self.x
        } else if idx == 1 {
            self.y
        } else {
            self.z
        }
    }
}

/// An RGB color with channels in fixed-point units; `clamp` confines each
/// channel to `[0, 1]`.
#[derive(Clone, Copy, Debug, PartialEq, Eq, Structural)]
pub struct Color {
    pub r: Fx,
    pub g: Fx,
    pub b: Fx,
}

impl View for Color {
    type V = C3;

    open spec fn view(&self) -> C3 {
        C3 { r: self.r@, g: self.g@, b: self.b@ }
    }
}

impl Color {
    /// Builds a color, clamping each channel to `[0, 1]`.
    pub fn new(r: Fx, g: Fx, b: Fx) -> (c: Color)
        ensures
            c@ == cclamp((C3 { r: r@, g: g@, b: b@ })),
            color_in_range(c@),
    {
        (Color { r, g, b }).clamp()
    }

    pub fn zero() -> (c: Color)
        ensures
            c@ == (C3 { r: 0, g: 0, b: 0 }),
            color_in_range(c@),
    {
        Color { r: Fx::zero(), g: Fx::zero(), b: Fx::zero() }
    }

    pub fn clamp(&self) -> (c: Color)
        ensures
            c@ == cclamp(self@),
            color_in_range(c@),
    {
        Color {
            r: self.r.max(Fx::zero()).min(Fx::one()),
            g: self.g.max(Fx::zero()).min(Fx::one()),
            b: self.b.max(Fx::zero()).min(Fx::one()),
        }
    }

    pub fn add_no_clamp(&self, other: &Color) -> (c: Color)
        ensures
            c@ == cadd_raw(self@, other@),
    {
        Color { r: self.r.add(other.r), g: self.g.add(other.g), b: self.b.add(other.b) }
    }

    /// Clamped addition.
    pub fn add(&self, other: &Color) -> (c: Color)
        ensures
            c@ == cadd(self@, other@),
            color_in_range(c@),
    {
        self.add_no_clamp(other).clamp()
    }

    /// Clamped scaling by a strength factor.
    pub fn scale(&self, strength: Fx) -> (c: Color)
        ensures
            c@ == cscale(self@, strength@),
            color_in_range(c@),
    {
        (Color { r: self.r.mul(strength), g: self.g.mul(strength), b: self.b.mul(strength) }).clamp()
    }
}

/// A small rectangular area light; zero extents make it a point light.
#[derive(Clone, Copy, Debug)]
pub struct Light {
    pub location: Point,
    pub color: Color,
    pub right: Vec3,
    pub top: Vec3,
}

/// A ray with an origin and a (not necessarily unit) direction.
#[derive(Clone, Copy, Debug)]
pub struct Ray {
    pub origin: Point,
    pub direction: Vec3,
}

impl Ray {
    /// The point at parameter `t` along the ray.
    pub fn compute_point(&self, t: Fx) -> (r: Point)
        ensures
            r@ == ray_point(self.origin@, self.direction@, t@),
    {
        self.origin.add_vec(&self.direction.scale(t))
    }

    /// Recovers the parameter of a point assumed to lie on the ray, as the
    /// ratio of distances.  A degenerate direction yields the saturation
    /// bound, the sentinel for "no finite parameter".
    pub fn compute_t(&self, point: &Point) -> (r: Fx)
        ensures
            r@ == ray_param(self.origin@, self.direction@, point@),
    {
        let num = point.sub(&self.origin).norm_squared();
        let den = self.direction.norm_squared();
        if den.is_zero() {
            Fx::from_raw(BOUND)
        } else {
            let q = num.div(den);
            proof {
                crate::fixed::lemma_tdiv_nonneg(num@ * SCALE as int, den@);
            }
            q.sqrt()
        }
    }
}

/// A diagonal 3x3 matrix, used as a non-uniform scale.
#[derive(Clone, Copy, Debug)]
pub struct DiagMat3 {
    pub a: Fx,
    pub b: Fx,
    pub c: Fx,
}

impl DiagMat3 {
    /// Inverts the scale; each diagonal entry must be non-zero.
    pub fn compute_inverse(&self) -> (r: DiagMat3)
        requires
            self.a@ != 0,
            self.b@ != 0,
            self.c@ != 0,
        ensures
            r.a@ == fdiv(SCALE as int, self.a@),
            r.b@ == fdiv(SCALE as int, self.b@),
            r.c@ == fdiv(SCALE as int, self.c@),
    {
        DiagMat3 { a: Fx::one().div(self.a), b: Fx::one().div(self.b), c: Fx::one().div(self.c) }
    }

    /// Applies the diagonal matrix to a vector.
    pub fn mul_vec(&self, vector: &Vec3) -> (r: Vec3)
        ensures
            r@ == (V3 {
                x: fmul(vector@.x, self.a@),
                y: fmul(vector@.y, self.b@),
                z: fmul(vector@.z, self.c@),
            }),
    {
        Vec3 { x: vector.x.mul(self.a), y: vector.y.mul(self.b), z: vector.z.mul(self.c) }
    }
}

} // verus!

//! Surfaces: intersection results, materials, and the closed set of
//! primitive kinds (sphere, plane, ellipsoid, cone, mesh, and the affine
//! placement decorator).
//!
//! Every `compute_hit` carries an exact contract: a spec function mirrors
//! the fixed-point computation step by step, so the returned parameter and
//! normal are pinned down completely.

use vstd::prelude::*;

use crate::basics::{
    V3, v3, C3, Vec3, Point, Color, Ray, vsub, vscale, dot, norm_sq, vnormalize_t,
    ray_point, ray_param, color_in_range,
};
use crate::fixed::{
    Fx, fadd, fsub, fmul, fdiv, fsqrt, cos_s, sin_s, is_isqrt, isqrt_s, lemma_isqrt_unique, SCALE,
    MIN_RAY_T,
};
use crate::matrix::{Mat3, Transformation, det_s, tf_inverse_s, transpose_s, mat_vec, tf_point};
use crate::mesh::{TriangleMesh, mesh_wf, mesh_hit_s};

verus! {

/// Ghost model of an intersection: parameter and surface normal.
pub ghost struct HitS {
    pub t: int,
    pub normal: V3,
}

/// An intersection result.
#[derive(Clone, Copy, Debug)]
pub struct Hit {
    pub t: Fx,
    pub normal: Vec3,
}

impl View for Hit {
    type V = HitS;

    open spec fn view(&self) -> HitS {
        HitS { t: self.t@, normal: self.normal@ }
    }
}

/// The view of an optional hit.
pub open spec fn hit_opt(o: Option<Hit>) -> Option<HitS> {
    match o {
        Option::None => Option::None,
        Option::Some(h) => Option::Some(h@),
    }
}

impl Hit {
    pub fn new(t: Fx, normal: Vec3) -> (r: Hit)
        ensures
            r@ == (HitS { t: t@, normal: normal@ }),
    {
        Hit { t, normal }
    }

    /// The sentinel "no intersection" hit: the saturation bound stands in
    /// for an infinite parameter.
    pub fn inf() -> (r: Hit)
        ensures
            r@.t == crate::fixed::BOUND as int,
            r@.normal == v3(0, SCALE as int, 0),
    {
        Hit {
            t: Fx::from_raw(crate::fixed::BOUND),
            normal: Vec3::new(Fx::zero(), Fx::one(), Fx::zero()),
        }
    }
}

/// Ghost model of a material.
pub ghost struct VisS {
    pub color: C3,
    pub specular_strength: int,
    pub reflection_strength: int,
    pub reflection_glossiness: int,
}

/// Per-surface material data.
#[derive(Clone, Copy, Debug)]
pub struct VisualData {
    pub color: Color,
    pub specular_strength: Fx,
    pub reflection_strength: Fx,
    pub reflection_glossiness: Fx,
}

impl View for VisualData {
    type V = VisS;

    open spec fn view(&self) -> VisS {
        VisS {
            color: self.color@,
            specular_strength: self.specular_strength@,
            reflection_strength: self.reflection_strength@,
            reflection_glossiness: self.reflection_glossiness@,
        }
    }
}

impl VisualData {
    pub fn from_color(color: &Color) -> (r: VisualData)
        ensures
            r@.color == color@,
            r@.specular_strength == 0,
            r@.reflection_strength == 0,
            r@.reflection_glossiness == 0,
    {
        VisualData {
            color: *color,
            specular_strength: Fx::zero(),
            reflection_strength: Fx::zero(),
            reflection_glossiness: Fx::zero(),
        }
    }

    pub fn zero() -> (r: VisualData)
        ensures
            r@.color == (C3 { r: 0, g: 0, b: 0 }),
            r@.specular_strength == 0,
            r@.reflection_strength == 0,
            r@.reflection_glossiness == 0,
    {
        VisualData::from_color(&Color::zero())
    }

    pub fn grey() -> (r: VisualData)
        ensures
            r@.color == (C3 { r: 775946, g: 796918, b: 817889 }),
            r@.specular_strength == 0,
            r@.reflection_strength == 0,
            r@.reflection_glossiness == 0,
            color_in_range(r@.color),
    {
        VisualData::from_color(
            &Color::new(Fx::from_raw(775946), Fx::from_raw(796918), Fx::from_raw(817889)),
        )
    }
}

// ---------------------------------------------------------------------------
// Quadratic-root helpers shared by the quadric primitives.
// ---------------------------------------------------------------------------

/// Roots of `a t^2 + b t + c`, mirrored in fixed point: a negative
/// discriminant (or a degenerate leading coefficient) yields none, a zero
/// discriminant one root, otherwise two.
pub open spec fn roots_s(a: int, b: int, c: int) -> Option<(int, Option<int>)> {
    let discr = fsub(fmul(b, b), fmul(fmul(4 * SCALE, a), c));
    let denom = fmul(2 * SCALE, a);
    if discr < 0 || denom == 0 {
        Option::None
    } else if discr == 0 {
        Option::Some((fdiv(-b, denom), Option::None))
    } else {
        let sq = fsqrt(discr);
        Option::Some((fdiv(fsub(-b, sq), denom), Option::Some(fdiv(fadd(-b, sq), denom))))
    }
}

/// The smallest root at or above the self-intersection cutoff, if any.
pub open spec fn select_root_s(roots: (int, Option<int>)) -> Option<int> {
    match roots.1 {
        Option::None => {
            if roots.0 >= MIN_RAY_T as int {
                Option::Some(roots.0)
            } else {
                Option::None
            }
        },
        Option::Some(t1) => {
            let t0 = roots.0;
            if t0 < MIN_RAY_T as int {
                if t1 < MIN_RAY_T as int {
                    Option::None
                } else {
                    Option::Some(t1)
                }
            } else {
                if t1 < MIN_RAY_T as int {
                    Option::Some(t0)
                } else {
                    Option::Some(
                        if t0 <= t1 {
                            t0
                        } else {
                            t1
                        },
                    )
                }
            }
        },
    }
}

/// Finds the roots of a quadratic equation.
pub fn find_square_roots(a: Fx, b: Fx, c: Fx) -> (r: Option<(Fx, Option<Fx>)>)
    ensures
        (match r {
            Option::None => roots_s(a@, b@, c@) is None,
            Option::Some(p) => {
                &&& roots_s(a@, b@, c@) matches Option::Some(q)
                &&& p.0@ == q.0
                &&& (match p.1 {
                    Option::None => q.1 is None,
                    Option::Some(x) => q.1 == Option::Some(x@),
                })
            },
        }),
{
    let discr = b.mul(b).sub(Fx::from_int(4).mul(a).mul(c));
    let denom = Fx::from_int(2).mul(a);
    if discr.lt(Fx::zero()) || denom.is_zero() {
        return Option::None;
    }
    if discr.is_zero() {
        Option::Some((b.neg().div(denom), Option::None))
    } else {
        proof {
            crate::fixed::lemma_tdiv_nonneg(discr@ * SCALE as int, SCALE as int);
        }
        let discr_sqrt = discr.sqrt();
        Option::Some(
            (
                b.neg().sub(discr_sqrt).div(denom),
                Option::Some(b.neg().add(discr_sqrt).div(denom)),
            ),
        )
    }
}

/// Selects the smallest root at or above the cutoff.
pub fn select_smallest_positive_root(roots: (Fx, Option<Fx>)) -> (r: Option<Fx>)
    ensures
        (match r {
            Option::None => select_root_s(
                (
                    roots.0@,
                    match roots.1 {
                        Option::None => Option::None,
                        Option::Some(x) => Option::Some(x@),
                    },
                ),
            ) is None,
            Option::Some(t) => select_root_s(
                (
                    roots.0@,
                    match roots.1 {
                        Option::None => Option::None,
                        Option::Some(x) => Option::Some(x@),
                    },
                ),
            ) == Option::Some(t@),
        }),
{
    let min_t = Fx::from_raw(MIN_RAY_T);
    match roots.1 {
        Option::None => {
            if !roots.0.lt(min_t) {
                Option::Some(roots.0)
            } else {
                Option::None
            }
        },
        Option::Some(t1) => {
            let t0 = roots.0;
            if t0.lt(min_t) {
                if t1.lt(min_t) {
                    Option::None
                } else {
                    Option::Some(t1)
                }
            } else {
                if t1.lt(min_t) {
                    Option::Some(t0)
                } else {
                    Option::Some(t0.min(t1))
                }
            }
        },
    }
}

/// Intersection of a ray with the plane through `bias` with normal
/// `normal`.
pub open spec fn plane_hit_s(bias: V3, normal: V3, o: V3, d: V3) -> Option<HitS> {
    let denom = dot(normal, d);
    if denom == 0 {
        Option::None
    } else {
        let t = fdiv(dot(vsub(bias, o), normal), denom);
        if t >= MIN_RAY_T as int {
            Option::Some(HitS { t, normal })
        } else {
            Option::None
        }
    }
}

/// Ray/plane intersection.
pub fn compute_plane_hit(bias: &Point, normal: &Vec3, ray: &Ray) -> (r: Option<Hit>)
    ensures
        hit_opt(r) == plane_hit_s(bias@, normal@, ray.origin@, ray.direction@),
{
    let denom = normal.dot_product(&ray.direction);
    if denom.is_zero() {
        return Option::None;
    }
    let num = bias.sub(&ray.origin).dot_product(normal);
    let t = num.div(denom);
    if !t.lt(Fx::from_raw(MIN_RAY_T)) {
        Option::Some(Hit::new(t, *normal))
    } else {
        Option::None
    }
}

// ---------------------------------------------------------------------------
// Sphere.
// ---------------------------------------------------------------------------

#[derive(Clone, Copy, Debug)]
pub struct Sphere {
    pub center: Point,
    pub radius: Fx,
    pub vis: VisualData,
}

/// Outward normal of a sphere at `p`: the offset from the center divided by
/// the radius.
pub open spec fn sphere_normal_s(center: V3, radius: int, p: V3) -> V3 {
    vscale(vsub(p, center), fdiv(SCALE as int, radius))
}

/// Ray/sphere intersection via the shared quadratic helper.
#[verifier::opaque]
pub open spec fn sphere_hit_s(s: Sphere, o: V3, d: V3) -> Option<HitS> {
    let otc = vsub(s.center@, o);
    let a = norm_sq(d);
    let b = fmul(-2 * SCALE, dot(d, otc));
    let c = fsub(norm_sq(otc), fmul(s.radius@, s.radius@));
    match roots_s(a, b, c) {
        Option::None => Option::None,
        Option::Some(roots) => match select_root_s(roots) {
            Option::None => Option::None,
            Option::Some(t) => Option::Some(
                HitS { t, normal: sphere_normal_s(s.center@, s.radius@, ray_point(o, d, t)) },
            ),
        },
    }
}

impl Sphere {
    pub open spec fn wf(self) -> bool {
        self.radius@ != 0
    }

    /// The unit sphere at the origin with the given material.
    pub fn new(vis: VisualData) -> (r: Sphere)
        ensures
            r.center@ == v3(0, 0, 0),
            r.radius@ == SCALE as int,
            r.vis == vis,
            r.wf(),
    {
        Sphere { center: Point::zero(), radius: Fx::one(), vis }
    }

    pub fn from_position(radius: Fx, center: Point) -> (r: Sphere)
        requires
            radius@ != 0,
        ensures
            r.center == center,
            r.radius == radius,
            r.wf(),
            r.vis@.color == (C3 { r: 0, g: 0, b: 0 }),
    {
        Sphere { center, radius, vis: VisualData::zero() }
    }

    pub fn compute_normal(&self, point: &Point) -> (r: Vec3)
        requires
            self.wf(),
        ensures
            r@ == sphere_normal_s(self.center@, self.radius@, point@),
    {
        point.sub(&self.center).scale(Fx::one().div(self.radius))
    }

    pub fn compute_hit(&self, ray: &Ray) -> (r: Option<Hit>)
        requires
            self.wf(),
        ensures
            hit_opt(r) == sphere_hit_s(*self, ray.origin@, ray.direction@),
    {
        proof {
            reveal(crate::surface::sphere_hit_s);
        }
        let orig_to_c = self.center.sub(&ray.origin);
        let a = ray.direction.norm_squared();
        let b = Fx::from_int(-2).mul(ray.direction.dot_product(&orig_to_c));
        let c = orig_to_c.norm_squared().sub(self.radius.mul(self.radius));
        let roots = match find_square_roots(a, b, c) {
            Option::None => {
                return Option::None;
            },
            Option::Some(r0) => r0,
        };
        let t = match select_smallest_positive_root(roots) {
            Option::None => {
                return Option::None;
            },
            Option::Some(t0) => t0,
        };
        let hit_point = ray.compute_point(t);
        let normal = self.compute_normal(&hit_point);
        Option::Some(Hit::new(t, normal))
    }

    pub fn get_visual_data(&self) -> (r: VisualData)
        ensures
            r == self.vis,
    {
        self.vis
    }
}

/// A sphere of radius `r` centered at the origin, hit by the axial ray
/// from `z = -5` toward the origin, is reached at parameter `5 - r`
/// exactly.  The lemma covers every radius whose fixed-point square is
/// exact (`r = 1024 k` raw units, i.e. any multiple of `2^-10` in whole
/// units) up to radius four; for other radii the parameter differs only by
/// the rounding of the square root.
#[verifier::rlimit(60)]
pub proof fn lemma_sphere_front_distance(sp: Sphere, k: int)
    requires
        0 < k <= 4096,
        sp.center@ == v3(0, 0, 0),
        sp.radius@ == 1024 * k,
    ensures
        sphere_hit_s(sp, v3(0, 0, -5 * SCALE as int), v3(0, 0, SCALE as int)) matches Option::Some(
            h,
        ) && h.t == 5 * SCALE - 1024 * k,
{
    reveal(crate::surface::sphere_hit_s);
    broadcast use vstd::arithmetic::div_mod::lemma_div_multiples_vanish;

    let s = SCALE as int;
    let r = 1024 * k;
    let o = v3(0, 0, -5 * s);
    let d = v3(0, 0, s);
    let otc = vsub(sp.center@, o);
    assert(otc.z == 5 * s);
    assert(otc.x == 0 && otc.y == 0);
    // The quadratic's coefficients.
    assert(s * 0 == 0) by (nonlinear_arith);
    assert(0 * 0 == 0) by (nonlinear_arith);
    assert(fmul(0, 0) == 0);
    assert(s * s == s * s && s * s >= 0) by (nonlinear_arith);
    assert((s * s) / s == s);
    assert(fmul(s, s) == s);
    let a = norm_sq(d);
    assert(a == s);
    assert(s * (5 * s) >= 0) by (nonlinear_arith);
    assert((s * (5 * s)) / s == 5 * s);
    assert(fmul(s, 5 * s) == 5 * s);
    assert(dot(d, otc) == 5 * s);
    assert((-2 * s) * (5 * s) == -(s * (10 * s)) && s * (10 * s) >= 0) by (nonlinear_arith);
    assert((s * (10 * s)) / s == 10 * s);
    let b = fmul(-2 * s, dot(d, otc));
    assert(b == -10 * s);
    assert((5 * s) * (5 * s) == s * (25 * s) && s * (25 * s) >= 0) by (nonlinear_arith);
    assert((s * (25 * s)) / s == 25 * s);
    assert(fmul(5 * s, 5 * s) == 25 * s);
    assert(norm_sq(otc) == 25 * s);
    assert(r * r == s * (k * k) && 0 <= k * k <= 16777216) by (nonlinear_arith)
        requires
            r == 1024 * k,
            0 < k <= 4096,
            s == 1048576,
    ;
    assert(s * (k * k) >= 0) by (nonlinear_arith)
        requires
            s == 1048576,
            k >= 1,
    ;
    assert((s * (k * k)) / s == k * k);
    assert(fmul(r, r) == k * k);
    let c = fsub(norm_sq(otc), fmul(sp.radius@, sp.radius@));
    assert(c == 25 * s - k * k);
    // The discriminant is four times the squared radius.
    assert((-10 * s) * (-10 * s) == s * (100 * s)) by (nonlinear_arith);
    assert(s * (100 * s) >= 0) by (nonlinear_arith);
    assert((s * (100 * s)) / s == 100 * s);
    assert(fmul(b, b) == 100 * s);
    assert((4 * s) * s == s * (4 * s) && s * (4 * s) >= 0) by (nonlinear_arith);
    assert((s * (4 * s)) / s == 4 * s);
    assert(fmul(4 * s, a) == 4 * s);
    assert((4 * s) * (25 * s - k * k) == s * (100 * s - 4 * (k * k)) && s * (100 * s - 4 * (k
        * k)) >= 0) by (nonlinear_arith)
        requires
            0 <= k * k <= 16777216,
            s == 1048576,
    ;
    assert((s * (100 * s - 4 * (k * k))) / s == 100 * s - 4 * (k * k));
    assert(fmul(fmul(4 * s, a), c) == 100 * s - 4 * (k * k));
    let discr = fsub(fmul(b, b), fmul(fmul(4 * s, a), c));
    assert(discr == 4 * (k * k));
    assert(1 <= k * k) by (nonlinear_arith)
        requires
            k >= 1,
    ;
    assert(discr > 0);
    assert((2 * s) * s == s * (2 * s) && s * (2 * s) >= 0) by (nonlinear_arith);
    assert((s * (2 * s)) / s == 2 * s);
    let denom = fmul(2 * s, a);
    assert(denom == 2 * s);
    // The square root of the discriminant is exact.
    let nn = discr * s;
    assert(nn == (2048 * k) * (2048 * k) && (2048 * k) + 1 <= (2048 * k + 1) * (2048 * k + 1))
        by (nonlinear_arith)
        requires
            nn == discr * s,
            discr == 4 * (k * k),
            s == 1048576,
            k >= 1,
    ;
    assert(is_isqrt(nn, 2048 * k)) by (nonlinear_arith)
        requires
            nn == (2048 * k) * (2048 * k),
            k >= 1,
    ;
    assert(is_isqrt(nn, isqrt_s(nn))) by {
        assert(is_isqrt(nn, 2048 * k));
    }
    lemma_isqrt_unique(nn, 2048 * k, isqrt_s(nn));
    let sq = fsqrt(discr);
    assert(sq == 2048 * k);
    // Both roots, exactly.
    let num0 = fsub(-b, sq);
    assert(num0 == 10 * s - 2048 * k);
    assert(num0 * s == (2 * s) * ((5 * s - 1024 * k) * 1) && num0 * s >= 0) by (nonlinear_arith)
        requires
            num0 == 10 * s - 2048 * k,
            0 < k <= 4096,
            s == 1048576,
    ;
    assert(((2 * s) * (5 * s - 1024 * k)) / (2 * s) == 5 * s - 1024 * k);
    assert((2 * s) * ((5 * s - 1024 * k) * 1) == (2 * s) * (5 * s - 1024 * k)) by (nonlinear_arith);
    assert(fdiv(num0, denom) == 5 * s - 1024 * k);
    let num1 = fadd(-b, sq);
    assert(num1 == 10 * s + 2048 * k);
    assert(num1 * s == (2 * s) * (5 * s + 1024 * k) && num1 * s >= 0) by (nonlinear_arith)
        requires
            num1 == 10 * s + 2048 * k,
            0 < k <= 4096,
            s == 1048576,
    ;
    assert(((2 * s) * (5 * s + 1024 * k)) / (2 * s) == 5 * s + 1024 * k);
    assert(fdiv(num1, denom) == 5 * s + 1024 * k);
    // The smaller root clears the cutoff and is selected.
    assert(roots_s(a, b, c) == Option::Some(
        (5 * s - 1024 * k, Option::Some(5 * s + 1024 * k)),
    ));
    assert(5 * s - 1024 * k >= s);
}

// ---------------------------------------------------------------------------
// Plane.
// ---------------------------------------------------------------------------

#[derive(Clone, Copy, Debug)]
pub struct Plane {
    pub bias: Point,
    pub normal: Vec3,
    pub vis: VisualData,
}

pub open spec fn plane_surface_hit_s(p: Plane, o: V3, d: V3) -> Option<HitS> {
    plane_hit_s(p.bias@, p.normal@, o, d)
}

impl Plane {
    /// A horizontal plane at height `y`.
    pub fn from_y(y: Fx, color: Color) -> (r: Plane)
        ensures
            r.bias@ == v3(0, y@, 0),
            r.normal@ == v3(0, SCALE as int, 0),
            r.vis@.color == color@,
            r.vis@.specular_strength == 0,
            r.vis@.reflection_strength == 0,
            r.vis@.reflection_glossiness == 0,
    {
        Plane {
            bias: Point::new(Fx::zero(), y, Fx::zero()),
            normal: Vec3::new(Fx::zero(), Fx::one(), Fx::zero()),
            vis: VisualData::from_color(&color),
        }
    }

    pub fn compute_hit(&self, ray: &Ray) -> (r: Option<Hit>)
        ensures
            hit_opt(r) == plane_surface_hit_s(*self, ray.origin@, ray.direction@),
    {
        compute_plane_hit(&self.bias, &self.normal, ray)
    }

    pub fn get_visual_data(&self) -> (r: VisualData)
        ensures
            r == self.vis,
    {
        self.vis
    }
}

// ---------------------------------------------------------------------------
// Ellipsoid.
// ---------------------------------------------------------------------------

#[derive(Clone, Copy, Debug)]
pub struct Ellipsoid {
    pub center: Point,
    pub vis: VisualData,
    pub scale: crate::basics::DiagMat3,
}

/// Gradient of the implicit quadric, renormalized.
pub open spec fn ellipsoid_normal_s(e: Ellipsoid, p: V3) -> V3 {
    vnormalize_t(
        V3 {
            x: fdiv(fmul(2 * SCALE, fsub(p.x, e.center@.x)), fmul(e.scale.a@, e.scale.a@)),
            y: fdiv(fmul(2 * SCALE, fsub(p.y, e.center@.y)), fmul(e.scale.b@, e.scale.b@)),
            z: fdiv(fmul(2 * SCALE, fsub(p.z, e.center@.z)), fmul(e.scale.c@, e.scale.c@)),
        },
    )
}

/// Ray/ellipsoid intersection: the ray is taken into the unit sphere's
/// space through the inverse scale.
#[verifier::opaque]
pub open spec fn ellipsoid_hit_s(e: Ellipsoid, o: V3, d: V3) -> Option<HitS> {
    let ia = fdiv(SCALE as int, e.scale.a@);
    let ib = fdiv(SCALE as int, e.scale.b@);
    let ic = fdiv(SCALE as int, e.scale.c@);
    let otc = vsub(e.center@, o);
    let otc_scaled = V3 { x: fmul(otc.x, ia), y: fmul(otc.y, ib), z: fmul(otc.z, ic) };
    let d_scaled = V3 { x: fmul(d.x, ia), y: fmul(d.y, ib), z: fmul(d.z, ic) };
    let a = norm_sq(d_scaled);
    let b = fmul(-2 * SCALE, dot(d_scaled, otc_scaled));
    let c = fsub(norm_sq(otc_scaled), SCALE as int);
    match roots_s(a, b, c) {
        Option::None => Option::None,
        Option::Some(roots) => match select_root_s(roots) {
            Option::None => Option::None,
            Option::Some(t) => Option::Some(
                HitS { t, normal: ellipsoid_normal_s(e, ray_point(o, d, t)) },
            ),
        },
    }
}

impl Ellipsoid {
    /// The three semi-axes must be large enough that their fixed-point
    /// squares do not truncate to zero.
    pub open spec fn wf(self) -> bool {
        &&& fmul(self.scale.a@, self.scale.a@) != 0
        &&& fmul(self.scale.b@, self.scale.b@) != 0
        &&& fmul(self.scale.c@, self.scale.c@) != 0
        &&& self.scale.a@ != 0
        &&& self.scale.b@ != 0
        &&& self.scale.c@ != 0
    }

    fn compute_normal(&self, point: &Point) -> (r: Vec3)
        requires
            self.wf(),
        ensures
            r@ == ellipsoid_normal_s(*self, point@),
    {
        let two = Fx::from_int(2);
        Vec3::new(
            two.mul(point.x.sub(self.center.x)).div(self.scale.a.mul(self.scale.a)),
            two.mul(point.y.sub(self.center.y)).div(self.scale.b.mul(self.scale.b)),
            two.mul(point.z.sub(self.center.z)).div(self.scale.c.mul(self.scale.c)),
        ).normalize_safe()
    }

    pub fn compute_hit(&self, ray: &Ray) -> (r: Option<Hit>)
        requires
            self.wf(),
        ensures
            hit_opt(r) == ellipsoid_hit_s(*self, ray.origin@, ray.direction@),
    {
        proof {
            reveal(crate::surface::ellipsoid_hit_s);
        }
        let scale_inv = self.scale.compute_inverse();
        let orig_to_c_scaled = scale_inv.mul_vec(&self.center.sub(&ray.origin));
        let ray_dir_scaled = scale_inv.mul_vec(&ray.direction);
        let a = ray_dir_scaled.norm_squared();
        let b = Fx::from_int(-2).mul(ray_dir_scaled.dot_product(&orig_to_c_scaled));
        let c = orig_to_c_scaled.norm_squared().sub(Fx::one());
        let roots = match find_square_roots(a, b, c) {
            Option::None => {
                return Option::None;
            },
            Option::Some(r0) => r0,
        };
        let t = match select_smallest_positive_root(roots) {
            Option::None => {
                return Option::None;
            },
            Option::Some(t0) => t0,
        };
        let hit_point = ray.compute_point(t);
        let normal = self.compute_normal(&hit_point);
        Option::Some(Hit::new(t, normal))
    }

    pub fn get_visual_data(&self) -> (r: VisualData)
        ensures
            r == self.vis,
    {
        self.vis
    }
}

// ---------------------------------------------------------------------------
// Cone.
// ---------------------------------------------------------------------------

#[derive(Clone, Copy, Debug)]
pub struct Cone {
    pub apex: Point,
    pub height: Fx,
    pub half_angle: Fx,
    pub vis: VisualData,
}

/// Squared tangent of the half angle: the slope of the lateral surface.
pub open spec fn cone_slope_s(half_angle: int) -> int {
    let t = fdiv(sin_s(half_angle), cos_s(half_angle));
    fmul(t, t)
}

/// Tolerance for deciding that a point lies on the base cap.
pub open spec fn cone_on_cap_s(c: Cone, p: V3) -> bool {
    crate::fixed::abs_i(fsub(p.y, fsub(c.apex@.y, c.height@))) < 2
}

/// Normal: straight down on the cap, else the renormalized gradient of the
/// lateral quadric.
pub open spec fn cone_normal_s(c: Cone, p: V3) -> V3 {
    if cone_on_cap_s(c, p) {
        v3(0, -(SCALE as int), 0)
    } else {
        let s = cone_slope_s(c.half_angle@);
        vnormalize_t(
            V3 {
                x: fmul(2 * SCALE, fsub(p.x, c.apex@.x)),
                y: fmul(-2 * SCALE, fmul(s, fsub(p.y, c.apex@.y))),
                z: fmul(2 * SCALE, fsub(p.z, c.apex@.z)),
            },
        )
    }
}

/// Intersection with the lateral surface, with the height-range test.
#[verifier::opaque]
pub open spec fn cone_side_hit_s(c: Cone, o: V3, d: V3) -> Option<HitS> {
    let s = cone_slope_s(c.half_angle@);
    let a = fsub(fadd(fmul(d.x, d.x), fmul(d.z, d.z)), fmul(fmul(d.y, d.y), s));
    let b = fmul(
        2 * SCALE,
        fsub(
            fadd(fmul(d.x, fsub(o.x, c.apex@.x)), fmul(d.z, fsub(o.z, c.apex@.z))),
            fmul(fmul(s, d.y), fsub(o.y, c.apex@.y)),
        ),
    );
    let cc = fsub(
        fadd(
            fmul(fsub(o.x, c.apex@.x), fsub(o.x, c.apex@.x)),
            fmul(fsub(o.z, c.apex@.z), fsub(o.z, c.apex@.z)),
        ),
        fmul(s, fmul(fsub(o.y, c.apex@.y), fsub(o.y, c.apex@.y))),
    );
    match roots_s(a, b, cc) {
        Option::None => Option::None,
        Option::Some(roots) => match select_root_s(roots) {
            Option::None => Option::None,
            Option::Some(t) => {
                let py = fadd(o.y, fmul(t, d.y));
                if py <= c.apex@.y && py >= fsub(c.apex@.y, c.height@) {
                    Option::Some(HitS { t, normal: cone_normal_s(c, ray_point(o, d, t)) })
                } else {
                    Option::None
                }
            },
        },
    }
}

/// Intersection with the flat base cap: a plane hit restricted to a disk.
#[verifier::opaque]
pub open spec fn cone_cap_hit_s(c: Cone, o: V3, d: V3) -> Option<HitS> {
    let center = V3 { x: c.apex@.x, y: fsub(c.apex@.y, c.height@), z: c.apex@.z };
    let slab_normal = v3(0, -(SCALE as int), 0);
    let t = fdiv(sin_s(c.half_angle@), cos_s(c.half_angle@));
    let radius = fmul(c.height@, t);
    match plane_hit_s(center, slab_normal, o, d) {
        Option::None => Option::None,
        Option::Some(h) => {
            if norm_sq(vsub(ray_point(o, d, h.t), center)) < fmul(radius, radius) {
                Option::Some(h)
            } else {
                Option::None
            }
        },
    }
}

/// The closer of the lateral and cap intersections.
#[verifier::opaque]
pub open spec fn cone_hit_s(c: Cone, o: V3, d: V3) -> Option<HitS> {
    let side = cone_side_hit_s(c, o, d);
    let cap = cone_cap_hit_s(c, o, d);
    match cap {
        Option::Some(ch) => match side {
            Option::Some(sh) => Option::Some(
                if ch.t < sh.t {
                    ch
                } else {
                    sh
                },
            ),
            Option::None => cap,
        },
        Option::None => side,
    }
}

impl Cone {
    pub open spec fn wf(self) -> bool {
        cos_s(self.half_angle@) != 0
    }

    /// The slope factor of the lateral surface.
    fn slope(&self) -> (r: Fx)
        requires
            self.wf(),
        ensures
            r@ == cone_slope_s(self.half_angle@),
    {
        let t = self.half_angle.sin().div(self.half_angle.cos());
        t.mul(t)
    }

    fn compute_cone_hit(&self, ray: &Ray) -> (r: Option<Hit>)
        requires
            self.wf(),
        ensures
            hit_opt(r) == cone_side_hit_s(*self, ray.origin@, ray.direction@),
    {
        proof {
            reveal(crate::surface::cone_side_hit_s);
        }
        let s = self.slope();
        let d = &ray.direction;
        let o = &ray.origin;
        let a = d.x.mul(d.x).add(d.z.mul(d.z)).sub(d.y.mul(d.y).mul(s));
        let b = Fx::from_int(2).mul(
            d.x.mul(o.x.sub(self.apex.x)).add(d.z.mul(o.z.sub(self.apex.z))).sub(
                s.mul(d.y).mul(o.y.sub(self.apex.y)),
            ),
        );
        let c = o.x.sub(self.apex.x).mul(o.x.sub(self.apex.x)).add(
            o.z.sub(self.apex.z).mul(o.z.sub(self.apex.z)),
        ).sub(s.mul(o.y.sub(self.apex.y).mul(o.y.sub(self.apex.y))));
        let roots = match find_square_roots(a, b, c) {
            Option::None => {
                return Option::None;
            },
            Option::Some(r0) => r0,
        };
        let t = match select_smallest_positive_root(roots) {
            Option::None => {
                return Option::None;
            },
            Option::Some(t0) => t0,
        };
        let py = o.y.add(t.mul(d.y));
        if py.le(self.apex.y) && !py.lt(self.apex.y.sub(self.height)) {
            let hit_point = ray.compute_point(t);
            let normal = self.compute_normal(&hit_point);
            Option::Some(Hit::new(t, normal))
        } else {
            Option::None
        }
    }

    fn compute_slab_hit(&self, ray: &Ray) -> (r: Option<Hit>)
        requires
            self.wf(),
        ensures
            hit_opt(r) == cone_cap_hit_s(*self, ray.origin@, ray.direction@),
    {
        proof {
            reveal(crate::surface::cone_cap_hit_s);
        }
        let center = Point::new(self.apex.x, self.apex.y.sub(self.height), self.apex.z);
        let slab_normal = Vec3::new(Fx::zero(), Fx::one().neg(), Fx::zero());
        let radius = self.height.mul(self.half_angle.sin().div(self.half_angle.cos()));
        let plane_hit = match compute_plane_hit(&center, &slab_normal, ray) {
            Option::None => {
                return Option::None;
            },
            Option::Some(h) => h,
        };
        let hit_point = ray.compute_point(plane_hit.t);
        if hit_point.sub(&center).norm_squared().lt(radius.mul(radius)) {
            Option::Some(plane_hit)
        } else {
            Option::None
        }
    }

    fn lies_on_slab(&self, point: &Point) -> (r: bool)
        ensures
            r == cone_on_cap_s(*self, point@),
    {
        point.y.sub(self.apex.y.sub(self.height)).abs().lt(Fx::from_raw(2))
    }

    fn compute_normal(&self, point: &Point) -> (r: Vec3)
        requires
            self.wf(),
        ensures
            r@ == cone_normal_s(*self, point@),
    {
        if self.lies_on_slab(point) {
            Vec3::new(Fx::zero(), Fx::one().neg(), Fx::zero())
        } else {
            let s = self.slope();
            Vec3::new(
                Fx::from_int(2).mul(point.x.sub(self.apex.x)),
                Fx::from_int(-2).mul(s.mul(point.y.sub(self.apex.y))),
                Fx::from_int(2).mul(point.z.sub(self.apex.z)),
            ).normalize_safe()
        }
    }

    pub fn compute_hit(&self, ray: &Ray) -> (r: Option<Hit>)
        requires
            self.wf(),
        ensures
            hit_opt(r) == cone_hit_s(*self, ray.origin@, ray.direction@),
    {
        proof {
            reveal(crate::surface::cone_hit_s);
        }
        let cone_hit = self.compute_cone_hit(ray);
        let slab_hit = self.compute_slab_hit(ray);
        match slab_hit {
            Option::Some(sh) => match cone_hit {
                Option::Some(ch) => Option::Some(
                    if sh.t.lt(ch.t) {
                        sh
                    } else {
                        ch
                    },
                ),
                Option::None => slab_hit,
            },
            Option::None => cone_hit,
        }
    }

    pub fn get_visual_data(&self) -> (r: VisualData)
        ensures
            r == self.vis,
    {
        self.vis
    }
}

// ---------------------------------------------------------------------------
// The closed set of surface kinds.
// ---------------------------------------------------------------------------

/// A primitive surface, before any affine placement.
#[derive(Debug)]
pub enum BaseSurface {
    Sphere(Sphere),
    Plane(Plane),
    Ellipsoid(Ellipsoid),
    Cone(Cone),
    Mesh(TriangleMesh),
}

pub open spec fn base_wf(s: BaseSurface) -> bool {
    match s {
        BaseSurface::Sphere(x) => x.wf(),
        BaseSurface::Plane(_) => true,
        BaseSurface::Ellipsoid(x) => x.wf(),
        BaseSurface::Cone(x) => x.wf(),
        BaseSurface::Mesh(m) => mesh_wf(m),
    }
}

#[verifier::opaque]
pub open spec fn base_hit_s(s: BaseSurface, o: V3, d: V3) -> Option<HitS> {
    match s {
        BaseSurface::Sphere(x) => sphere_hit_s(x, o, d),
        BaseSurface::Plane(x) => plane_surface_hit_s(x, o, d),
        BaseSurface::Ellipsoid(x) => ellipsoid_hit_s(x, o, d),
        BaseSurface::Cone(x) => cone_hit_s(x, o, d),
        BaseSurface::Mesh(m) => mesh_hit_s(m, o, d),
    }
}

pub open spec fn base_vis_s(s: BaseSurface) -> VisualData {
    match s {
        BaseSurface::Sphere(x) => x.vis,
        BaseSurface::Plane(x) => x.vis,
        BaseSurface::Ellipsoid(x) => x.vis,
        BaseSurface::Cone(x) => x.vis,
        BaseSurface::Mesh(m) => m.vis,
    }
}

impl BaseSurface {
    pub fn compute_hit(&self, ray: &Ray) -> (r: Option<Hit>)
        requires
            base_wf(*self),
        ensures
            hit_opt(r) == base_hit_s(*self, ray.origin@, ray.direction@),
    {
        proof {
            reveal(crate::surface::base_hit_s);
        }
        match self {
            BaseSurface::Sphere(x) => x.compute_hit(ray),
            BaseSurface::Plane(x) => x.compute_hit(ray),
            BaseSurface::Ellipsoid(x) => x.compute_hit(ray),
            BaseSurface::Cone(x) => x.compute_hit(ray),
            BaseSurface::Mesh(m) => m.compute_hit(ray),
        }
    }

    pub fn get_visual_data(&self) -> (r: VisualData)
        ensures
            r == base_vis_s(*self),
    {
        match self {
            BaseSurface::Sphere(x) => x.get_visual_data(),
            BaseSurface::Plane(x) => x.get_visual_data(),
            BaseSurface::Ellipsoid(x) => x.get_visual_data(),
            BaseSurface::Cone(x) => x.get_visual_data(),
            BaseSurface::Mesh(m) => m.get_visual_data(),
        }
    }
}

// ---------------------------------------------------------------------------
// The affine placement decorator.
// ---------------------------------------------------------------------------

/// A primitive wrapped with an affine placement; the inverse and the
/// transposed inverse linear part are precomputed at construction.
#[derive(Debug)]
pub struct TransformedSurface {
    pub transformation: Transformation,
    pub transformation_inv: Transformation,
    pub transform_inv_t: Mat3,
    pub surface: BaseSurface,
}

/// World-space intersection: take the ray to local space, intersect there,
/// bring the hit point back, and recover the parameter along the original
/// ray; the normal goes through the transposed inverse.
#[verifier::opaque]
pub open spec fn transformed_hit_s(ts: TransformedSurface, o: V3, d: V3) -> Option<HitS> {
    let lo = tf_point(ts.transformation_inv@, o);
    let ld = vnormalize_t(mat_vec(ts.transformation_inv@.mat, d));
    match base_hit_s(ts.surface, lo, ld) {
        Option::None => Option::None,
        Option::Some(h) => {
            let hit_point = tf_point(ts.transformation@, ray_point(lo, ld, h.t));
            Option::Some(
                HitS {
                    t: ray_param(o, d, hit_point),
                    normal: vnormalize_t(mat_vec(ts.transform_inv_t@, h.normal)),
                },
            )
        },
    }
}

impl TransformedSurface {
    pub open spec fn wf(self) -> bool {
        base_wf(self.surface)
    }

    /// Wraps a surface; the placement must be invertible.
    pub fn new(transformation: Transformation, surface: BaseSurface) -> (r: TransformedSurface)
        requires
            det_s(transformation@.mat) != 0,
        ensures
            r.transformation == transformation,
            r.transformation_inv@ == tf_inverse_s(transformation@),
            r.transform_inv_t@ == transpose_s(tf_inverse_s(transformation@).mat),
            r.surface == surface,
    {
        let transformation_inv = transformation.compute_inverse();
        TransformedSurface {
            transformation,
            transform_inv_t: transformation_inv.transform_mat.transpose(),
            transformation_inv,
            surface,
        }
    }

    fn transform_normal(&self, normal: &Vec3) -> (r: Vec3)
        ensures
            r@ == vnormalize_t(mat_vec(self.transform_inv_t@, normal@)),
    {
        self.transform_inv_t.mul_vec(normal).normalize_safe()
    }

    pub fn compute_hit(&self, ray: &Ray) -> (r: Option<Hit>)
        requires
            self.wf(),
        ensures
            hit_opt(r) == transformed_hit_s(*self, ray.origin@, ray.direction@),
    {
        proof {
            reveal(crate::surface::transformed_hit_s);
        }
        let ray_object = Ray {
            origin: self.transformation_inv.transform_point(&ray.origin),
            direction: self.transformation_inv.transform_vec(&ray.direction).normalize_safe(),
        };
        match self.surface.compute_hit(&ray_object) {
            Option::Some(hit) => {
                let hit_point = self.transformation.transform_point(
                    &ray_object.compute_point(hit.t),
                );
                let t_world = ray.compute_t(&hit_point);
                Option::Some(Hit::new(t_world, self.transform_normal(&hit.normal)))
            },
            Option::None => Option::None,
        }
    }

    pub fn get_visual_data(&self) -> (r: VisualData)
        ensures
            r == base_vis_s(self.surface),
    {
        self.surface.get_visual_data()
    }
}

/// Any surface a scene can hold.
#[derive(Debug)]
pub enum Surface {
    Base(BaseSurface),
    Transformed(TransformedSurface),
}

pub open spec fn surface_wf(s: Surface) -> bool {
    match s {
        Surface::Base(b) => base_wf(b),
        Surface::Transformed(t) => t.wf(),
    }
}

#[verifier::opaque]
pub open spec fn surface_hit_s(s: Surface, o: V3, d: V3) -> Option<HitS> {
    match s {
        Surface::Base(b) => base_hit_s(b, o, d),
        Surface::Transformed(t) => transformed_hit_s(t, o, d),
    }
}

pub open spec fn surface_vis_s(s: Surface) -> VisualData {
    match s {
        Surface::Base(b) => base_vis_s(b),
        Surface::Transformed(t) => base_vis_s(t.surface),
    }
}

impl Surface {
    pub fn compute_hit(&self, ray: &Ray) -> (r: Option<Hit>)
        requires
            surface_wf(*self),
        ensures
            hit_opt(r) == surface_hit_s(*self, ray.origin@, ray.direction@),
    {
        proof {
            reveal(crate::surface::surface_hit_s);
        }
        match self {
            Surface::Base(b) => b.compute_hit(ray),
            Surface::Transformed(t) => t.compute_hit(ray),
        }
    }

    pub fn get_visual_data(&self) -> (r: VisualData)
        ensures
            r == surface_vis_s(*self),
    {
        match self {
            Surface::Base(b) => b.get_visual_data(),
            Surface::Transformed(t) => t.get_visual_data(),
        }
    }
}

} // verus!

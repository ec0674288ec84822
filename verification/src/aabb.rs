//! Axis-aligned bounding boxes, used by the bounding-volume hierarchy for
//! cheap rejection.

use vstd::prelude::*;

use crate::basics::{V3, v3, Vec3, Point, Ray};
use crate::fixed::{Fx, fadd, fsub, fdiv, SCALE, MIN_RAY_T};
use crate::surface::{Hit, HitS, hit_opt, VisualData};

verus! {

/// The denominator used for one axis of the slab test: the direction
/// component nudged by one raw unit so that axis-parallel rays still give a
/// usable (huge) slab interval, with a final guard against landing on zero.
pub open spec fn slab_denom(d: int) -> int {
    if fadd(d, 1) == 0 {
        1
    } else {
        fadd(d, 1)
    }
}

pub open spec fn min_i(a: int, b: int) -> int {
    if a <= b {
        a
    } else {
        b
    }
}

pub open spec fn max_i(a: int, b: int) -> int {
    if a >= b {
        a
    } else {
        b
    }
}

#[derive(Clone, Copy, Debug)]
pub struct AxisAlignedBox {
    pub min_corner: Point,
    pub max_corner: Point,
}

/// Slab intersection: per axis, the entry and exit parameters; the ray hits
/// the box when the three intervals overlap at or beyond the cutoff.
#[verifier::opaque]
pub open spec fn aabb_hit_s(b: AxisAlignedBox, o: V3, d: V3) -> Option<HitS> {
    let dx = slab_denom(d.x);
    let tx0 = fdiv(fsub(b.min_corner@.x, o.x), dx);
    let tx1 = fdiv(fsub(b.max_corner@.x, o.x), dx);
    let t_min_x = min_i(tx0, tx1);
    let t_max_x = max_i(tx0, tx1);
    let dy = slab_denom(d.y);
    let ty0 = fdiv(fsub(b.min_corner@.y, o.y), dy);
    let ty1 = fdiv(fsub(b.max_corner@.y, o.y), dy);
    let t_min_y = min_i(ty0, ty1);
    let t_max_y = max_i(ty0, ty1);
    if t_min_x > t_max_y || t_min_y > t_max_x {
        Option::None
    } else {
        let t_min_xy = max_i(t_min_x, t_min_y);
        let t_max_xy = min_i(t_max_x, t_max_y);
        let dz = slab_denom(d.z);
        let tz0 = fdiv(fsub(b.min_corner@.z, o.z), dz);
        let tz1 = fdiv(fsub(b.max_corner@.z, o.z), dz);
        let t_min_z = min_i(tz0, tz1);
        let t_max_z = max_i(tz0, tz1);
        if t_min_xy > t_max_z || t_min_z > t_max_xy {
            Option::None
        } else {
            let t_lo = max_i(t_min_xy, t_min_z);
            let t_hi = min_i(t_max_xy, t_max_z);
            if t_lo < MIN_RAY_T as int {
                if t_hi < MIN_RAY_T as int {
                    Option::None
                } else {
                    Option::Some(HitS { t: t_hi, normal: v3(0, SCALE as int, 0) })
                }
            } else {
                Option::Some(HitS { t: t_lo, normal: v3(0, SCALE as int, 0) })
            }
        }
    }
}

impl AxisAlignedBox {
    /// One axis of the slab test.
    fn axis_interval(min_c: Fx, max_c: Fx, origin: Fx, dir: Fx) -> (r: (Fx, Fx))
        ensures
            r.0@ == min_i(
                fdiv(fsub(min_c@, origin@), slab_denom(dir@)),
                fdiv(fsub(max_c@, origin@), slab_denom(dir@)),
            ),
            r.1@ == max_i(
                fdiv(fsub(min_c@, origin@), slab_denom(dir@)),
                fdiv(fsub(max_c@, origin@), slab_denom(dir@)),
            ),
    {
        let nudged = dir.add(Fx::from_raw(1));
        let den = if nudged.is_zero() {
            Fx::from_raw(1)
        } else {
            nudged
        };
        let t0 = min_c.sub(origin).div(den);
        let t1 = max_c.sub(origin).div(den);
        if t0.le(t1) {
            (t0, t1)
        } else {
            (t1, t0)
        }
    }

    pub fn compute_hit(&self, ray: &Ray) -> (r: Option<Hit>)
        ensures
            hit_opt(r) == aabb_hit_s(*self, ray.origin@, ray.direction@),
    {
        proof {
            reveal(crate::aabb::aabb_hit_s);
        }
        let (tx_min, tx_max) = AxisAlignedBox::axis_interval(
            self.min_corner.x,
            self.max_corner.x,
            ray.origin.x,
            ray.direction.x,
        );
        let (ty_min, ty_max) = AxisAlignedBox::axis_interval(
            self.min_corner.y,
            self.max_corner.y,
            ray.origin.y,
            ray.direction.y,
        );
        if !(tx_min.le(ty_max)) || !(ty_min.le(tx_max)) {
            return Option::None;
        }
        let t_min_xy = tx_min.max(ty_min);
        let t_max_xy = tx_max.min(ty_max);
        let (tz_min, tz_max) = AxisAlignedBox::axis_interval(
            self.min_corner.z,
            self.max_corner.z,
            ray.origin.z,
            ray.direction.z,
        );
        if !(t_min_xy.le(tz_max)) || !(tz_min.le(t_max_xy)) {
            return Option::None;
        }
        let t_lo = t_min_xy.max(tz_min);
        let t_hi = t_max_xy.min(tz_max);
        let min_t = Fx::from_raw(MIN_RAY_T);
        if t_lo.lt(min_t) {
            if t_hi.lt(min_t) {
                Option::None
            } else {
                Option::Some(Hit::new(t_hi, Vec3::new(Fx::zero(), Fx::one(), Fx::zero())))
            }
        } else {
            Option::Some(Hit::new(t_lo, Vec3::new(Fx::zero(), Fx::one(), Fx::zero())))
        }
    }

    pub fn get_visual_data(&self) -> (r: VisualData)
        ensures
            r@.specular_strength == 0,
            r@.reflection_strength == 0,
            r@.reflection_glossiness == 0,
    {
        VisualData::grey()
    }
}

} // verus!

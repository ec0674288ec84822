//! Triangle meshes and the bounding-volume hierarchy.
//!
//! Triangles hold indices into the mesh's shared vertex arrays (an arena
//! layout); the BVH is a binary tree of exclusively-owned nodes built once
//! by median split along the x axis.  Traversal is mirrored exactly by spec
//! functions, so pruning (a ray that misses a node's box yields no hit) is
//! part of the contract.

use vstd::prelude::*;

use crate::basics::{
    V3, v3, Vec3, Point, Ray, vadd, vsub, vscale, dot, cross, vnorm, vnormalize_t,
    ray_point,
};
use crate::fixed::{Fx, fadd, fdiv, tdiv, abs_i, clip, SCALE, BOUND, MIN_RAY_T};
use crate::surface::{Hit, HitS, hit_opt, VisualData};

verus! {

/// A triangle: three indices into the mesh's vertex arrays, plus its
/// material.
#[derive(Clone, Copy, Debug)]
pub struct Triangle {
    pub indices: (usize, usize, usize),
    pub vis: VisualData,
}

/// The triangle's indices address the shared arrays.
pub open spec fn tri_wf(t: Triangle, plen: int) -> bool {
    &&& t.indices.0 < plen
    &&& t.indices.1 < plen
    &&& t.indices.2 < plen
}

pub open spec fn all_tris_wf(ts: Seq<Triangle>, plen: int) -> bool {
    forall|i: int| 0 <= i < ts.len() ==> tri_wf(#[trigger] ts[i], plen)
}

/// Cross product of the two edge vectors: the face normal scaled by twice
/// the face's area.
pub open spec fn tri_cross_s(t: Triangle, pos: Seq<Point>) -> V3 {
    let v0 = pos[t.indices.0 as int]@;
    let v1 = pos[t.indices.1 as int]@;
    let v2 = pos[t.indices.2 as int]@;
    cross(vsub(v1, v0), vsub(v2, v0))
}

/// Face normal from the two edge vectors, renormalized.
pub open spec fn tri_face_normal_s(t: Triangle, pos: Seq<Point>) -> V3 {
    vnormalize_t(tri_cross_s(t, pos))
}

/// Centroid: the average of the three vertices.
pub open spec fn tri_center_s(t: Triangle, pos: Seq<Point>) -> V3 {
    let v0 = pos[t.indices.0 as int]@;
    let v1 = pos[t.indices.1 as int]@;
    let v2 = pos[t.indices.2 as int]@;
    vscale(vadd(vadd(v0, v1), v2), fdiv(SCALE as int, 3 * SCALE))
}

pub open spec fn min3(a: int, b: int, c: int) -> int {
    let ab = if a <= b {
        a
    } else {
        b
    };
    if ab <= c {
        ab
    } else {
        c
    }
}

pub open spec fn max3(a: int, b: int, c: int) -> int {
    let ab = if a >= b {
        a
    } else {
        b
    };
    if ab >= c {
        ab
    } else {
        c
    }
}

pub open spec fn axis_of(p: V3, idx: int) -> int {
    if idx == 0 {
        p.x
    } else if idx == 1 {
        p.y
    } else {
        p.z
    }
}

/// Is `p` on the right of the directed edge `from -> to`, judged against
/// the face normal?
pub open spec fn on_right_s(p: V3, from: V3, to: V3, normal: V3) -> bool {
    dot(normal, cross(vsub(to, from), vsub(p, from))) < 0
}

/// Ray/triangle intersection: plane solve, edge sign tests, and barycentric
/// normal interpolation (explicit normals when the mesh has them, else the
/// precomputed pseudo-normals).
#[verifier::opaque]
pub open spec fn triangle_hit_s(
    t: Triangle,
    pos: Seq<Point>,
    nor: Seq<Vec3>,
    cal: Seq<Vec3>,
    o: V3,
    d: V3,
) -> Option<HitS> {
    let v0 = pos[t.indices.0 as int]@;
    let v1 = pos[t.indices.1 as int]@;
    let v2 = pos[t.indices.2 as int]@;
    let face = tri_face_normal_s(t, pos);
    let t_denom = dot(face, d);
    if abs_i(t_denom) < 2 {
        Option::None
    } else {
        let plane_bias = -dot(face, v0);
        let tt = fdiv(-fadd(dot(face, o), plane_bias), t_denom);
        if tt < MIN_RAY_T as int {
            Option::None
        } else {
            let h = ray_point(o, d, tt);
            if on_right_s(h, v0, v1, face) || on_right_s(h, v1, v2, face) || on_right_s(
                h,
                v2,
                v0,
                face,
            ) {
                Option::None
            } else {
                let area_v0 = fdiv(vnorm(cross(vsub(v1, v0), vsub(h, v0))), 2 * SCALE);
                let area_v1 = fdiv(vnorm(cross(vsub(v2, v1), vsub(h, v1))), 2 * SCALE);
                let area_v2 = fdiv(vnorm(cross(vsub(v0, v2), vsub(h, v2))), 2 * SCALE);
                let area = fadd(fadd(area_v0, area_v1), area_v2);
                if area == 0 {
                    Option::None
                } else {
                    let w0 = fdiv(area_v0, area);
                    let w1 = fdiv(area_v1, area);
                    let w2 = fdiv(area_v2, area);
                    let n0 = if nor.len() > 0 {
                        nor[t.indices.0 as int]@
                    } else {
                        cal[t.indices.0 as int]@
                    };
                    let n1 = if nor.len() > 0 {
                        nor[t.indices.1 as int]@
                    } else {
                        cal[t.indices.1 as int]@
                    };
                    let n2 = if nor.len() > 0 {
                        nor[t.indices.2 as int]@
                    } else {
                        cal[t.indices.2 as int]@
                    };
                    let normal = vnormalize_t(
                        vadd(vadd(vscale(n0, w1), vscale(n1, w2)), vscale(n2, w0)),
                    );
                    Option::Some(HitS { t: tt, normal })
                }
            }
        }
    }
}

/// The arrays a triangle's methods read: positions always; explicit normals
/// when present cover every vertex, else the pseudo-normals do.
pub open spec fn arrays_wf(pos: Seq<Point>, nor: Seq<Vec3>, cal: Seq<Vec3>) -> bool {
    &&& (nor.len() == 0 || nor.len() == pos.len())
    &&& (nor.len() == 0 ==> cal.len() == pos.len())
}

fn is_on_the_right(hit_point: &Point, from: &Point, to: &Point, normal: &Vec3) -> (r: bool)
    ensures
        r == on_right_s(hit_point@, from@, to@, normal@),
{
    let normal_for_intersection = to.sub(from).cross_product(&hit_point.sub(from));
    normal.dot_product(&normal_for_intersection).lt(Fx::zero())
}

impl Triangle {
    /// The unnormalized edge cross product, whose magnitude carries the
    /// face's area.
    pub fn edge_cross(&self, positions: &Vec<Point>) -> (r: Vec3)
        requires
            tri_wf(*self, positions@.len() as int),
        ensures
            r@ == tri_cross_s(*self, positions@),
    {
        let v0 = positions[self.indices.0];
        let v1 = positions[self.indices.1];
        let v2 = positions[self.indices.2];
        let edge_01 = v1.sub(&v0);
        let edge_02 = v2.sub(&v0);
        edge_01.cross_product(&edge_02)
    }

    pub fn compute_normal(&self, positions: &Vec<Point>) -> (r: Vec3)
        requires
            tri_wf(*self, positions@.len() as int),
        ensures
            r@ == tri_face_normal_s(*self, positions@),
    {
        self.edge_cross(positions).normalize_safe()
    }

    pub fn compute_center(&self, positions: &Vec<Point>) -> (r: Point)
        requires
            tri_wf(*self, positions@.len() as int),
        ensures
            r@ == tri_center_s(*self, positions@),
    {
        let v0 = positions[self.indices.0].to_vec();
        let v1 = positions[self.indices.1].to_vec();
        let v2 = positions[self.indices.2].to_vec();
        v0.add(&v1).add(&v2).scale(Fx::one().div(Fx::from_int(3))).to_point()
    }

    /// The smallest coordinate of the three vertices along an axis.
    pub fn min_dim(&self, positions: &Vec<Point>, idx: usize) -> (r: Fx)
        requires
            tri_wf(*self, positions@.len() as int),
            idx < 3,
        ensures
            r@ == min3(
                axis_of(positions@[self.indices.0 as int]@, idx as int),
                axis_of(positions@[self.indices.1 as int]@, idx as int),
                axis_of(positions@[self.indices.2 as int]@, idx as int),
            ),
    {
        positions[self.indices.0].axis(idx).min(positions[self.indices.1].axis(idx)).min(
            positions[self.indices.2].axis(idx),
        )
    }

    /// The largest coordinate of the three vertices along an axis.
    pub fn max_dim(&self, positions: &Vec<Point>, idx: usize) -> (r: Fx)
        requires
            tri_wf(*self, positions@.len() as int),
            idx < 3,
        ensures
            r@ == max3(
                axis_of(positions@[self.indices.0 as int]@, idx as int),
                axis_of(positions@[self.indices.1 as int]@, idx as int),
                axis_of(positions@[self.indices.2 as int]@, idx as int),
            ),
    {
        positions[self.indices.0].axis(idx).max(positions[self.indices.1].axis(idx)).max(
            positions[self.indices.2].axis(idx),
        )
    }

    pub fn compute_hit(
        &self,
        ray: &Ray,
        positions: &Vec<Point>,
        normals: &Vec<Vec3>,
        calculated_normals: &Vec<Vec3>,
    ) -> (r: Option<Hit>)
        requires
            tri_wf(*self, positions@.len() as int),
            arrays_wf(positions@, normals@, calculated_normals@),
        ensures
            hit_opt(r) == triangle_hit_s(
                *self,
                positions@,
                normals@,
                calculated_normals@,
                ray.origin@,
                ray.direction@,
            ),
    {
        proof {
            reveal(crate::mesh::triangle_hit_s);
        }
        let v0 = positions[self.indices.0];
        let v1 = positions[self.indices.1];
        let v2 = positions[self.indices.2];
        let face_normal = self.compute_normal(positions);
        let t_denom = face_normal.dot_product(&ray.direction);
        if t_denom.abs().lt(Fx::from_raw(2)) {
            // The ray and the triangle are parallel.
            return Option::None;
        }
        let plane_bias = face_normal.dot_product(&v0.to_vec()).neg();
        let t = face_normal.dot_product(&ray.origin.to_vec()).add(plane_bias).neg().div(t_denom);
        if t.lt(Fx::from_raw(MIN_RAY_T)) {
            // The triangle is either behind or too close.
            return Option::None;
        }
        let hit_point = ray.compute_point(t);
        if is_on_the_right(&hit_point, &v0, &v1, &face_normal) || is_on_the_right(
            &hit_point,
            &v1,
            &v2,
            &face_normal,
        ) || is_on_the_right(&hit_point, &v2, &v0, &face_normal) {
            return Option::None;
        }
        let two = Fx::from_int(2);
        let area_v0 = v1.sub(&v0).cross_product(&hit_point.sub(&v0)).norm().div(two);
        let area_v1 = v2.sub(&v1).cross_product(&hit_point.sub(&v1)).norm().div(two);
        let area_v2 = v0.sub(&v2).cross_product(&hit_point.sub(&v2)).norm().div(two);
        let area = area_v0.add(area_v1).add(area_v2);
        if area.is_zero() {
            // A degenerate hit cannot carry barycentric weights.
            return Option::None;
        }
        let w0 = area_v0.div(area);
        let w1 = area_v1.div(area);
        let w2 = area_v2.div(area);
        let n0 = if normals.len() > 0 {
            normals[self.indices.0]
        } else {
            calculated_normals[self.indices.0]
        };
        let n1 = if normals.len() > 0 {
            normals[self.indices.1]
        } else {
            calculated_normals[self.indices.1]
        };
        let n2 = if normals.len() > 0 {
            normals[self.indices.2]
        } else {
            calculated_normals[self.indices.2]
        };
        let normal = n0.scale(w1).add(&n1.scale(w2)).add(&n2.scale(w0)).normalize_safe();
        Option::Some(Hit::new(t, normal))
    }

    pub fn get_visual_data(&self) -> (r: VisualData)
        ensures
            r == self.vis,
    {
        self.vis
    }
}

/// Barycentric weights of an accepted hit sum to one (within the rounding
/// of the three divisions): with non-negative sub-areas whose exact sum is
/// the total area, the computed weights land in `(1 - 3/SCALE, 1]`.
pub proof fn lemma_barycentric_weights_sum(a0: int, a1: int, a2: int)
    requires
        0 <= a0,
        0 <= a1,
        0 <= a2,
        0 < a0 + a1 + a2 <= BOUND as int,
    ensures
        SCALE as int - 3 < fdiv(a0, a0 + a1 + a2) + fdiv(a1, a0 + a1 + a2) + fdiv(a2, a0 + a1 + a2)
            <= SCALE as int,
{
    let area = a0 + a1 + a2;
    let s = SCALE as int;
    lemma_weight_div(a0, area);
    lemma_weight_div(a1, area);
    lemma_weight_div(a2, area);
    let q0 = (a0 * s) / area;
    let q1 = (a1 * s) / area;
    let q2 = (a2 * s) / area;
    vstd::arithmetic::div_mod::lemma_fundamental_div_mod(a0 * s, area);
    vstd::arithmetic::div_mod::lemma_fundamental_div_mod(a1 * s, area);
    vstd::arithmetic::div_mod::lemma_fundamental_div_mod(a2 * s, area);
    vstd::arithmetic::div_mod::lemma_mod_bound(a0 * s, area);
    vstd::arithmetic::div_mod::lemma_mod_bound(a1 * s, area);
    vstd::arithmetic::div_mod::lemma_mod_bound(a2 * s, area);
    let r0 = (a0 * s) % area;
    let r1 = (a1 * s) % area;
    let r2 = (a2 * s) % area;
    assert(area * q0 + r0 + (area * q1 + r1) + (area * q2 + r2) == area * s) by (nonlinear_arith)
        requires
            a0 * s == area * q0 + r0,
            a1 * s == area * q1 + r1,
            a2 * s == area * q2 + r2,
            a0 + a1 + a2 == area,
    ;
    assert(s - 3 < q0 + q1 + q2 <= s) by (nonlinear_arith)
        requires
            area * q0 + r0 + (area * q1 + r1) + (area * q2 + r2) == area * s,
            0 <= r0 < area,
            0 <= r1 < area,
            0 <= r2 < area,
            area > 0,
    ;
}

/// Connects a weight division with the Euclidean quotient and shows that it
/// is not clipped.
proof fn lemma_weight_div(a: int, area: int)
    requires
        0 <= a <= area,
        0 < area <= BOUND as int,
    ensures
        fdiv(a, area) == (a * SCALE as int) / area,
        0 <= fdiv(a, area) <= SCALE as int,
{
    let s = SCALE as int;
    assert(a * s >= 0) by (nonlinear_arith)
        requires
            a >= 0,
            s > 0,
    ;
    assert(tdiv(a * s, area) == (a * s) / area);
    assert(0 <= (a * s) / area && (a * s) / area <= s) by (nonlinear_arith)
        requires
            0 <= a <= area,
            0 < area,
            s > 0,
    ;
}

// ---------------------------------------------------------------------------
// Bounding-volume hierarchy.
// ---------------------------------------------------------------------------

use crate::aabb::AxisAlignedBox;
use crate::surface::Sphere;

/// A node of the hierarchy: up to two triangles (leaf case) or up to two
/// owned subtrees, with a bounding sphere and box for rejection.
#[derive(Debug)]
pub struct BoundingVolumeHierarchy {
    pub triangle_left: Option<Triangle>,
    pub triangle_right: Option<Triangle>,
    pub bvh_left: Option<Box<BoundingVolumeHierarchy>>,
    pub bvh_right: Option<Box<BoundingVolumeHierarchy>>,
    pub sphere: Sphere,
    pub bbox: AxisAlignedBox,
    pub vis: VisualData,
}

pub open spec fn bvh_wf(b: BoundingVolumeHierarchy, plen: int) -> bool
    decreases b,
{
    &&& (match b.triangle_left {
        Option::Some(t) => tri_wf(t, plen),
        Option::None => true,
    })
    &&& (match b.triangle_right {
        Option::Some(t) => tri_wf(t, plen),
        Option::None => true,
    })
    &&& (match b.bvh_left {
        Option::Some(bl) => bvh_wf(*bl, plen),
        Option::None => true,
    })
    &&& (match b.bvh_right {
        Option::Some(br) => bvh_wf(*br, plen),
        Option::None => true,
    })
}

/// The triangles stored in one child slot.
pub open spec fn bvh_child_triangles(
    tri: Option<Triangle>,
    sub: Option<Box<BoundingVolumeHierarchy>>,
) -> Seq<Triangle>
    decreases sub,
{
    match tri {
        Option::Some(t) => seq![t],
        Option::None => match sub {
            Option::Some(b) => bvh_triangles(*b),
            Option::None => Seq::empty(),
        },
    }
}

/// All triangles stored in the leaves of the subtree, left to right.
pub open spec fn bvh_triangles(b: BoundingVolumeHierarchy) -> Seq<Triangle>
    decreases b,
{
    bvh_child_triangles(b.triangle_left, b.bvh_left) + bvh_child_triangles(
        b.triangle_right,
        b.bvh_right,
    )
}

/// At every node, the node's box and sphere contain every vertex of every
/// triangle stored in the node's subtree: the invariant that makes
/// box-miss pruning sound.
pub open spec fn bvh_bounded(b: BoundingVolumeHierarchy, pos: Seq<Point>) -> bool
    decreases b,
{
    &&& (forall|i: int|
        0 <= i < bvh_triangles(b).len() ==> tri_in_box_s(
            #[trigger] bvh_triangles(b)[i],
            pos,
            b.bbox,
        ) && tri_in_sphere_s(bvh_triangles(b)[i], pos, b.sphere))
    &&& (match b.bvh_left {
        Option::Some(bl) => bvh_bounded(*bl, pos),
        Option::None => true,
    })
    &&& (match b.bvh_right {
        Option::Some(br) => bvh_bounded(*br, pos),
        Option::None => true,
    })
}

/// Sequences with equal multisets hold the same elements.
proof fn lemma_multiset_elem(s1: Seq<Triangle>, s2: Seq<Triangle>, t: Triangle)
    requires
        s1.to_multiset() == s2.to_multiset(),
        s1.contains(t),
    ensures
        s2.contains(t),
{
    broadcast use vstd::seq_lib::group_to_multiset_ensures;

    assert(s1.to_multiset().count(t) > 0);
    assert(s2.to_multiset().count(t) > 0);
}

/// One child slot: a triangle if present, else a subtree, else nothing.
#[verifier::opaque]
pub open spec fn bvh_child_hit_s(
    tri: Option<Triangle>,
    sub: Option<Box<BoundingVolumeHierarchy>>,
    pos: Seq<Point>,
    nor: Seq<Vec3>,
    cal: Seq<Vec3>,
    o: V3,
    d: V3,
) -> Option<HitS>
    decreases sub,
{
    match tri {
        Option::Some(t) => triangle_hit_s(t, pos, nor, cal, o, d),
        Option::None => match sub {
            Option::Some(b) => bvh_hit_s(*b, pos, nor, cal, o, d),
            Option::None => Option::None,
        },
    }
}

/// Traversal: the bounding box first; on a miss the whole subtree is
/// pruned, otherwise the closer of the two children's hits.
#[verifier::opaque]
pub open spec fn bvh_hit_s(
    b: BoundingVolumeHierarchy,
    pos: Seq<Point>,
    nor: Seq<Vec3>,
    cal: Seq<Vec3>,
    o: V3,
    d: V3,
) -> Option<HitS>
    decreases b,
{
    match crate::aabb::aabb_hit_s(b.bbox, o, d) {
        Option::None => Option::None,
        Option::Some(_) => {
            let left = bvh_child_hit_s(b.triangle_left, b.bvh_left, pos, nor, cal, o, d);
            let right = bvh_child_hit_s(b.triangle_right, b.bvh_right, pos, nor, cal, o, d);
            match left {
                Option::Some(lh) => match right {
                    Option::Some(rh) => Option::Some(
                        if lh.t < rh.t {
                            lh
                        } else {
                            rh
                        },
                    ),
                    Option::None => left,
                },
                Option::None => right,
            }
        },
    }
}

/// A hit reported by one child slot is a real hit of one of the slot's
/// triangles.
proof fn lemma_child_hit_is_triangle_hit(
    tri: Option<Triangle>,
    sub: Option<Box<BoundingVolumeHierarchy>>,
    pos: Seq<Point>,
    nor: Seq<Vec3>,
    cal: Seq<Vec3>,
    o: V3,
    d: V3,
)
    ensures
        bvh_child_hit_s(tri, sub, pos, nor, cal, o, d) is Some ==> exists|i: int|
            0 <= i < bvh_child_triangles(tri, sub).len() && triangle_hit_s(
                #[trigger] bvh_child_triangles(tri, sub)[i],
                pos,
                nor,
                cal,
                o,
                d,
            ) == bvh_child_hit_s(tri, sub, pos, nor, cal, o, d),
    decreases sub,
{
    reveal(crate::mesh::bvh_child_hit_s);
    reveal(crate::mesh::bvh_hit_s);
    match tri {
        Option::Some(t) => {
            assert(bvh_child_triangles(tri, sub) =~= seq![t]);
            assert(triangle_hit_s(bvh_child_triangles(tri, sub)[0], pos, nor, cal, o, d)
                == bvh_child_hit_s(tri, sub, pos, nor, cal, o, d));
        },
        Option::None => {
            match sub {
                Option::Some(b) => {
                    lemma_bvh_hit_is_triangle_hit(*b, pos, nor, cal, o, d);
                    assert(bvh_child_hit_s(tri, sub, pos, nor, cal, o, d) == bvh_hit_s(
                        *b,
                        pos,
                        nor,
                        cal,
                        o,
                        d,
                    ));
                    assert(bvh_child_triangles(tri, sub) == bvh_triangles(*b));
                },
                Option::None => {
                    assert(bvh_child_hit_s(tri, sub, pos, nor, cal, o, d) is None);
                },
            }
        },
    }
}

/// One half of the agreement between the hierarchy and the linear scan: a
/// hit the traversal reports is a real hit of one of the subtree's
/// triangles.  Box-miss pruning can at most lose intersections; it never
/// invents one.
pub proof fn lemma_bvh_hit_is_triangle_hit(
    b: BoundingVolumeHierarchy,
    pos: Seq<Point>,
    nor: Seq<Vec3>,
    cal: Seq<Vec3>,
    o: V3,
    d: V3,
)
    ensures
        bvh_hit_s(b, pos, nor, cal, o, d) is Some ==> exists|i: int|
            0 <= i < bvh_triangles(b).len() && triangle_hit_s(
                #[trigger] bvh_triangles(b)[i],
                pos,
                nor,
                cal,
                o,
                d,
            ) == bvh_hit_s(b, pos, nor, cal, o, d),
    decreases b,
{
    reveal(crate::mesh::bvh_hit_s);
    reveal(crate::mesh::bvh_child_hit_s);
    let x = bvh_hit_s(b, pos, nor, cal, o, d);
    if x is Some {
        let lt = bvh_child_triangles(b.triangle_left, b.bvh_left);
        let rt = bvh_child_triangles(b.triangle_right, b.bvh_right);
        assert(bvh_triangles(b) == lt + rt);
        let left = bvh_child_hit_s(b.triangle_left, b.bvh_left, pos, nor, cal, o, d);
        let right = bvh_child_hit_s(b.triangle_right, b.bvh_right, pos, nor, cal, o, d);
        lemma_child_hit_is_triangle_hit(b.triangle_left, b.bvh_left, pos, nor, cal, o, d);
        lemma_child_hit_is_triangle_hit(b.triangle_right, b.bvh_right, pos, nor, cal, o, d);
        assert(left == x || right == x);
        if left == x {
            let i = choose|i: int|
                0 <= i < lt.len() && triangle_hit_s(#[trigger] lt[i], pos, nor, cal, o, d) == left;
            assert(bvh_triangles(b)[i] == lt[i]);
        } else {
            let i = choose|i: int|
                0 <= i < rt.len() && triangle_hit_s(#[trigger] rt[i], pos, nor, cal, o, d) == right;
            assert(bvh_triangles(b)[lt.len() + i] == rt[i]);
        }
    }
}

impl BoundingVolumeHierarchy {
    /// Builds the tree by median split on the centroid x coordinate; one
    /// or two triangles make a leaf.  The leaves hold exactly the input
    /// triangles, every node's box and sphere bound its whole subtree, and
    /// with more than two triangles the halves partition the list around
    /// the median centroid.
    #[verifier::rlimit(60)]
    pub fn from_triangles_list(triangles: Vec<Triangle>, positions: &Vec<Point>) -> (r:
        BoundingVolumeHierarchy)
        requires
            0 < triangles@.len() < 0x80000000,
            all_tris_wf(triangles@, positions@.len() as int),
        ensures
            bvh_wf(r, positions@.len() as int),
            bvh_triangles(r).to_multiset() == triangles@.to_multiset(),
            bvh_bounded(r, positions@),
            triangles@.len() == 1 ==> r.triangle_left == Option::Some(triangles@[0])
                && r.triangle_right is None && r.bvh_left is None && r.bvh_right is None,
            triangles@.len() == 2 ==> r.triangle_left == Option::Some(triangles@[0])
                && r.triangle_right == Option::Some(triangles@[1]) && r.bvh_left is None
                && r.bvh_right is None,
            triangles@.len() > 2 ==> ({
                let lt = bvh_child_triangles(r.triangle_left, r.bvh_left);
                let rt = bvh_child_triangles(r.triangle_right, r.bvh_right);
                &&& lt.len() == triangles@.len() / 2
                &&& rt.len() == triangles@.len() - triangles@.len() / 2
                &&& forall|a: int, c: int|
                    0 <= a < lt.len() && 0 <= c < rt.len() ==> tri_center_s(
                        #[trigger] lt[a],
                        positions@,
                    ).x <= tri_center_s(#[trigger] rt[c], positions@).x
            }),
        decreases triangles@.len(),
    {
        let ghost input = triangles@;
        let sphere = BoundingVolumeHierarchy::compute_sphere_from_triangles(&triangles, positions);
        let bbox = BoundingVolumeHierarchy::compute_bbox_from_triangles(&triangles, positions);
        if triangles.len() == 1 {
            let result = BoundingVolumeHierarchy {
                sphere,
                bbox,
                triangle_left: Option::Some(triangles[0]),
                triangle_right: Option::None,
                bvh_left: Option::None,
                bvh_right: Option::None,
                vis: triangles[0].vis,
            };
            proof {
                assert(bvh_triangles(result) =~= input);
            }
            return result;
        }
        if triangles.len() == 2 {
            let result = BoundingVolumeHierarchy {
                sphere,
                bbox,
                triangle_left: Option::Some(triangles[0]),
                triangle_right: Option::Some(triangles[1]),
                bvh_left: Option::None,
                bvh_right: Option::None,
                vis: triangles[0].vis,
            };
            proof {
                assert(bvh_triangles(result) =~= input);
            }
            return result;
        }
        let sorted = sort_by_center_x(triangles, positions);
        let half = sorted.len() / 2;
        let mut triangles_left: Vec<Triangle> = Vec::new();
        let mut triangles_right: Vec<Triangle> = Vec::new();
        let mut i: usize = 0;
        while i < half
            invariant
                half < sorted@.len(),
                i <= half,
                triangles_left@ == sorted@.subrange(0, i as int),
                all_tris_wf(sorted@, positions@.len() as int),
                all_tris_wf(triangles_left@, positions@.len() as int),
            decreases half - i,
        {
            triangles_left.push(sorted[i]);
            proof {
                assert(triangles_left@ =~= sorted@.subrange(0, i as int + 1));
            }
            i = i + 1;
        }
        let mut j: usize = half;
        while j < sorted.len()
            invariant
                half < sorted@.len(),
                half <= j <= sorted@.len(),
                triangles_right@ == sorted@.subrange(half as int, j as int),
                all_tris_wf(sorted@, positions@.len() as int),
                all_tris_wf(triangles_right@, positions@.len() as int),
            decreases sorted@.len() - j,
        {
            triangles_right.push(sorted[j]);
            proof {
                assert(triangles_right@ =~= sorted@.subrange(half as int, j as int + 1));
            }
            j = j + 1;
        }
        let ghost lh = triangles_left@;
        let ghost rh = triangles_right@;
        let vis = triangles_left[0].vis;
        let triangle_left = if triangles_left.len() == 1 {
            Option::Some(triangles_left[0])
        } else {
            Option::None
        };
        let bvh_left = if triangles_left.len() == 1 {
            Option::None
        } else {
            Option::Some(
                Box::new(BoundingVolumeHierarchy::from_triangles_list(triangles_left, positions)),
            )
        };
        let triangle_right = if triangles_right.len() == 1 {
            Option::Some(triangles_right[0])
        } else {
            Option::None
        };
        let bvh_right = if triangles_right.len() == 1 {
            Option::None
        } else {
            Option::Some(
                Box::new(BoundingVolumeHierarchy::from_triangles_list(triangles_right, positions)),
            )
        };
        let result = BoundingVolumeHierarchy {
            vis,
            triangle_left,
            triangle_right,
            bvh_left,
            bvh_right,
            sphere,
            bbox,
        };
        proof {
            broadcast use vstd::seq_lib::group_to_multiset_ensures;
            broadcast use vstd::multiset::group_multiset_axioms;

            let lt = bvh_child_triangles(result.triangle_left, result.bvh_left);
            let rt = bvh_child_triangles(result.triangle_right, result.bvh_right);
            if lh.len() == 1 {
                assert(lt =~= lh);
            }
            if rh.len() == 1 {
                assert(rt =~= rh);
            }
            assert(lt.to_multiset() == lh.to_multiset());
            assert(rt.to_multiset() == rh.to_multiset());
            assert(bvh_triangles(result) == lt + rt);
            vstd::seq_lib::lemma_multiset_commutative(lt, rt);
            vstd::seq_lib::lemma_multiset_commutative(lh, rh);
            assert(lh + rh =~= sorted@);
            assert(bvh_triangles(result).to_multiset() =~= sorted@.to_multiset());
            // Sizes of the two halves.
            assert(lt.len() == lt.to_multiset().len());
            assert(rt.len() == rt.to_multiset().len());
            assert(lh.len() == lh.to_multiset().len());
            assert(rh.len() == rh.to_multiset().len());
            // The median partition: every left triangle's centroid is at
            // or before every right one's.
            assert forall|a: int, c: int|
                0 <= a < lt.len() && 0 <= c < rt.len() implies tri_center_s(
                #[trigger] lt[a],
                positions@,
            ).x <= tri_center_s(#[trigger] rt[c], positions@).x by {
                assert(lt.contains(lt[a]));
                lemma_multiset_elem(lt, lh, lt[a]);
                let ai = choose|x: int| 0 <= x < lh.len() && lh[x] == lt[a];
                assert(sorted@[ai] == lt[a]);
                assert(rt.contains(rt[c]));
                lemma_multiset_elem(rt, rh, rt[c]);
                let ci = choose|x: int| 0 <= x < rh.len() && rh[x] == rt[c];
                assert(sorted@[half as int + ci] == rt[c]);
            }
            // Every subtree triangle is one of the inputs, so the root box
            // and sphere bound it.
            assert forall|k: int| 0 <= k < bvh_triangles(result).len() implies tri_in_box_s(
                #[trigger] bvh_triangles(result)[k],
                positions@,
                result.bbox,
            ) && tri_in_sphere_s(bvh_triangles(result)[k], positions@, result.sphere) by {
                let t = bvh_triangles(result)[k];
                assert(bvh_triangles(result).contains(t));
                lemma_multiset_elem(bvh_triangles(result), sorted@, t);
                lemma_multiset_elem(sorted@, input, t);
                let x = choose|x: int| 0 <= x < input.len() && input[x] == t;
                assert(tri_in_box_s(input[x], positions@, bbox));
                assert(tri_in_sphere_s(input[x], positions@, sphere));
            }
        }
        result
    }

    /// Bounding sphere: centroid average as the center, the farthest vertex
    /// distance (plus a pad) as the radius.
    pub fn compute_sphere_from_triangles(triangles: &Vec<Triangle>, positions: &Vec<Point>) -> (r:
        Sphere)
        requires
            0 < triangles@.len() < 0x80000000,
            all_tris_wf(triangles@, positions@.len() as int),
        ensures
            ({
                let inv = fdiv(SCALE as int, crate::fixed::clip(triangles@.len() as int * SCALE as int));
                let c = centroid_fold(triangles@, positions@, inv, triangles@.len() as int);
                &&& r.center@ == c
                &&& r.radius@ == fadd(
                    vertex_dist_fold(triangles@, positions@, c, triangles@.len() as int),
                    1049,
                )
            }),
            r.radius@ >= 1049,
            r.wf(),
            forall|k: int|
                0 <= k < triangles@.len() ==> tri_in_sphere_s(
                    #[trigger] triangles@[k],
                    positions@,
                    r,
                ),
    {
        let count = Fx::from_int(triangles.len() as i64);
        proof {
            assert(triangles@.len() as int * SCALE as int >= SCALE as int) by (nonlinear_arith)
                requires
                    triangles@.len() >= 1,
            ;
        }
        let inv = Fx::one().div(count);
        let mut center = Point::zero();
        let mut i: usize = 0;
        while i < triangles.len()
            invariant
                all_tris_wf(triangles@, positions@.len() as int),
                i <= triangles@.len(),
                inv@ == fdiv(SCALE as int, crate::fixed::clip(triangles@.len() as int * SCALE as int)),
                center@ == centroid_fold(triangles@, positions@, inv@, i as int),
            decreases triangles@.len() - i,
        {
            let tc = triangles[i].compute_center(positions);
            center = center.add_vec(&tc.to_vec().scale(inv));
            i = i + 1;
        }
        let mut max_distance = Fx::zero();
        let mut j: usize = 0;
        while j < triangles.len()
            invariant
                all_tris_wf(triangles@, positions@.len() as int),
                j <= triangles@.len(),
                max_distance@ >= 0,
                max_distance@ == vertex_dist_fold(triangles@, positions@, center@, j as int),
            decreases triangles@.len() - j,
        {
            let t = triangles[j];
            let d0 = positions[t.indices.0].sub(&center).norm();
            let d1 = positions[t.indices.1].sub(&center).norm();
            let d2 = positions[t.indices.2].sub(&center).norm();
            max_distance = max_distance.max(d0).max(d1).max(d2);
            proof {
                crate::basics::lemma_norm_sq_nonneg(
                    vsub(positions@[t.indices.0 as int]@, center@),
                );
            }
            j = j + 1;
        }
        let radius = max_distance.add(Fx::from_raw(1049));
        proof {
            use_type_invariant(max_distance);
            assert forall|k: int| 0 <= k < triangles@.len() implies tri_in_sphere_s(
                #[trigger] triangles@[k],
                positions@,
                Sphere { center, radius, vis: vstd::pervasive::arbitrary() },
            ) by {
                lemma_vertex_dist_fold_bound(
                    triangles@,
                    positions@,
                    center@,
                    triangles@.len() as int,
                    k,
                );
            }
        }
        Sphere::from_position(radius, center)
    }

    /// Axis-aligned bounding box: per-axis minima and maxima over every
    /// vertex of every triangle, padded outward; each listed vertex lies
    /// inside the returned box.
    pub fn compute_bbox_from_triangles(triangles: &Vec<Triangle>, positions: &Vec<Point>) -> (r:
        AxisAlignedBox)
        requires
            triangles@.len() > 0,
            all_tris_wf(triangles@, positions@.len() as int),
        ensures
            r.min_corner@ == vsub(
                bbox_min_fold(triangles@, positions@, triangles@.len() as int),
                v3(10, 10, 10),
            ),
            r.max_corner@ == vadd(
                bbox_max_fold(triangles@, positions@, triangles@.len() as int),
                v3(10, 10, 10),
            ),
            forall|i: int|
                0 <= i < triangles@.len() ==> tri_in_box_s(#[trigger] triangles@[i], positions@, r),
    {
        let mut min_c = Point::new(
            Fx::from_raw(BOUND),
            Fx::from_raw(BOUND),
            Fx::from_raw(BOUND),
        );
        let mut max_c = Point::new(
            Fx::from_raw(-BOUND),
            Fx::from_raw(-BOUND),
            Fx::from_raw(-BOUND),
        );
        let mut i: usize = 0;
        while i < triangles.len()
            invariant
                all_tris_wf(triangles@, positions@.len() as int),
                i <= triangles@.len(),
                min_c@ == bbox_min_fold(triangles@, positions@, i as int),
                max_c@ == bbox_max_fold(triangles@, positions@, i as int),
                forall|k: int|
                    0 <= k < i ==> tri_between_s(
                        #[trigger] triangles@[k],
                        positions@,
                        min_c@,
                        max_c@,
                    ),
            decreases triangles@.len() - i,
        {
            let t = triangles[i];
            min_c = Point::new(
                min_c.x.min(t.min_dim(positions, 0)),
                min_c.y.min(t.min_dim(positions, 1)),
                min_c.z.min(t.min_dim(positions, 2)),
            );
            max_c = Point::new(
                max_c.x.max(t.max_dim(positions, 0)),
                max_c.y.max(t.max_dim(positions, 1)),
                max_c.z.max(t.max_dim(positions, 2)),
            );
            i = i + 1;
        }
        let pad = Fx::from_raw(10);
        proof {
            use_type_invariant(min_c.x);
            use_type_invariant(min_c.y);
            use_type_invariant(min_c.z);
            use_type_invariant(max_c.x);
            use_type_invariant(max_c.y);
            use_type_invariant(max_c.z);
        }
        let result = AxisAlignedBox {
            min_corner: Point::new(min_c.x.sub(pad), min_c.y.sub(pad), min_c.z.sub(pad)),
            max_corner: Point::new(max_c.x.add(pad), max_c.y.add(pad), max_c.z.add(pad)),
        };
        result
    }

    pub fn compute_hit(
        &self,
        ray: &Ray,
        positions: &Vec<Point>,
        normals: &Vec<Vec3>,
        calculated_normals: &Vec<Vec3>,
    ) -> (r: Option<Hit>)
        requires
            bvh_wf(*self, positions@.len() as int),
            arrays_wf(positions@, normals@, calculated_normals@),
        ensures
            hit_opt(r) == bvh_hit_s(
                *self,
                positions@,
                normals@,
                calculated_normals@,
                ray.origin@,
                ray.direction@,
            ),
            crate::aabb::aabb_hit_s(self.bbox, ray.origin@, ray.direction@) is None ==> r is None,
        decreases *self,
    {
        proof {
            reveal(crate::mesh::bvh_hit_s);
            reveal(crate::mesh::bvh_child_hit_s);
        }
        match self.bbox.compute_hit(ray) {
            Option::None => {
                return Option::None;
            },
            Option::Some(_) => {},
        }
        let left_hit: Option<Hit> = match &self.triangle_left {
            Option::Some(t) => t.compute_hit(ray, positions, normals, calculated_normals),
            Option::None => match &self.bvh_left {
                Option::Some(bl) => bl.compute_hit(ray, positions, normals, calculated_normals),
                Option::None => Option::None,
            },
        };
        let right_hit: Option<Hit> = match &self.triangle_right {
            Option::Some(t) => t.compute_hit(ray, positions, normals, calculated_normals),
            Option::None => match &self.bvh_right {
                Option::Some(br) => br.compute_hit(ray, positions, normals, calculated_normals),
                Option::None => Option::None,
            },
        };
        match left_hit {
            Option::Some(lh) => match right_hit {
                Option::Some(rh) => Option::Some(
                    if lh.t.lt(rh.t) {
                        lh
                    } else {
                        rh
                    },
                ),
                Option::None => left_hit,
            },
            Option::None => right_hit,
        }
    }

    pub fn get_visual_data(&self) -> (r: VisualData)
        ensures
            r == self.vis,
    {
        self.vis
    }
}

/// Every vertex of the triangle lies between the two corners,
/// component-wise.
pub open spec fn tri_between_s(t: Triangle, pos: Seq<Point>, lo: V3, hi: V3) -> bool {
    let p0 = pos[t.indices.0 as int]@;
    let p1 = pos[t.indices.1 as int]@;
    let p2 = pos[t.indices.2 as int]@;
    &&& lo.x <= min3(p0.x, p1.x, p2.x)
    &&& max3(p0.x, p1.x, p2.x) <= hi.x
    &&& lo.y <= min3(p0.y, p1.y, p2.y)
    &&& max3(p0.y, p1.y, p2.y) <= hi.y
    &&& lo.z <= min3(p0.z, p1.z, p2.z)
    &&& max3(p0.z, p1.z, p2.z) <= hi.z
}

/// Every vertex of the triangle lies inside the box.
pub open spec fn tri_in_box_s(t: Triangle, pos: Seq<Point>, b: AxisAlignedBox) -> bool {
    tri_between_s(t, pos, b.min_corner@, b.max_corner@)
}

/// Every vertex of the triangle lies within the sphere's radius of its
/// center.
pub open spec fn tri_in_sphere_s(t: Triangle, pos: Seq<Point>, s: Sphere) -> bool {
    &&& vnorm(vsub(pos[t.indices.0 as int]@, s.center@)) <= s.radius@
    &&& vnorm(vsub(pos[t.indices.1 as int]@, s.center@)) <= s.radius@
    &&& vnorm(vsub(pos[t.indices.2 as int]@, s.center@)) <= s.radius@
}

/// Per-axis minimum over all vertices of the first `i` triangles, started
/// at the saturation bound.
pub open spec fn bbox_min_fold(ts: Seq<Triangle>, pos: Seq<Point>, i: int) -> V3
    decreases i,
{
    if i <= 0 {
        v3(BOUND as int, BOUND as int, BOUND as int)
    } else {
        let prev = bbox_min_fold(ts, pos, i - 1);
        let t = ts[i - 1];
        let p0 = pos[t.indices.0 as int]@;
        let p1 = pos[t.indices.1 as int]@;
        let p2 = pos[t.indices.2 as int]@;
        V3 {
            x: crate::aabb::min_i(prev.x, min3(p0.x, p1.x, p2.x)),
            y: crate::aabb::min_i(prev.y, min3(p0.y, p1.y, p2.y)),
            z: crate::aabb::min_i(prev.z, min3(p0.z, p1.z, p2.z)),
        }
    }
}

/// Per-axis maximum over all vertices of the first `i` triangles.
pub open spec fn bbox_max_fold(ts: Seq<Triangle>, pos: Seq<Point>, i: int) -> V3
    decreases i,
{
    if i <= 0 {
        v3(-(BOUND as int), -(BOUND as int), -(BOUND as int))
    } else {
        let prev = bbox_max_fold(ts, pos, i - 1);
        let t = ts[i - 1];
        let p0 = pos[t.indices.0 as int]@;
        let p1 = pos[t.indices.1 as int]@;
        let p2 = pos[t.indices.2 as int]@;
        V3 {
            x: crate::aabb::max_i(prev.x, max3(p0.x, p1.x, p2.x)),
            y: crate::aabb::max_i(prev.y, max3(p0.y, p1.y, p2.y)),
            z: crate::aabb::max_i(prev.z, max3(p0.z, p1.z, p2.z)),
        }
    }
}

/// The running maximum of vertex distances bounds every earlier vertex.
proof fn lemma_vertex_dist_fold_bound(
    ts: Seq<Triangle>,
    pos: Seq<Point>,
    center: V3,
    i: int,
    j: int,
)
    requires
        0 <= j < i,
    ensures
        vnorm(vsub(pos[ts[j].indices.0 as int]@, center)) <= vertex_dist_fold(ts, pos, center, i),
        vnorm(vsub(pos[ts[j].indices.1 as int]@, center)) <= vertex_dist_fold(ts, pos, center, i),
        vnorm(vsub(pos[ts[j].indices.2 as int]@, center)) <= vertex_dist_fold(ts, pos, center, i),
    decreases i,
{
    if j < i - 1 {
        lemma_vertex_dist_fold_bound(ts, pos, center, i - 1, j);
    }
}

/// Selection sort on the centroid x coordinate; the result holds the same
/// number of triangles, all still addressing the arrays, in non-decreasing
/// centroid order.
fn sort_by_center_x(triangles: Vec<Triangle>, positions: &Vec<Point>) -> (r: Vec<Triangle>)
    requires
        all_tris_wf(triangles@, positions@.len() as int),
    ensures
        r@.len() == triangles@.len(),
        r@.to_multiset() == triangles@.to_multiset(),
        all_tris_wf(r@, positions@.len() as int),
        forall|i: int, j: int|
            0 <= i <= j < r@.len() ==> tri_center_s(#[trigger] r@[i], positions@).x <= tri_center_s(
                #[trigger] r@[j],
                positions@,
            ).x,
{
    let mut rest = triangles;
    let mut out: Vec<Triangle> = Vec::new();
    let ghost total = rest@.len();
    let ghost whole = rest@.to_multiset();
    proof {
        broadcast use vstd::seq_lib::group_to_multiset_ensures;
        broadcast use vstd::multiset::group_multiset_axioms;

        assert(out@.to_multiset().add(rest@.to_multiset()) =~= rest@.to_multiset()) by {
            assert(forall|t: Triangle| !out@.contains(t));
        }
    }
    while rest.len() > 0
        invariant
            out@.len() + rest@.len() == total,
            whole == triangles@.to_multiset(),
            out@.to_multiset().add(rest@.to_multiset()) == whole,
            all_tris_wf(rest@, positions@.len() as int),
            all_tris_wf(out@, positions@.len() as int),
            forall|i: int, j: int|
                0 <= i <= j < out@.len() ==> tri_center_s(#[trigger] out@[i], positions@).x
                    <= tri_center_s(#[trigger] out@[j], positions@).x,
            forall|i: int, j: int|
                0 <= i < out@.len() && 0 <= j < rest@.len() ==> tri_center_s(
                    #[trigger] out@[i],
                    positions@,
                ).x <= tri_center_s(#[trigger] rest@[j], positions@).x,
        decreases rest@.len(),
    {
        let mut min_idx: usize = 0;
        let mut k: usize = 1;
        while k < rest.len()
            invariant
                rest@.len() > 0,
                min_idx < k <= rest@.len(),
                all_tris_wf(rest@, positions@.len() as int),
                forall|j: int|
                    0 <= j < k ==> tri_center_s(rest@[min_idx as int], positions@).x
                        <= tri_center_s(#[trigger] rest@[j], positions@).x,
            decreases rest@.len() - k,
        {
            if rest[k].compute_center(positions).x.lt(
                rest[min_idx].compute_center(positions).x,
            ) {
                min_idx = k;
            }
            k = k + 1;
        }
        let ghost out0 = out@;
        let ghost rest0 = rest@;
        let chosen = rest.remove(min_idx);
        out.push(chosen);
        proof {
            broadcast use vstd::seq_lib::group_to_multiset_ensures;
            broadcast use vstd::multiset::group_multiset_axioms;

            assert(rest0.contains(chosen));
            assert(rest0.to_multiset().count(chosen) > 0);
            assert(out@.to_multiset() == out0.to_multiset().insert(chosen));
            assert(rest@.to_multiset() == rest0.to_multiset().remove(chosen));
            assert(out@.to_multiset().add(rest@.to_multiset()) =~= out0.to_multiset().add(
                rest0.to_multiset(),
            ));
        }
    }
    proof {
        broadcast use vstd::seq_lib::group_to_multiset_ensures;
        broadcast use vstd::multiset::group_multiset_axioms;

        assert(out@.to_multiset() =~= whole);
    }
    out
}

// ---------------------------------------------------------------------------
// The triangle mesh.
// ---------------------------------------------------------------------------

/// A triangle mesh: shared vertex arrays, the triangle list, the optional
/// explicit normals, the precomputed pseudo-normals, and the acceleration
/// tree.
#[derive(Debug)]
pub struct TriangleMesh {
    pub triangles: Vec<Triangle>,
    pub positions: Vec<Point>,
    pub calculated_normals: Vec<Vec3>,
    pub normals: Vec<Vec3>,
    pub bvh: Option<Box<BoundingVolumeHierarchy>>,
    pub vis: VisualData,
}

pub open spec fn mesh_wf(m: TriangleMesh) -> bool {
    &&& all_tris_wf(m.triangles@, m.positions@.len() as int)
    &&& arrays_wf(m.positions@, m.normals@, m.calculated_normals@)
    &&& (match m.bvh {
        Option::Some(b) => bvh_wf(*b, m.positions@.len() as int),
        Option::None => true,
    })
}

/// Brute-force intersection: the closest triangle hit, with the saturation
/// bound as the running sentinel.
pub open spec fn slow_hit_fold(
    ts: Seq<Triangle>,
    pos: Seq<Point>,
    nor: Seq<Vec3>,
    cal: Seq<Vec3>,
    o: V3,
    d: V3,
    i: int,
) -> HitS
    decreases i,
{
    if i <= 0 {
        HitS { t: BOUND as int, normal: v3(0, SCALE as int, 0) }
    } else {
        let prev = slow_hit_fold(ts, pos, nor, cal, o, d, i - 1);
        match triangle_hit_s(ts[i - 1], pos, nor, cal, o, d) {
            Option::Some(h) => {
                if h.t < prev.t {
                    h
                } else {
                    prev
                }
            },
            Option::None => prev,
        }
    }
}

pub open spec fn mesh_slow_hit_s(m: TriangleMesh, o: V3, d: V3) -> Option<HitS> {
    let best = slow_hit_fold(
        m.triangles@,
        m.positions@,
        m.normals@,
        m.calculated_normals@,
        o,
        d,
        m.triangles@.len() as int,
    );
    if best.t < BOUND as int {
        Option::Some(best)
    } else {
        Option::None
    }
}

/// Mesh intersection: through the hierarchy when one was built, else the
/// linear scan.
#[verifier::opaque]
pub open spec fn mesh_hit_s(m: TriangleMesh, o: V3, d: V3) -> Option<HitS> {
    match m.bvh {
        Option::Some(b) => bvh_hit_s(*b, m.positions@, m.normals@, m.calculated_normals@, o, d),
        Option::None => mesh_slow_hit_s(m, o, d),
    }
}

/// The edge cross products of earlier triangles, accumulated onto each
/// vertex they touch: summing the unnormalized cross products weights each
/// face normal by the face's area (the raw material of the pseudo-normals).
pub open spec fn accum_normals(ts: Seq<Triangle>, pos: Seq<Point>, i: int) -> Seq<V3>
    decreases i,
{
    if i <= 0 {
        Seq::new(pos.len(), |j: int| v3(0, 0, 0))
    } else {
        let prev = accum_normals(ts, pos, i - 1);
        let t = ts[i - 1];
        let f = tri_cross_s(t, pos);
        let s1 = prev.update(t.indices.0 as int, vadd(prev[t.indices.0 as int], f));
        let s2 = s1.update(t.indices.1 as int, vadd(s1[t.indices.1 as int], f));
        s2.update(t.indices.2 as int, vadd(s2[t.indices.2 as int], f))
    }
}

/// Running centroid average over the first `i` triangles: each centroid
/// scaled by the reciprocal triangle count and summed.
pub open spec fn centroid_fold(ts: Seq<Triangle>, pos: Seq<Point>, inv: int, i: int) -> V3
    decreases i,
{
    if i <= 0 {
        v3(0, 0, 0)
    } else {
        vadd(centroid_fold(ts, pos, inv, i - 1), vscale(tri_center_s(ts[i - 1], pos), inv))
    }
}

/// Largest distance from `center` to any vertex of the first `i`
/// triangles.
pub open spec fn vertex_dist_fold(ts: Seq<Triangle>, pos: Seq<Point>, center: V3, i: int) -> int
    decreases i,
{
    if i <= 0 {
        0
    } else {
        let prev = vertex_dist_fold(ts, pos, center, i - 1);
        let t = ts[i - 1];
        let d0 = vnorm(vsub(pos[t.indices.0 as int]@, center));
        let d1 = vnorm(vsub(pos[t.indices.1 as int]@, center));
        let d2 = vnorm(vsub(pos[t.indices.2 as int]@, center));
        crate::aabb::max_i(crate::aabb::max_i(crate::aabb::max_i(prev, d0), d1), d2)
    }
}

/// The accumulation keeps one slot per vertex.
pub proof fn lemma_accum_len(ts: Seq<Triangle>, pos: Seq<Point>, i: int)
    requires
        i <= ts.len(),
        all_tris_wf(ts, pos.len() as int),
    ensures
        accum_normals(ts, pos, i).len() == pos.len(),
    decreases i,
{
    if i <= 0 {
        assert(accum_normals(ts, pos, i) == Seq::new(pos.len(), |j: int| v3(0, 0, 0)));
        assert(Seq::new(pos.len(), |j: int| v3(0, 0, 0)).len() == pos.len());
    } else {
        lemma_accum_len(ts, pos, i - 1);
        let prev = accum_normals(ts, pos, i - 1);
        let t = ts[i - 1];
        let f = tri_cross_s(t, pos);
        let s1 = prev.update(t.indices.0 as int, vadd(prev[t.indices.0 as int], f));
        let s2 = s1.update(t.indices.1 as int, vadd(s1[t.indices.1 as int], f));
        assert(accum_normals(ts, pos, i) == s2.update(
            t.indices.2 as int,
            vadd(s2[t.indices.2 as int], f),
        ));
    }
}

impl TriangleMesh {
    /// Assembles a mesh from flat arrays (as a model loader hands them
    /// over): groups the indices into triangles, accumulates area-weighted
    /// pseudo-normals per vertex, and builds the hierarchy.
    pub fn from_arrays(
        positions: Vec<Point>,
        normals: Vec<Vec3>,
        indices: Vec<usize>,
        vis: VisualData,
    ) -> (r: TriangleMesh)
        requires
            positions@.len() > 0,
            indices@.len() % 3 == 0,
            3 <= indices@.len() < 0x80000000,
            forall|i: int| 0 <= i < indices@.len() ==> #[trigger] indices@[i] < positions@.len(),
            normals@.len() == 0 || normals@.len() == positions@.len(),
        ensures
            mesh_wf(r),
            r.vis == vis,
            r.positions == positions,
            r.normals == normals,
            r.triangles@.len() == indices@.len() / 3,
            forall|k: int|
                0 <= k < r.triangles@.len() ==> {
                    &&& (#[trigger] r.triangles@[k]).indices.0 == indices@[3 * k]
                    &&& r.triangles@[k].indices.1 == indices@[3 * k + 1]
                    &&& r.triangles@[k].indices.2 == indices@[3 * k + 2]
                    &&& r.triangles@[k].vis == vis
                },
            r.calculated_normals@.len() == positions@.len(),
            forall|j: int|
                0 <= j < positions@.len() ==> (#[trigger] r.calculated_normals@[j])@
                    == vnormalize_t(
                    accum_normals(r.triangles@, positions@, r.triangles@.len() as int)[j],
                ),
            (match r.bvh {
                Option::Some(b) => bvh_triangles(*b).to_multiset() == r.triangles@.to_multiset()
                    && bvh_bounded(*b, r.positions@),
                Option::None => false,
            }),
    {
        let num_triangles = indices.len() / 3;
        let mut triangles: Vec<Triangle> = Vec::new();
        let mut k: usize = 0;
        while k < num_triangles
            invariant
                num_triangles == indices@.len() / 3,
                indices@.len() % 3 == 0,
                indices@.len() < 0x80000000,
                forall|i: int|
                    0 <= i < indices@.len() ==> #[trigger] indices@[i] < positions@.len(),
                k <= num_triangles,
                triangles@.len() == k as int,
                forall|q: int|
                    0 <= q < k ==> {
                        &&& (#[trigger] triangles@[q]).indices.0 == indices@[3 * q]
                        &&& triangles@[q].indices.1 == indices@[3 * q + 1]
                        &&& triangles@[q].indices.2 == indices@[3 * q + 2]
                        &&& triangles@[q].vis == vis
                    },
                all_tris_wf(triangles@, positions@.len() as int),
            decreases num_triangles - k,
        {
            proof {
                vstd::arithmetic::div_mod::lemma_fundamental_div_mod(indices@.len() as int, 3);
            }
            triangles.push(
                Triangle {
                    indices: (indices[3 * k], indices[3 * k + 1], indices[3 * k + 2]),
                    vis,
                },
            );
            k = k + 1;
        }
        let mut acc: Vec<Vec3> = Vec::new();
        let mut z: usize = 0;
        while z < positions.len()
            invariant
                z <= positions@.len(),
                acc@.len() == z as int,
                forall|j: int| 0 <= j < z ==> (#[trigger] acc@[j])@ == v3(0, 0, 0),
            decreases positions@.len() - z,
        {
            acc.push(Vec3::zero());
            z = z + 1;
        }
        let mut ti: usize = 0;
        while ti < triangles.len()
            invariant
                all_tris_wf(triangles@, positions@.len() as int),
                ti <= triangles@.len(),
                acc@.len() == positions@.len(),
                forall|j: int|
                    0 <= j < positions@.len() ==> (#[trigger] acc@[j])@ == accum_normals(
                        triangles@,
                        positions@,
                        ti as int,
                    )[j],
            decreases triangles@.len() - ti,
        {
            let t = triangles[ti];
            let f = t.edge_cross(&positions);
            let ghost before = accum_normals(triangles@, positions@, ti as int);
            let updated0 = acc[t.indices.0].add(&f);
            acc.set(t.indices.0, updated0);
            let updated1 = acc[t.indices.1].add(&f);
            acc.set(t.indices.1, updated1);
            let updated2 = acc[t.indices.2].add(&f);
            acc.set(t.indices.2, updated2);
            proof {
                lemma_accum_len(triangles@, positions@, ti as int);
                let i0 = t.indices.0 as int;
                let i1 = t.indices.1 as int;
                let i2 = t.indices.2 as int;
                let fv = tri_cross_s(t, positions@);
                let s1 = before.update(i0, vadd(before[i0], fv));
                let s2 = s1.update(i1, vadd(s1[i1], fv));
                let s3 = s2.update(i2, vadd(s2[i2], fv));
                assert(accum_normals(triangles@, positions@, ti as int + 1) == s3);
                assert forall|j: int| 0 <= j < positions@.len() implies (#[trigger] acc@[j])@
                    == s3[j] by {
                    assert(s1[j] == if j == i0 {
                        vadd(before[i0], fv)
                    } else {
                        before[j]
                    });
                    assert(s2[j] == if j == i1 {
                        vadd(s1[i1], fv)
                    } else {
                        s1[j]
                    });
                    assert(s3[j] == if j == i2 {
                        vadd(s2[i2], fv)
                    } else {
                        s2[j]
                    });
                }
            }
            ti = ti + 1;
        }
        let mut calculated_normals: Vec<Vec3> = Vec::new();
        let mut c: usize = 0;
        while c < acc.len()
            invariant
                acc@.len() == positions@.len(),
                c <= acc@.len(),
                calculated_normals@.len() == c as int,
                forall|j: int|
                    0 <= j < positions@.len() ==> (#[trigger] acc@[j])@ == accum_normals(
                        triangles@,
                        positions@,
                        triangles@.len() as int,
                    )[j],
                forall|j: int|
                    0 <= j < c ==> (#[trigger] calculated_normals@[j])@ == vnormalize_t(
                        accum_normals(triangles@, positions@, triangles@.len() as int)[j],
                    ),
            decreases acc@.len() - c,
        {
            calculated_normals.push(acc[c].normalize_safe());
            c = c + 1;
        }
        let bvh = BoundingVolumeHierarchy::from_triangles_list(triangles.clone(), &positions);
        TriangleMesh {
            bvh: Option::Some(Box::new(bvh)),
            positions,
            calculated_normals,
            triangles,
            normals,
            vis,
        }
    }

    /// Linear intersection over every triangle.
    #[verifier::rlimit(50)]
    pub fn compute_slow_hit(&self, ray: &Ray) -> (r: Option<Hit>)
        requires
            mesh_wf(*self),
        ensures
            hit_opt(r) == mesh_slow_hit_s(*self, ray.origin@, ray.direction@),
    {
        let mut closest_hit = Hit::inf();
        let mut i: usize = 0;
        while i < self.triangles.len()
            invariant
                mesh_wf(*self),
                i <= self.triangles@.len(),
                closest_hit@ == slow_hit_fold(
                    self.triangles@,
                    self.positions@,
                    self.normals@,
                    self.calculated_normals@,
                    ray.origin@,
                    ray.direction@,
                    i as int,
                ),
            decreases self.triangles@.len() - i,
        {
            match self.triangles[i].compute_hit(
                ray,
                &self.positions,
                &self.normals,
                &self.calculated_normals,
            ) {
                Option::Some(hit) => {
                    if hit.t.lt(closest_hit.t) {
                        closest_hit = hit;
                    }
                },
                Option::None => {},
            }
            i = i + 1;
        }
        if closest_hit.t.lt(Fx::from_raw(BOUND)) {
            Option::Some(closest_hit)
        } else {
            Option::None
        }
    }

    /// Intersection through the hierarchy when it exists.
    pub fn compute_hit(&self, ray: &Ray) -> (r: Option<Hit>)
        requires
            mesh_wf(*self),
        ensures
            hit_opt(r) == mesh_hit_s(*self, ray.origin@, ray.direction@),
    {
        proof {
            reveal(crate::mesh::mesh_hit_s);
        }
        match &self.bvh {
            Option::Some(b) => b.compute_hit(
                ray,
                &self.positions,
                &self.normals,
                &self.calculated_normals,
            ),
            Option::None => self.compute_slow_hit(ray),
        }
    }

    pub fn get_visual_data(&self) -> (r: VisualData)
        ensures
            r == self.vis,
    {
        self.vis
    }
}

} // verus!

//! The scene and its shading pipeline: closest-hit search, shadow rays,
//! Lambertian diffuse, Blinn specular, and one level of (optionally glossy)
//! reflection, traced once per ray after the light loop.
//!
//! Shading is mirrored exactly by the `shade_s` family of spec functions,
//! parameterized by the light jitter: given the drawn jitter, a traced ray
//! is a pure function of the scene (glossy sampling aside, which promises
//! only that every channel of every outcome stays inside `[0, 1]`).

use vstd::prelude::*;

use crate::basics::{
    V3, v3, C3, Vec3, Point, Color, Light, Ray, vadd, vsub, vscale, dot, cross, norm_sq, vnorm,
    vnormalize_t, ray_point, cadd, cscale, cclamp, color_in_range,
};
use crate::camera::{Camera, generate_ray_s};
use crate::fixed::{Fx, fadd, fsub, fmul, fdiv, clip, SCALE, BOUND, MIN_RAY_T};
use crate::ray_tracer::{RayOptions, RenderOptions};
use crate::surface::{Surface, surface_wf, surface_hit_s, surface_vis_s, Hit, HitS, VisualData,
    VisS};
use crate::aabb::{max_i};

verus! {

/// Number of samples per axis for supersampling and soft shadows.
pub const NUM_DIST_RT_SAMPLES: u32 = 5;

/// Number of rays averaged for a glossy reflection.
pub const NUM_GLOSSY_REFL_RAYS: u32 = 10;

/// A scene: the surfaces, the camera, the lights, the background, and the
/// global strength parameters.
#[derive(Debug)]
pub struct Scene {
    pub objects: Vec<Surface>,
    pub camera: Camera,
    pub background_color: Color,
    pub lights: Vec<Light>,
    pub ambient_strength: Fx,
    pub diffuse_strength: Fx,
}

pub open spec fn scene_wf(s: Scene) -> bool {
    &&& forall|i: int| 0 <= i < s.objects@.len() ==> surface_wf(#[trigger] s.objects@[i])
    &&& s.camera.wf()
    &&& color_in_range(s.background_color@)
}

/// No surface asks for glossy (cone-sampled) reflection: together with a
/// missing light jitter this makes a traced ray fully deterministic.
pub open spec fn glossless(objs: Seq<Surface>) -> bool {
    forall|i: int|
        0 <= i < objs.len() ==> surface_vis_s(#[trigger] objs[i])@.reflection_glossiness == 0
}

pub open spec fn zero_vis() -> VisS {
    VisS { color: C3 { r: 0, g: 0, b: 0 }, specular_strength: 0, reflection_strength: 0,
        reflection_glossiness: 0 }
}

pub open spec fn inf_hit() -> HitS {
    HitS { t: BOUND as int, normal: v3(0, SCALE as int, 0) }
}

/// The closest hit (and its material) among the first `i` surfaces, with
/// the saturation bound as the running sentinel.
pub open spec fn closest_hit_fold(objs: Seq<Surface>, o: V3, d: V3, i: int) -> (HitS, VisS)
    decreases i,
{
    if i <= 0 {
        (inf_hit(), zero_vis())
    } else {
        let prev = closest_hit_fold(objs, o, d, i - 1);
        match surface_hit_s(objs[i - 1], o, d) {
            Option::Some(h) => {
                if h.t < prev.0.t {
                    (h, surface_vis_s(objs[i - 1])@)
                } else {
                    prev
                }
            },
            Option::None => prev,
        }
    }
}

/// Does any of the first `i` surfaces block the shadow ray closer than the
/// light?
pub open spec fn shadowed_fold(objs: Seq<Surface>, o: V3, d: V3, dist: int, i: int) -> bool
    decreases i,
{
    if i <= 0 {
        false
    } else {
        shadowed_fold(objs, o, d, dist, i - 1) || (match surface_hit_s(objs[i - 1], o, d) {
            Option::Some(h) => h.t < dist,
            Option::None => false,
        })
    }
}

/// The fixed specular exponent, computed by repeated squaring.
pub open spec fn pow64_s(x: int) -> int {
    let x2 = fmul(x, x);
    let x4 = fmul(x2, x2);
    let x8 = fmul(x4, x4);
    let x16 = fmul(x8, x8);
    let x32 = fmul(x16, x16);
    fmul(x32, x32)
}

/// The ghost view of a light jitter.
pub open spec fn shift_view(s: Option<(Fx, Fx)>) -> Option<(int, int)> {
    match s {
        Option::None => Option::None,
        Option::Some(p) => Option::Some((p.0@, p.1@)),
    }
}

/// The effective light position: the nominal one, shifted across the area
/// light's extents when a jitter is given.
pub open spec fn light_pos_s(light: Light, shift: Option<(int, int)>) -> V3 {
    match shift {
        Option::Some(sh) => vadd(
            light.location@,
            vadd(vscale(light.right@, sh.0), vscale(light.top@, sh.1)),
        ),
        Option::None => light.location@,
    }
}

/// The color after the first `i` lights' contributions: the ambient base,
/// then per light a shadow test (a blocked light contributes neither
/// diffuse nor specular), Lambertian diffuse, Blinn specular, and a clamp.
/// A pure function of the scene, the hit and the light jitter.
#[verifier::opaque]
pub open spec fn shade_lights(
    s: Scene,
    hit: HitS,
    vis: VisS,
    hp: V3,
    shift: Option<(int, int)>,
    i: int,
) -> C3
    decreases i,
{
    if i <= 0 {
        cscale(vis.color, s.ambient_strength@)
    } else {
        let prev = shade_lights(s, hit, vis, hp, shift, i - 1);
        let light = s.lights@[i - 1];
        let to_light = vsub(light_pos_s(light, shift), hp);
        let dist = vnorm(to_light);
        let ldir = vnormalize_t(to_light);
        let so = vadd(hp, vscale(ldir, MIN_RAY_T as int));
        let in_shadow = shadowed_fold(s.objects@, so, ldir, dist, s.objects@.len() as int);
        let c1 = if !in_shadow {
            cadd(
                prev,
                cscale(
                    light.color@,
                    fmul(max_i(dot(hit.normal, vnormalize_t(ldir)), 0), s.diffuse_strength@),
                ),
            )
        } else {
            prev
        };
        let c2 = if !in_shadow && vis.specular_strength > 0 {
            let eye = vnormalize_t(vsub(s.camera.origin@, hp));
            let half = vnormalize_t(vadd(eye, ldir));
            cadd(
                c1,
                cscale(
                    light.color@,
                    fmul(vis.specular_strength, pow64_s(max_i(dot(hit.normal, half), 0))),
                ),
            )
        } else {
            c1
        };
        cclamp(c2)
    }
}

/// The mirror-reflection direction: the normalized incoming direction
/// reflected about the surface normal.
pub open spec fn reflect_dir_s(d: V3, n: V3) -> V3 {
    let rdn = vnormalize_t(d);
    vadd(rdn, vscale(n, fmul(-2 * SCALE, dot(rdn, n))))
}

/// The color of a ray: background on a miss, else the lights' fold plus,
/// at the top level only, one mirror reflection bounce.  A pure function
/// of the scene, the ray and the light jitter.
#[verifier::opaque]
pub open spec fn shade_s(s: Scene, o: V3, d: V3, shift: Option<(int, int)>, depth: int) -> C3
    decreases
        (if depth == 0 {
            1int
        } else {
            0int
        }),
{
    let found = closest_hit_fold(s.objects@, o, d, s.objects@.len() as int);
    if found.0.t == BOUND as int {
        s.background_color@
    } else {
        let hp = ray_point(o, d, found.0.t);
        let base = shade_lights(s, found.0, found.1, hp, shift, s.lights@.len() as int);
        if depth == 0 && found.1.reflection_strength > 0 {
            let refl = reflect_dir_s(d, found.0.normal);
            let ro = vadd(hp, vscale(refl, MIN_RAY_T as int));
            let rc = shade_s(s, ro, refl, shift, depth + 1);
            let refl_avg = cadd(
                C3 { r: 0, g: 0, b: 0 },
                cscale(rc, fdiv(SCALE as int, SCALE as int)),
            );
            cadd(base, cscale(refl_avg, found.1.reflection_strength))
        } else {
            base
        }
    }
}

/// The helper axis for the glossy frame: the first non-degenerate of the
/// three candidate perpendicular constructions, normalized.
pub open spec fn glossy_basis_u(refl: V3) -> V3 {
    let c1 = v3(0, -refl.z, refl.y);
    let c2 = v3(-refl.z, 0, refl.x);
    let c3 = v3(-refl.y, refl.x, 0);
    vnormalize_t(
        if norm_sq(c1) != 0 {
            c1
        } else if norm_sq(c2) != 0 {
            c2
        } else {
            c3
        },
    )
}

/// The equal-weight accumulation of the first `i` cone-sampled reflection
/// rays: each jitter pair weights the frame axes by `glossiness * (x - 1/2)`
/// and the recursively traced color joins with weight one tenth.
pub open spec fn glossy_fold(
    s: Scene,
    ro: V3,
    refl: V3,
    u: V3,
    v: V3,
    g: int,
    shift: Option<(int, int)>,
    js: Seq<(int, int)>,
    depth: int,
    i: int,
) -> C3
    decreases i,
{
    if i <= 0 {
        C3 { r: 0, g: 0, b: 0 }
    } else {
        let prev = glossy_fold(s, ro, refl, u, v, g, shift, js, depth, i - 1);
        let uw = fmul(g, fsub(js[i - 1].0, SCALE as int / 2));
        let vw = fmul(g, fsub(js[i - 1].1, SCALE as int / 2));
        let dir = vadd(vadd(refl, vscale(u, uw)), vscale(v, vw));
        cadd(
            prev,
            cscale(
                shade_s(s, ro, dir, shift, depth + 1),
                fdiv(SCALE as int, clip(10 * SCALE as int)),
            ),
        )
    }
}

/// A valid sequence of glossy cone jitters: one pair per sample, each
/// component drawn from `[0, 1)`.
pub open spec fn jitters_ok(js: Seq<(int, int)>) -> bool {
    &&& js.len() == NUM_GLOSSY_REFL_RAYS
    &&& forall|k: int|
        0 <= k < js.len() ==> 0 <= (#[trigger] js[k]).0 < SCALE as int && 0 <= js[k].1
            < SCALE as int
}

/// The color of a ray for a given light jitter and a given sequence of
/// glossy cone jitters: as `shade_s`, except that a glossy material's
/// reflection is the clamped equal-weight average of the ten cone samples
/// the jitters describe.
#[verifier::opaque]
pub open spec fn shade_with_jitters(
    s: Scene,
    o: V3,
    d: V3,
    shift: Option<(int, int)>,
    js: Seq<(int, int)>,
    depth: int,
) -> C3 {
    let found = closest_hit_fold(s.objects@, o, d, s.objects@.len() as int);
    if found.0.t == BOUND as int {
        s.background_color@
    } else {
        let hp = ray_point(o, d, found.0.t);
        let base = shade_lights(s, found.0, found.1, hp, shift, s.lights@.len() as int);
        if depth == 0 && found.1.reflection_strength > 0 {
            let refl = reflect_dir_s(d, found.0.normal);
            let ro = vadd(hp, vscale(refl, MIN_RAY_T as int));
            let rc = if found.1.reflection_glossiness > 0 {
                let u = glossy_basis_u(refl);
                let v = vnormalize_t(cross(refl, u));
                glossy_fold(
                    s,
                    ro,
                    refl,
                    u,
                    v,
                    found.1.reflection_glossiness,
                    shift,
                    js,
                    depth,
                    js.len() as int,
                )
            } else {
                cadd(
                    C3 { r: 0, g: 0, b: 0 },
                    cscale(
                        shade_s(s, ro, refl, shift, depth + 1),
                        fdiv(SCALE as int, SCALE as int),
                    ),
                )
            };
            cadd(base, cscale(rc, found.1.reflection_strength))
        } else {
            base
        }
    }
}

/// The color of a pixel from one centered ray, for a given light jitter.
#[verifier::opaque]
pub open spec fn pixel_shifted_s(s: Scene, i: int, j: int, shift: Option<(int, int)>) -> C3 {
    let px = fadd(clip(i * SCALE), SCALE as int / 2);
    let py = fadd(clip(j * SCALE), SCALE as int / 2);
    let ray = generate_ray_s(s.camera, px, py);
    cadd(
        C3 { r: 0, g: 0, b: 0 },
        cscale(shade_s(s, ray.origin, ray.dir, shift, 0), fdiv(SCALE as int, SCALE as int)),
    )
}

/// The fully deterministic pixel: one centered ray, no jitter.
pub open spec fn pixel_det_s(s: Scene, i: int, j: int) -> C3 {
    pixel_shifted_s(s, i, j, Option::None)
}

/// A valid sequence of supersampling jitters: one pair per grid cell,
/// each component drawn from `[0, 1)`.
pub open spec fn ss_jitters_ok(js: Seq<(int, int)>) -> bool {
    &&& js.len() == NUM_DIST_RT_SAMPLES * NUM_DIST_RT_SAMPLES
    &&& forall|k: int|
        0 <= k < js.len() ==> 0 <= (#[trigger] js[k]).0 < SCALE as int && 0 <= js[k].1
            < SCALE as int
}

/// The supersampled pixel: the clamped 1/25-weighted accumulation of the
/// first `k` grid rays.  Cell `(p0, p1)` casts its ray at
/// `(i + p0/5 + x/5, j + p1/5 + y/5)` for the cell's pixel jitter `(x, y)`,
/// and when soft shadows are on it shifts the lights by the cell's light
/// jitter scaled the same way.
pub open spec fn ss_pixel_fold(
    s: Scene,
    i: int,
    j: int,
    soft: bool,
    pj: Seq<(int, int)>,
    sj: Seq<(int, int)>,
    k: int,
) -> C3
    decreases k,
{
    if k <= 0 {
        C3 { r: 0, g: 0, b: 0 }
    } else {
        let prev = ss_pixel_fold(s, i, j, soft, pj, sj, k - 1);
        let p0 = (k - 1) / 5;
        let p1 = (k - 1) % 5;
        let n5 = clip(5 * SCALE as int);
        let px = fadd(
            clip(i * SCALE as int),
            fadd(fdiv(clip(p0 * SCALE as int), n5), fdiv(pj[k - 1].0, n5)),
        );
        let py = fadd(
            clip(j * SCALE as int),
            fadd(fdiv(clip(p1 * SCALE as int), n5), fdiv(pj[k - 1].1, n5)),
        );
        let ray = generate_ray_s(s.camera, px, py);
        let shift = if soft {
            Option::Some(
                (
                    fadd(fdiv(clip(p0 * SCALE as int), n5), fdiv(sj[k - 1].0, n5)),
                    fadd(fdiv(clip(p1 * SCALE as int), n5), fdiv(sj[k - 1].1, n5)),
                ),
            )
        } else {
            Option::None
        };
        cadd(
            prev,
            cscale(
                shade_s(s, ray.origin, ray.dir, shift, 0),
                fdiv(SCALE as int, clip(25 * SCALE as int)),
            ),
        )
    }
}

/// The supersampled accumulation over the first `k` cells reads only the
/// first `k` jitters, so extending the sequences does not change it.
proof fn lemma_ss_fold_prefix(
    s: Scene,
    i: int,
    j: int,
    soft: bool,
    pj1: Seq<(int, int)>,
    sj1: Seq<(int, int)>,
    pj2: Seq<(int, int)>,
    sj2: Seq<(int, int)>,
    k: int,
)
    requires
        k <= pj1.len(),
        k <= sj1.len(),
        pj1.len() <= pj2.len(),
        sj1.len() <= sj2.len(),
        forall|x: int| 0 <= x < pj1.len() ==> pj1[x] == pj2[x],
        forall|x: int| 0 <= x < sj1.len() ==> sj1[x] == sj2[x],
    ensures
        ss_pixel_fold(s, i, j, soft, pj1, sj1, k) == ss_pixel_fold(s, i, j, soft, pj2, sj2, k),
    decreases k,
{
    if k > 0 {
        lemma_ss_fold_prefix(s, i, j, soft, pj1, sj1, pj2, sj2, k - 1);
    }
}

/// The index of the closest surface along the first `i`, with the running
/// minimum parameter.
pub open spec fn obj_idx_fold(objs: Seq<Surface>, o: V3, d: V3, i: int) -> (Option<int>, int)
    decreases i,
{
    if i <= 0 {
        (Option::None, BOUND as int)
    } else {
        let prev = obj_idx_fold(objs, o, d, i - 1);
        match surface_hit_s(objs[i - 1], o, d) {
            Option::Some(h) => {
                if h.t < prev.1 {
                    (Option::Some(i - 1), h.t)
                } else {
                    prev
                }
            },
            Option::None => prev,
        }
    }
}

/// The glossy accumulation over the first `i` samples reads only the
/// first `i` jitters, so extending the sequence does not change it.
proof fn lemma_glossy_fold_prefix(
    s: Scene,
    ro: V3,
    refl: V3,
    u: V3,
    v: V3,
    g: int,
    shift: Option<(int, int)>,
    js1: Seq<(int, int)>,
    js2: Seq<(int, int)>,
    depth: int,
    i: int,
)
    requires
        i <= js1.len(),
        js1.len() <= js2.len(),
        forall|k: int| 0 <= k < js1.len() ==> js1[k] == js2[k],
    ensures
        glossy_fold(s, ro, refl, u, v, g, shift, js1, depth, i) == glossy_fold(
            s,
            ro,
            refl,
            u,
            v,
            g,
            shift,
            js2,
            depth,
            i,
        ),
    decreases i,
{
    if i > 0 {
        lemma_glossy_fold_prefix(s, ro, refl, u, v, g, shift, js1, js2, depth, i - 1);
    }
}

/// All surfaces in a glossless scene keep the closest-hit fold glossless.
proof fn lemma_fold_glossless(objs: Seq<Surface>, o: V3, d: V3, i: int)
    requires
        glossless(objs),
        i <= objs.len(),
    ensures
        closest_hit_fold(objs, o, d, i).1.reflection_glossiness == 0,
    decreases i,
{
    if i > 0 {
        lemma_fold_glossless(objs, o, d, i - 1);
    }
}

/// Relies on rand's `Rng::gen_range` (through the thread-local generator):
/// the sample lies in the half-open range it was drawn from; nothing else
/// is promised of it.
#[verifier::external_body]
fn sample_unit() -> (r: Fx)
    ensures
        0 <= r@ < SCALE as int,
{
    Fx::from_raw(rand::Rng::gen_range(&mut rand::thread_rng(), 0..SCALE))
}

/// The specular exponent: the 64th power by repeated squaring.
fn pow64(x: Fx) -> (r: Fx)
    ensures
        r@ == pow64_s(x@),
{
    let x2 = x.mul(x);
    let x4 = x2.mul(x2);
    let x8 = x4.mul(x4);
    let x16 = x8.mul(x8);
    let x32 = x16.mul(x16);
    x32.mul(x32)
}

impl Scene {
    /// The object a pixel shows, as an index into the surface list.
    pub fn get_object_idx_at_pixel(&self, i: u32, j: u32) -> (r: Option<usize>)
        requires
            scene_wf(*self),
        ensures
            ({
                let ray = generate_ray_s(self.camera, clip(i * SCALE), clip(j * SCALE));
                let fold = obj_idx_fold(self.objects@, ray.origin, ray.dir,
                    self.objects@.len() as int);
                match r {
                    Option::None => fold.0 is None,
                    Option::Some(k) => fold.0 == Option::Some(k as int),
                }
            }),
    {
        let ray = self.camera.generate_ray(Fx::from_int(i as i64), Fx::from_int(j as i64));
        let mut closest_obj_idx: Option<usize> = Option::None;
        let mut min_t = Fx::from_raw(BOUND);
        let mut idx: usize = 0;
        while idx < self.objects.len()
            invariant
                scene_wf(*self),
                idx <= self.objects@.len(),
                ({
                    let fold = obj_idx_fold(
                        self.objects@,
                        generate_ray_s(self.camera, clip(i * SCALE), clip(j * SCALE)).origin,
                        generate_ray_s(self.camera, clip(i * SCALE), clip(j * SCALE)).dir,
                        idx as int,
                    );
                    &&& min_t@ == fold.1
                    &&& (match closest_obj_idx {
                        Option::None => fold.0 is None,
                        Option::Some(k) => fold.0 == Option::Some(k as int),
                    })
                }),
                ray.origin@ == generate_ray_s(self.camera, clip(i * SCALE), clip(j * SCALE)).origin,
                ray.direction@ == generate_ray_s(self.camera, clip(i * SCALE), clip(j * SCALE)).dir,
            decreases self.objects@.len() - idx,
        {
            match self.objects[idx].compute_hit(&ray) {
                Option::Some(hit) => {
                    if hit.t.lt(min_t) {
                        closest_obj_idx = Option::Some(idx);
                        min_t = hit.t;
                    }
                },
                Option::None => {},
            }
            idx = idx + 1;
        }
        closest_obj_idx
    }

    /// Traces one ray: finds the closest surface, accumulates ambient,
    /// diffuse and specular per light (clamping after each light), then
    /// adds one level of reflection.  Every channel of the result lies in
    /// `[0, 1]`; without glossy materials (or below the top level, which
    /// never reflects) the result is exactly the shade determined by the
    /// scene, the ray and the light jitter, and in every case it is the
    /// jittered shade for some sequence of drawn cone samples.
    #[verifier::rlimit(80)]
    pub fn compute_ray_color(&self, ray_camera: &Ray, ray_options: RayOptions) -> (r: Color)
        requires
            scene_wf(*self),
        ensures
            color_in_range(r@),
            closest_hit_fold(self.objects@, ray_camera.origin@, ray_camera.direction@,
                self.objects@.len() as int).0.t == BOUND as int ==> r@ == self.background_color@,
            ray_options.depth != 0 || glossless(self.objects@) ==> r@ == shade_s(
                *self,
                ray_camera.origin@,
                ray_camera.direction@,
                shift_view(ray_options.light_shift),
                ray_options.depth as int,
            ),
            exists|js: Seq<(int, int)>|
                jitters_ok(js) && r@ == #[trigger] shade_with_jitters(
                    *self,
                    ray_camera.origin@,
                    ray_camera.direction@,
                    shift_view(ray_options.light_shift),
                    js,
                    ray_options.depth as int,
                ),
        decreases
            (if ray_options.depth == 0 {
                1int
            } else {
                0int
            }),
    {
        proof {
            reveal(crate::scene::shade_s);
            reveal(crate::scene::shade_lights);
        }
        let ghost o = ray_camera.origin@;
        let ghost d = ray_camera.direction@;
        let ghost shift_g = shift_view(ray_options.light_shift);
        let ghost mut js_g: Seq<(int, int)> = Seq::new(
            NUM_GLOSSY_REFL_RAYS as nat,
            |k: int| (0int, 0int),
        );
        let mut hit = Hit::inf();
        let mut vis = VisualData::zero();
        let mut idx: usize = 0;
        while idx < self.objects.len()
            invariant
                scene_wf(*self),
                idx <= self.objects@.len(),
                (hit@, vis@) == closest_hit_fold(self.objects@, o, d, idx as int),
                o == ray_camera.origin@,
                d == ray_camera.direction@,
            decreases self.objects@.len() - idx,
        {
            match self.objects[idx].compute_hit(ray_camera) {
                Option::Some(another_hit) => {
                    if another_hit.t.lt(hit.t) {
                        vis = self.objects[idx].get_visual_data();
                        hit = another_hit;
                    }
                },
                Option::None => {},
            }
            idx = idx + 1;
        }
        if hit.t.raw() == BOUND {
            proof {
                reveal(crate::scene::shade_with_jitters);
                assert(forall|k: int|
                    0 <= k < js_g.len() ==> (#[trigger] js_g[k]) == (0int, 0int));
                assert(jitters_ok(js_g));
                assert(self.background_color@ == shade_with_jitters(
                    *self,
                    ray_camera.origin@,
                    ray_camera.direction@,
                    shift_view(ray_options.light_shift),
                    js_g,
                    ray_options.depth as int,
                ));
            }
            return self.background_color;
        }
        let mut color = vis.color.scale(self.ambient_strength);
        let hit_point = ray_camera.compute_point(hit.t);
        let eps = Fx::from_raw(MIN_RAY_T);
        let mut li: usize = 0;
        while li < self.lights.len()
            invariant
                scene_wf(*self),
                li <= self.lights@.len(),
                (hit@, vis@) == closest_hit_fold(self.objects@, o, d, self.objects@.len() as int),
                hit_point@ == ray_point(o, d, hit@.t),
                shift_g == shift_view(ray_options.light_shift),
                color_in_range(color@),
                color@ == shade_lights(*self, hit@, vis@, hit_point@, shift_g, li as int),
                eps@ == MIN_RAY_T as int,
            decreases self.lights@.len() - li,
        {
            proof {
                reveal(crate::scene::shade_lights);
            }
            let light = self.lights[li];
            let light_location: Point = match ray_options.light_shift {
                Option::Some(shift) => light.location.add_vec(
                    &light.right.scale(shift.0).add(&light.top.scale(shift.1)),
                ),
                Option::None => light.location,
            };
            let to_light = light_location.sub(&hit_point);
            let distance_to_light = to_light.norm();
            let light_dir = to_light.normalize_safe();
            let shadow_ray = Ray {
                origin: hit_point.add_vec(&light_dir.scale(eps)),
                direction: light_dir,
            };
            let mut is_in_shadow = false;
            let mut oi: usize = 0;
            while oi < self.objects.len()
                invariant
                    scene_wf(*self),
                    oi <= self.objects@.len(),
                    shadow_ray.origin@ == vadd(hit_point@, vscale(light_dir@, MIN_RAY_T as int)),
                    shadow_ray.direction@ == light_dir@,
                    is_in_shadow == shadowed_fold(self.objects@, shadow_ray.origin@, light_dir@,
                        distance_to_light@, oi as int),
                decreases self.objects@.len() - oi,
            {
                match self.objects[oi].compute_hit(&shadow_ray) {
                    Option::Some(h) => {
                        if h.t.lt(distance_to_light) {
                            is_in_shadow = true;
                        }
                    },
                    Option::None => {},
                }
                oi = oi + 1;
            }
            if !is_in_shadow {
                let diffuse_cos = hit.normal.dot_product(&light_dir.normalize_safe()).max(
                    Fx::zero(),
                );
                let diffuse_light_color = light.color.scale(
                    diffuse_cos.mul(self.diffuse_strength),
                );
                color = color.add(&diffuse_light_color);
            }
            if !is_in_shadow && Fx::zero().lt(vis.specular_strength) {
                let eye_dir = self.camera.origin.sub(&hit_point).normalize_safe();
                let half_vector = eye_dir.add(&light_dir).normalize_safe();
                let spec_strength = vis.specular_strength.mul(
                    pow64(hit.normal.dot_product(&half_vector).max(Fx::zero())),
                );
                let spec_color = light.color.scale(spec_strength);
                color = color.add(&spec_color);
            }
            color = color.clamp();
            li = li + 1;
        }
        if ray_options.depth == 0 && Fx::zero().lt(vis.reflection_strength) {
            proof {
                if glossless(self.objects@) {
                    lemma_fold_glossless(self.objects@, o, d, self.objects@.len() as int);
                }
            }
            let ray_dir_normalized = ray_camera.direction.normalize_safe();
            let reflection_dir = ray_dir_normalized.add(
                &hit.normal.scale(
                    Fx::from_int(-2).mul(ray_dir_normalized.dot_product(&hit.normal)),
                ),
            );
            let reflection_origin = hit_point.add_vec(&reflection_dir.scale(eps));
            let mut reflection_color = Color::zero();
            if Fx::zero().lt(vis.reflection_glossiness) {
                // Build an orthonormal frame around the mirror direction;
                // the helper axis must not be parallel to it, so several
                // candidates are tried.
                let mut u = Vec3::new(
                    Fx::zero(),
                    reflection_dir.z.neg(),
                    reflection_dir.y,
                );
                if u.norm_squared().is_zero() {
                    u = Vec3::new(reflection_dir.z.neg(), Fx::zero(), reflection_dir.x);
                }
                if u.norm_squared().is_zero() {
                    u = Vec3::new(reflection_dir.y.neg(), reflection_dir.x, Fx::zero());
                }
                let u = u.normalize_safe();
                let v = reflection_dir.cross_product(&u).normalize_safe();
                proof {
                    assert(10int * SCALE as int == 10485760) by (nonlinear_arith);
                    assert(u@ == glossy_basis_u(reflection_dir@));
                    assert(v@ == vnormalize_t(cross(reflection_dir@, u@)));
                    js_g = Seq::empty();
                }
                let inv = Fx::one().div(Fx::from_int(NUM_GLOSSY_REFL_RAYS as i64));
                let half_unit = Fx::from_raw(SCALE / 2);
                let mut gi: u32 = 0;
                while gi < NUM_GLOSSY_REFL_RAYS
                    invariant
                        scene_wf(*self),
                        ray_options.depth == 0,
                        color_in_range(reflection_color@),
                        o == ray_camera.origin@,
                        d == ray_camera.direction@,
                        shift_g == shift_view(ray_options.light_shift),
                        half_unit@ == SCALE as int / 2,
                        inv@ == fdiv(SCALE as int, clip(10 * SCALE as int)),
                        gi <= NUM_GLOSSY_REFL_RAYS,
                        js_g.len() == gi as int,
                        forall|k: int|
                            0 <= k < js_g.len() ==> 0 <= (#[trigger] js_g[k]).0 < SCALE as int
                                && 0 <= js_g[k].1 < SCALE as int,
                        reflection_origin@ == vadd(hit_point@, vscale(reflection_dir@,
                            MIN_RAY_T as int)),
                        reflection_color@ == glossy_fold(
                            *self,
                            reflection_origin@,
                            reflection_dir@,
                            u@,
                            v@,
                            vis@.reflection_glossiness,
                            shift_g,
                            js_g,
                            ray_options.depth as int,
                            gi as int,
                        ),
                    decreases NUM_GLOSSY_REFL_RAYS - gi,
                {
                    let xs = sample_unit();
                    let ys = sample_unit();
                    let ghost js_prev = js_g;
                    proof {
                        js_g = js_g.push((xs@, ys@));
                    }
                    let u_weight = vis.reflection_glossiness.mul(xs.sub(half_unit));
                    let v_weight = vis.reflection_glossiness.mul(ys.sub(half_unit));
                    let jittered = Ray {
                        origin: reflection_origin,
                        direction: reflection_dir.add(&u.scale(u_weight)).add(
                            &v.scale(v_weight),
                        ),
                    };
                    let sample_color = self.compute_ray_color(
                        &jittered,
                        ray_options.increment_depth(),
                    );
                    reflection_color = reflection_color.add(&sample_color.scale(inv));
                    proof {
                        assert(js_g[gi as int] == (xs@, ys@));
                        assert(glossy_fold(
                            *self,
                            reflection_origin@,
                            reflection_dir@,
                            u@,
                            v@,
                            vis@.reflection_glossiness,
                            shift_g,
                            js_prev,
                            ray_options.depth as int,
                            gi as int,
                        ) == glossy_fold(
                            *self,
                            reflection_origin@,
                            reflection_dir@,
                            u@,
                            v@,
                            vis@.reflection_glossiness,
                            shift_g,
                            js_g,
                            ray_options.depth as int,
                            gi as int,
                        )) by {
                            lemma_glossy_fold_prefix(
                                *self,
                                reflection_origin@,
                                reflection_dir@,
                                u@,
                                v@,
                                vis@.reflection_glossiness,
                                shift_g,
                                js_prev,
                                js_g,
                                ray_options.depth as int,
                                gi as int,
                            );
                        }
                    }
                    gi = gi + 1;
                }
            } else {
                let reflection_ray = Ray {
                    origin: reflection_origin,
                    direction: reflection_dir,
                };
                let reflected = self.compute_ray_color(
                    &reflection_ray,
                    ray_options.increment_depth(),
                );
                reflection_color = reflection_color.add(
                    &reflected.scale(Fx::one().div(Fx::from_int(1))),
                );
            }
            color = color.add(&reflection_color.scale(vis.reflection_strength));
        }
        proof {
            reveal(crate::scene::shade_with_jitters);
            assert(forall|k: int|
                0 <= k < js_g.len() ==> 0 <= (#[trigger] js_g[k]).0 < SCALE as int
                    && 0 <= js_g[k].1 < SCALE as int);
            if ray_options.depth == 0 && glossless(self.objects@) {
                lemma_fold_glossless(self.objects@, o, d, self.objects@.len() as int);
            }
            assert(jitters_ok(js_g));
            assert(color@ == shade_with_jitters(
                *self,
                ray_camera.origin@,
                ray_camera.direction@,
                shift_view(ray_options.light_shift),
                js_g,
                ray_options.depth as int,
            ));
        }
        color
    }

    /// The color of a pixel: one centered ray, or an averaged grid of
    /// rays jittered within their sub-cells when supersampling is on; soft
    /// shadows draw a light jitter per ray.
    pub fn compute_pixel(&self, i: u32, j: u32, render_options: &RenderOptions) -> (r: Color)
        requires
            scene_wf(*self),
        ensures
            color_in_range(r@),
            !render_options.use_supersampling && !render_options.use_soft_shadows && glossless(
                self.objects@,
            ) ==> r@ == pixel_det_s(*self, i as int, j as int),
            !render_options.use_supersampling && render_options.use_soft_shadows && glossless(
                self.objects@,
            ) ==> exists|sa: int, sb: int|
                0 <= sa < SCALE as int && 0 <= sb < SCALE as int && r@ == pixel_shifted_s(
                    *self,
                    i as int,
                    j as int,
                    Option::Some((sa, sb)),
                ),
            render_options.use_supersampling && glossless(self.objects@) ==> exists|
                pj: Seq<(int, int)>,
                sj: Seq<(int, int)>,
            |
                ss_jitters_ok(pj) && ss_jitters_ok(sj) && r@ == #[trigger] ss_pixel_fold(
                    *self,
                    i as int,
                    j as int,
                    render_options.use_soft_shadows,
                    pj,
                    sj,
                    25,
                ),
    {
        proof {
            reveal(crate::scene::pixel_shifted_s);
        }
        let half_unit = Fx::from_raw(SCALE / 2);
        if render_options.use_supersampling {
            let ghost soft = render_options.use_soft_shadows;
            let ghost mut pj: Seq<(int, int)> = Seq::empty();
            let ghost mut sj: Seq<(int, int)> = Seq::empty();
            let mut acc = Color::zero();
            let mut p0: u32 = 0;
            while p0 < NUM_DIST_RT_SAMPLES
                invariant
                    scene_wf(*self),
                    color_in_range(acc@),
                    p0 <= NUM_DIST_RT_SAMPLES,
                    soft == render_options.use_soft_shadows,
                    pj.len() == p0 * 5,
                    sj.len() == p0 * 5,
                    forall|k: int|
                        0 <= k < pj.len() ==> 0 <= (#[trigger] pj[k]).0 < SCALE as int
                            && 0 <= pj[k].1 < SCALE as int,
                    forall|k: int|
                        0 <= k < sj.len() ==> 0 <= (#[trigger] sj[k]).0 < SCALE as int
                            && 0 <= sj[k].1 < SCALE as int,
                    glossless(self.objects@) ==> acc@ == ss_pixel_fold(
                        *self,
                        i as int,
                        j as int,
                        soft,
                        pj,
                        sj,
                        p0 as int * 5,
                    ),
                decreases NUM_DIST_RT_SAMPLES - p0,
            {
                let mut p1: u32 = 0;
                while p1 < NUM_DIST_RT_SAMPLES
                    invariant
                        scene_wf(*self),
                        color_in_range(acc@),
                        p0 < NUM_DIST_RT_SAMPLES,
                        p1 <= NUM_DIST_RT_SAMPLES,
                        soft == render_options.use_soft_shadows,
                        pj.len() == p0 * 5 + p1,
                        sj.len() == p0 * 5 + p1,
                        forall|k: int|
                            0 <= k < pj.len() ==> 0 <= (#[trigger] pj[k]).0 < SCALE as int
                                && 0 <= pj[k].1 < SCALE as int,
                        forall|k: int|
                            0 <= k < sj.len() ==> 0 <= (#[trigger] sj[k]).0 < SCALE as int
                                && 0 <= sj[k].1 < SCALE as int,
                        glossless(self.objects@) ==> acc@ == ss_pixel_fold(
                            *self,
                            i as int,
                            j as int,
                            soft,
                            pj,
                            sj,
                            p0 as int * 5 + p1 as int,
                        ),
                    decreases NUM_DIST_RT_SAMPLES - p1,
                {
                    proof {
                        assert(5int * SCALE as int == 5242880) by (nonlinear_arith);
                        assert(25int * SCALE as int == 26214400) by (nonlinear_arith);
                    }
                    let n = Fx::from_int(NUM_DIST_RT_SAMPLES as i64);
                    let inv = Fx::one().div(
                        Fx::from_int((NUM_DIST_RT_SAMPLES * NUM_DIST_RT_SAMPLES) as i64),
                    );
                    let px_jitter = sample_unit();
                    let py_jitter = sample_unit();
                    let ghost pj_prev = pj;
                    let ghost sj_prev = sj;
                    proof {
                        pj = pj.push((px_jitter@, py_jitter@));
                    }
                    let ray = self.camera.generate_ray(
                        Fx::from_int(i as i64).add(
                            Fx::from_int(p0 as i64).div(n).add(px_jitter.div(n)),
                        ),
                        Fx::from_int(j as i64).add(
                            Fx::from_int(p1 as i64).div(n).add(py_jitter.div(n)),
                        ),
                    );
                    let shift: Option<(Fx, Fx)> = if render_options.use_soft_shadows {
                        let sx = sample_unit();
                        let sy = sample_unit();
                        proof {
                            sj = sj.push((sx@, sy@));
                        }
                        Option::Some(
                            (
                                Fx::from_int(p0 as i64).div(n).add(sx.div(n)),
                                Fx::from_int(p1 as i64).div(n).add(sy.div(n)),
                            ),
                        )
                    } else {
                        proof {
                            sj = sj.push((0int, 0int));
                        }
                        Option::None
                    };
                    let c = self.compute_ray_color(
                        &ray,
                        RayOptions { depth: 0, light_shift: shift },
                    );
                    acc = acc.add(&c.scale(inv));
                    proof {
                        let kk = p0 as int * 5 + p1 as int;
                        assert((kk + 1 - 1) / 5 == p0 as int && (kk + 1 - 1) % 5 == p1 as int)
                            by (nonlinear_arith)
                            requires
                                kk == p0 as int * 5 + p1 as int,
                                0 <= p1 < 5,
                                0 <= p0,
                        ;
                        if glossless(self.objects@) {
                            lemma_ss_fold_prefix(
                                *self,
                                i as int,
                                j as int,
                                soft,
                                pj_prev,
                                sj_prev,
                                pj,
                                sj,
                                kk,
                            );
                            assert(acc@ == ss_pixel_fold(
                                *self,
                                i as int,
                                j as int,
                                soft,
                                pj,
                                sj,
                                kk + 1,
                            ));
                        }
                    }
                    p1 = p1 + 1;
                }
                p0 = p0 + 1;
            }
            proof {
                if glossless(self.objects@) {
                    assert(ss_jitters_ok(pj));
                    assert(ss_jitters_ok(sj));
                    assert(acc@ == ss_pixel_fold(
                        *self,
                        i as int,
                        j as int,
                        render_options.use_soft_shadows,
                        pj,
                        sj,
                        25,
                    ));
                }
            }
            acc
        } else {
            let ray = self.camera.generate_ray(
                Fx::from_int(i as i64).add(half_unit),
                Fx::from_int(j as i64).add(half_unit),
            );
            if render_options.use_soft_shadows {
                let s0 = sample_unit();
                let s1 = sample_unit();
                let c = self.compute_ray_color(
                    &ray,
                    RayOptions { depth: 0, light_shift: Option::Some((s0, s1)) },
                );
                let out = Color::zero().add(&c.scale(Fx::one().div(Fx::from_int(1))));
                proof {
                    if glossless(self.objects@) {
                        assert(out@ == pixel_shifted_s(
                            *self,
                            i as int,
                            j as int,
                            Option::Some((s0@, s1@)),
                        ));
                    }
                }
                out
            } else {
                let c = self.compute_ray_color(
                    &ray,
                    RayOptions { depth: 0, light_shift: Option::None },
                );
                Color::zero().add(&c.scale(Fx::one().div(Fx::from_int(1))))
            }
        }
    }
}

} // verus!

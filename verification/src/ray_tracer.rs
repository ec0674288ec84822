//! Render configuration: per-ray options, camera placement options, and the
//! frame-level render options.

use vstd::prelude::*;

use crate::basics::{Vec3, v3, vnorm, norm_sq};
use crate::fixed::{Fx, SCALE, HALF_PI_FX};
use crate::matrix::{
    Transformation, lookat_s, lookat_dir_raw, lookat_right_raw, lookat_up_raw,
};

verus! {

/// Options carried along one traced ray: the recursion depth and, when soft
/// shadows are sampled, the current jitter across the area light.
#[derive(Clone, Copy, Debug)]
pub struct RayOptions {
    pub depth: u32,
    pub light_shift: Option<(Fx, Fx)>,
}

impl RayOptions {
    pub fn from_depth(depth: u32) -> (r: RayOptions)
        ensures
            r.depth == depth,
            r.light_shift is None,
    {
        RayOptions { depth, light_shift: Option::None }
    }

    pub fn increment_depth(self) -> (r: RayOptions)
        requires
            self.depth < 0xffffffff,
        ensures
            r.depth == self.depth + 1,
            r.light_shift == self.light_shift,
    {
        RayOptions { depth: self.depth + 1, light_shift: self.light_shift }
    }
}

/// Camera placement: a position and a yaw/pitch orientation.
#[derive(Clone, Copy, Debug)]
pub struct CameraOptions {
    pub pitch: Fx,
    pub yaw: Fx,
    pub position: Vec3,
}

impl CameraOptions {
    /// The orientation admits a look-at basis (no degenerate
    /// normalization).
    pub open spec fn orientation_ok(self) -> bool {
        &&& vnorm(lookat_dir_raw(self.yaw@, self.pitch@)) != 0
        &&& vnorm(lookat_right_raw(self.yaw@, self.pitch@)) != 0
        &&& vnorm(lookat_up_raw(self.yaw@, self.pitch@)) != 0
    }

    /// Checks `orientation_ok` at run time, for callers that receive the
    /// orientation from outside.
    pub fn check_orientation(&self) -> (r: bool)
        ensures
            r == self.orientation_ok(),
    {
        let dir_raw = Vec3::new(
            self.yaw.cos().mul(self.pitch.cos()),
            self.pitch.sin(),
            self.yaw.sin().mul(self.pitch.cos()),
        );
        if dir_raw.norm().is_zero() {
            return false;
        }
        let dir = dir_raw.normalize();
        let right_raw = Vec3::new(Fx::zero(), Fx::one(), Fx::zero()).cross_product(&dir);
        if right_raw.norm().is_zero() {
            return false;
        }
        let up_raw = dir.cross_product(&right_raw.normalize());
        !up_raw.norm().is_zero()
    }

    /// The world-to-camera transform for this placement.
    pub fn compute_lookat(&self) -> (r: Transformation)
        requires
            self.orientation_ok(),
        ensures
            r@ == lookat_s(self.position@, self.yaw@, self.pitch@),
    {
        Transformation::create_look_at(&self.position, self.yaw, self.pitch)
    }
}

/// Frame-level options: projection, camera placement, per-object
/// placements, material strengths, and the feature toggles.
#[derive(Clone, Debug)]
pub struct RenderOptions {
    pub projection_type: crate::camera::ProjectionType,
    pub number_of_lights: u32,
    pub camera_opts: CameraOptions,
    pub selected_pixel: Option<(u32, u32)>,
    pub selected_object_idx: Option<usize>,
    pub object_transformations: Vec<Transformation>,
    pub simple_teapot_transformation: Transformation,
    pub teaset_transformations: Vec<Transformation>,
    pub specular_strengths: Vec<Fx>,
    pub spheres_fly_radius: Fx,
    pub spheres_fly_speed: Fx,
    pub fov: Fx,
    pub ray_opts: RayOptions,
    pub reflection_glossiness: Fx,
    pub use_soft_shadows: bool,
    pub use_supersampling: bool,
}

impl RenderOptions {
    /// The default frame configuration: perspective projection, one light,
    /// both sampling features off, the camera seven units back looking
    /// toward the scene.
    pub fn defaults() -> (r: RenderOptions)
        ensures
            r.use_soft_shadows == false,
            r.use_supersampling == false,
            r.reflection_glossiness@ == 0,
            r.number_of_lights == 1,
            r.ray_opts.depth == 0,
            r.ray_opts.light_shift is None,
            r.fov@ == HALF_PI_FX as int,
            r.camera_opts.yaw@ == -HALF_PI_FX as int,
            r.camera_opts.pitch@ == 0,
            r.camera_opts.position@ == v3(0, 0, -7 * SCALE),
            r.object_transformations@.len() == 3,
            r.teaset_transformations@.len() == 3,
            r.specular_strengths@.len() == 5,
    {
        let half = Fx::from_raw(SCALE / 2);
        let mut object_transformations: Vec<Transformation> = Vec::new();
        object_transformations.push(Transformation::identity());
        object_transformations.push(
            Transformation::new(
                crate::matrix::Mat3::identity().mul_scalar(half),
                Vec3::new(Fx::from_int(-1), Fx::zero(), Fx::zero()),
            ),
        );
        object_transformations.push(
            Transformation::new(
                crate::matrix::Mat3::identity().mul_scalar(half),
                Vec3::new(Fx::one(), Fx::zero(), Fx::zero()),
            ),
        );
        let axis = Vec3::new(Fx::zero(), Fx::one(), Fx::zero());
        proof {
            lemma_unit_axis_norm_sq();
        }
        let spin = crate::matrix::Mat3::rotation(Fx::from_raw(-HALF_PI_FX), axis);
        let mut teaset_transformations: Vec<Transformation> = Vec::new();
        teaset_transformations.push(
            Transformation::new(
                spin.mul_mat(&crate::matrix::Mat3::identity().mul_scalar(half)),
                Vec3::new(Fx::from_raw(-1572864), Fx::from_raw(-1468006), Fx::zero()),
            ),
        );
        teaset_transformations.push(
            Transformation::new(
                crate::matrix::Mat3::identity().mul_scalar(half),
                Vec3::new(Fx::from_raw(524288), Fx::from_raw(-1468006), Fx::zero()),
            ),
        );
        teaset_transformations.push(
            Transformation::new(
                crate::matrix::Mat3::identity().mul_scalar(Fx::from_int(2)),
                Vec3::new(Fx::from_raw(2621440), Fx::from_raw(-1468006), Fx::zero()),
            ),
        );
        let mut specular_strengths: Vec<Fx> = Vec::new();
        let mut i: usize = 0;
        while i < 5
            invariant
                i <= 5,
                specular_strengths@.len() == i as int,
            decreases 5 - i,
        {
            specular_strengths.push(Fx::zero());
            i = i + 1;
        }
        RenderOptions {
            use_soft_shadows: false,
            use_supersampling: false,
            reflection_glossiness: Fx::zero(),
            ray_opts: RayOptions::from_depth(0),
            projection_type: crate::camera::ProjectionType::Perspective,
            number_of_lights: 1,
            selected_pixel: Option::None,
            selected_object_idx: Option::None,
            spheres_fly_radius: Fx::from_int(2),
            spheres_fly_speed: Fx::from_raw(314573),
            specular_strengths,
            fov: Fx::from_raw(HALF_PI_FX),
            camera_opts: CameraOptions {
                yaw: Fx::from_raw(-HALF_PI_FX),
                pitch: Fx::zero(),
                position: Vec3::new(Fx::zero(), Fx::zero(), Fx::from_int(-7)),
            },
            simple_teapot_transformation: Transformation::new(
                crate::matrix::Mat3::identity().mul_scalar(Fx::from_raw(104858)),
                Vec3::zero(),
            ),
            object_transformations,
            teaset_transformations,
        }
    }
}

/// The world up axis has a non-degenerate squared norm.
proof fn lemma_unit_axis_norm_sq()
    ensures
        norm_sq(v3(0, SCALE as int, 0)) == SCALE as int,
{
    assert(SCALE as int * SCALE as int == 1099511627776) by (nonlinear_arith);
    assert(1099511627776int / 1048576int == 1048576int) by (nonlinear_arith);
    assert(crate::fixed::tdiv(1099511627776, SCALE as int) == SCALE as int);
    assert(crate::fixed::fmul(SCALE as int, SCALE as int) == SCALE as int);
    assert(crate::fixed::fmul(0, 0) == 0) by {
        assert(0int / 1048576int == 0int) by (nonlinear_arith);
    }
}

} // verus!

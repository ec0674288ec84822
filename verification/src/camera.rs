//! Ray generation for perspective and parallel projection.

use vstd::prelude::*;

use crate::basics::{V3, v3, Vec3, Point, Ray, vadd, vscale};
use crate::fixed::{Fx, fadd, fsub, fmul, fdiv, cos_s, sin_s, clip, SCALE};

verus! {

#[derive(Clone, Copy, Debug)]
pub enum ProjectionType {
    Parallel,
    Perspective,
}

/// Ghost model of a generated ray.
pub ghost struct RayS {
    pub origin: V3,
    pub dir: V3,
}

/// The viewing plane spanned in front of the camera, derived from the field
/// of view and the image size.
#[derive(Clone, Copy, Debug)]
pub struct ViewingPlane {
    pub z: Fx,
    pub x_min: Fx,
    pub x_max: Fx,
    pub y_min: Fx,
    pub y_max: Fx,
    pub width: u32,
    pub height: u32,
}

/// Tangent of half the field of view: the vertical half-extent of the
/// viewing plane at distance one.
pub open spec fn fov_half_extent(fov: int) -> int {
    let half = fmul(fov, SCALE as int / 2);
    fdiv(sin_s(half), cos_s(half))
}

/// Plane coordinates of a pixel position: the minima plus the position's
/// fraction of the extents.
pub open spec fn uv_s(vp: ViewingPlane, i: int, j: int) -> (int, int) {
    let x_dist = fsub(vp.x_max@, vp.x_min@);
    let y_dist = fsub(vp.y_max@, vp.y_min@);
    let u = fadd(vp.x_min@, fdiv(fmul(x_dist, i), clip(vp.width as int * SCALE as int)));
    let v = fadd(vp.y_min@, fdiv(fmul(y_dist, j), clip(vp.height as int * SCALE as int)));
    (u, v)
}

impl ViewingPlane {
    pub open spec fn wf(self) -> bool {
        &&& self.width > 0
        &&& self.height > 0
    }

    /// Derives the plane from the field of view, the camera depth and the
    /// image size; the field of view must be well inside `(0, pi)`.
    pub fn from_fov(fov: Fx, z: Fx, width: u32, height: u32) -> (r: ViewingPlane)
        requires
            cos_s(fmul(fov@, SCALE as int / 2)) != 0,
            fov_half_extent(fov@) != 0,
            0 < width < 0x80000000,
            0 < height < 0x80000000,
        ensures
            r.width == width,
            r.height == height,
            r.wf(),
            r.y_max@ == fov_half_extent(fov@),
            r.y_min@ == -fov_half_extent(fov@),
            r.x_max@ == fdiv(
                fmul(fov_half_extent(fov@), clip(width as int * SCALE as int)),
                clip(height as int * SCALE as int),
            ),
            r.x_min@ == -r.x_max@,
            r.z@ == fadd(z@, fdiv(SCALE as int, fov_half_extent(fov@))),
    {
        let half = fov.mul(Fx::from_raw(SCALE / 2));
        let y_half = half.sin().div(half.cos());
        proof {
            lemma_dim_positive(width as int);
            lemma_dim_positive(height as int);
        }
        let x_half = y_half.mul(Fx::from_int(width as i64)).div(Fx::from_int(height as i64));
        ViewingPlane {
            z: z.add(Fx::one().div(y_half)),
            x_min: x_half.neg(),
            x_max: x_half,
            y_min: y_half.neg(),
            y_max: y_half,
            width,
            height,
        }
    }

    /// Maps a pixel position (in pixel units, fractional positions allowed)
    /// to plane coordinates.
    pub fn generate_uv_coords(&self, i: Fx, j: Fx) -> (r: (Fx, Fx))
        requires
            self.wf(),
            self.width < 0x80000000,
            self.height < 0x80000000,
        ensures
            r.0@ == uv_s(*self, i@, j@).0,
            r.1@ == uv_s(*self, i@, j@).1,
    {
        proof {
            lemma_dim_positive(self.width as int);
            lemma_dim_positive(self.height as int);
        }
        let x_dist = self.x_max.sub(self.x_min);
        let y_dist = self.y_max.sub(self.y_min);
        let u = self.x_min.add(x_dist.mul(i).div(Fx::from_int(self.width as i64)));
        let v = self.y_min.add(y_dist.mul(j).div(Fx::from_int(self.height as i64)));
        (u, v)
    }
}

/// Checks at run time that a field of view admits the viewing-plane
/// construction (its half-angle trig values are not degenerate), for
/// callers that receive the value from outside.
pub fn check_fov(fov: Fx) -> (r: bool)
    ensures
        r == (cos_s(fmul(fov@, SCALE as int / 2)) != 0 && fov_half_extent(fov@) != 0),
{
    let half = fov.mul(Fx::from_raw(SCALE / 2));
    if half.cos().is_zero() {
        return false;
    }
    !half.sin().div(half.cos()).is_zero()
}

/// A positive pixel count scaled to fixed point stays positive.
proof fn lemma_dim_positive(n: int)
    requires
        0 < n < 0x80000000,
    ensures
        clip(n * SCALE as int) > 0,
{
    assert(n * SCALE as int >= SCALE as int) by (nonlinear_arith)
        requires
            n >= 1,
    ;
}

/// A camera: an orthonormal basis, an origin, a projection mode and the
/// viewing plane.
#[derive(Clone, Copy, Debug)]
pub struct Camera {
    pub origin: Point,
    pub direction: Vec3,
    pub up: Vec3,
    pub right: Vec3,
    pub projection_type: ProjectionType,
    pub viewing_plane: ViewingPlane,
}

/// The ray for a pixel position: perspective rays fan out from the camera
/// origin; parallel rays share the camera direction and shift their origin
/// across the plane.
pub open spec fn generate_ray_s(c: Camera, i: int, j: int) -> RayS {
    let uv = uv_s(c.viewing_plane, i, j);
    let u = uv.0;
    let v = uv.1;
    let depth = fsub(c.viewing_plane.z@, c.origin@.z);
    match c.projection_type {
        ProjectionType::Perspective => RayS {
            origin: c.origin@,
            dir: vadd(
                vadd(vscale(c.direction@, -depth), vscale(c.right@, u)),
                vscale(c.up@, v),
            ),
        },
        ProjectionType::Parallel => RayS {
            origin: vadd(vadd(c.origin@, vscale(c.right@, u)), vscale(c.up@, v)),
            dir: vscale(c.direction@, -(SCALE as int)),
        },
    }
}

impl Camera {
    pub open spec fn wf(self) -> bool {
        &&& self.viewing_plane.wf()
        &&& self.viewing_plane.width < 0x80000000
        &&& self.viewing_plane.height < 0x80000000
    }

    /// The default camera on the z axis, looking along +z.
    pub fn from_z_position(
        z: Fx,
        fov: Fx,
        projection_type: ProjectionType,
        width: u32,
        height: u32,
    ) -> (r: Camera)
        requires
            cos_s(fmul(fov@, SCALE as int / 2)) != 0,
            fov_half_extent(fov@) != 0,
            0 < width < 0x80000000,
            0 < height < 0x80000000,
        ensures
            r.origin@ == v3(0, 0, z@),
            r.direction@ == v3(0, 0, SCALE as int),
            r.up@ == v3(0, SCALE as int, 0),
            r.right@ == v3(SCALE as int, 0, 0),
            r.projection_type == projection_type,
            r.viewing_plane.width == width,
            r.viewing_plane.height == height,
            r.viewing_plane.y_max@ == fov_half_extent(fov@),
            r.viewing_plane.y_min@ == -fov_half_extent(fov@),
            r.viewing_plane.x_max@ == fdiv(
                fmul(fov_half_extent(fov@), clip(width as int * SCALE as int)),
                clip(height as int * SCALE as int),
            ),
            r.viewing_plane.x_min@ == -r.viewing_plane.x_max@,
            r.viewing_plane.z@ == fadd(z@, fdiv(SCALE as int, fov_half_extent(fov@))),
            r.wf(),
    {
        Camera {
            origin: Point::new(Fx::zero(), Fx::zero(), z),
            direction: Vec3::new(Fx::zero(), Fx::zero(), Fx::one()),
            up: Vec3::new(Fx::zero(), Fx::one(), Fx::zero()),
            right: Vec3::new(Fx::one(), Fx::zero(), Fx::zero()),
            projection_type,
            viewing_plane: ViewingPlane::from_fov(fov, z, width, height),
        }
    }

    /// Generates the ray for a (fractional) pixel position.
    pub fn generate_ray(&self, i: Fx, j: Fx) -> (r: Ray)
        requires
            self.wf(),
        ensures
            r.origin@ == generate_ray_s(*self, i@, j@).origin,
            r.direction@ == generate_ray_s(*self, i@, j@).dir,
    {
        let (u, v) = self.viewing_plane.generate_uv_coords(i, j);
        let d = self.viewing_plane.z.sub(self.origin.z);
        match self.projection_type {
            ProjectionType::Perspective => Ray {
                origin: self.origin,
                direction: self.direction.scale(d.neg()).add(&self.right.scale(u)).add(
                    &self.up.scale(v),
                ),
            },
            ProjectionType::Parallel => Ray {
                origin: self.origin.add_vec(&self.right.scale(u)).add_vec(&self.up.scale(v)),
                direction: self.direction.scale(Fx::one().neg()),
            },
        }
    }
}

} // verus!

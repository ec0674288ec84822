//! A software ray tracer over fixed-point arithmetic.
//!
//! Scalars are signed 64-bit fixed-point numbers; every arithmetic operation
//! carries an exact contract over the mathematical integers, so the geometric
//! pipeline (primitives, meshes with a bounding-volume hierarchy, affine
//! placement, shading) is verified end to end.

pub mod aabb;
pub mod basics;
pub mod camera;
pub mod fixed;
pub mod matrix;
pub mod mesh;
pub mod ray_tracer;
pub mod scene;
pub mod surface;

use vstd::prelude::*;

verus! {

} // verus!

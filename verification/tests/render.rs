//! Tests for the camera, scene assembly pieces and the shading pipeline.

use raytracer::basics::{Color, Light, Point, Ray, Vec3};
use raytracer::camera::{Camera, ProjectionType, ViewingPlane};
use raytracer::fixed::{Fx, HALF_PI_FX, SCALE};
use raytracer::matrix::{Mat3, Transformation};
use raytracer::ray_tracer::{CameraOptions, RayOptions, RenderOptions};
use raytracer::scene::Scene;
use raytracer::surface::{BaseSurface, Plane, Sphere, Surface, TransformedSurface, VisualData};

fn fx(v: i64) -> Fx {
    Fx::from_int(v)
}

fn half() -> Fx {
    Fx::from_raw(SCALE / 2)
}

#[test]
fn test_viewing_plane() {
    let vp = ViewingPlane {
        z: fx(0),
        x_min: fx(-2),
        x_max: fx(2),
        y_min: Fx::from_raw(-1572864),
        y_max: Fx::from_raw(1572864),
        width: 640,
        height: 480,
    };
    // Pixel centers: the caller passes the half-pixel offset itself.
    let (u, v) = vp.generate_uv_coords(fx(0).add(half()), fx(0).add(half()));
    assert!((u.raw() + 2093875).abs() < 4, "u = {}", u.raw());
    assert!((v.raw() + 1569587).abs() < 4, "v = {}", v.raw());
    let (u, v) = vp.generate_uv_coords(fx(320).add(half()), fx(240).add(half()));
    assert!((u.raw() - 3276).abs() < 4, "u = {}", u.raw());
    assert!((v.raw() - 3276).abs() < 4, "v = {}", v.raw());
    let (u, v) = vp.generate_uv_coords(fx(640).add(half()), fx(480).add(half()));
    assert!((u.raw() - 2100428).abs() < 4, "u = {}", u.raw());
    assert!((v.raw() - 1576140).abs() < 4, "v = {}", v.raw());
}

#[test]
fn test_generate_ray_modes() {
    let fov = Fx::from_raw(HALF_PI_FX);
    let cam = Camera::from_z_position(fx(-1), fov, ProjectionType::Perspective, 64, 48);
    let center = cam.generate_ray(fx(32), fx(24));
    // The centered perspective ray leaves the camera origin forward.
    assert_eq!(center.origin.z.raw(), -SCALE);
    assert!(center.direction.z.raw() < 0 || center.direction.z.raw() > 0);
    let cam_par = Camera::from_z_position(fx(-1), fov, ProjectionType::Parallel, 64, 48);
    let parallel = cam_par.generate_ray(fx(32), fx(24));
    // Parallel rays all share the (negated) camera direction.
    assert_eq!(parallel.direction.x.raw(), 0);
    assert_eq!(parallel.direction.y.raw(), 0);
    assert_eq!(parallel.direction.z.raw(), -SCALE);
}

fn white() -> Color {
    Color::new(fx(1), fx(1), fx(1))
}

fn simple_scene(with_plane: bool) -> Scene {
    let fov = Fx::from_raw(HALF_PI_FX);
    let camera = Camera::from_z_position(fx(5), fov, ProjectionType::Perspective, 64, 48);
    let mut sphere_vis = VisualData::from_color(&Color::new(fx(1), fx(0), fx(0)));
    sphere_vis.specular_strength = half();
    sphere_vis.reflection_strength = half();
    let sphere = Sphere {
        center: Point::zero(),
        radius: half(),
        vis: sphere_vis,
    };
    let mut objects = vec![Surface::Base(BaseSurface::Sphere(sphere))];
    if with_plane {
        let plane = Plane::from_y(Fx::from_raw(-1468006), Color::new(half(), half(), half()));
        objects.push(Surface::Base(BaseSurface::Plane(plane)));
    }
    Scene {
        objects,
        camera,
        background_color: Color::new(Fx::from_raw(213909), Fx::from_raw(624951), Fx::from_raw(
            901775,
        )),
        lights: vec![Light {
            location: Point::new(fx(0), fx(10), fx(0)),
            color: white(),
            right: Vec3::new(Fx::from_raw(209715), fx(0), fx(0)),
            top: Vec3::new(fx(0), fx(0), Fx::from_raw(209715)),
        }],
        ambient_strength: Fx::from_raw(734003),
        diffuse_strength: half(),
    }
}

#[test]
fn test_pixel_channels_in_range() {
    // Every channel stays inside [0, 1], whatever features are on.
    let scene = simple_scene(true);
    let mut opts = RenderOptions::defaults();
    for (ss, soft) in [(false, false), (true, false), (false, true), (true, true)] {
        opts.use_supersampling = ss;
        opts.use_soft_shadows = soft;
        for (i, j) in [(0u32, 0u32), (32, 24), (63, 47)] {
            let c = scene.compute_pixel(i, j, &opts);
            for ch in [c.r.raw(), c.g.raw(), c.b.raw()] {
                assert!(0 <= ch && ch <= SCALE, "channel {} out of range", ch);
            }
        }
    }
}

#[test]
fn test_deterministic_pixel() {
    // With supersampling and soft shadows off, the same pixel always gets
    // the same color.
    let scene = simple_scene(true);
    let opts = RenderOptions::defaults();
    for (i, j) in [(0u32, 0u32), (32, 24), (20, 40)] {
        let a = scene.compute_pixel(i, j, &opts);
        let b = scene.compute_pixel(i, j, &opts);
        assert_eq!(a.r.raw(), b.r.raw());
        assert_eq!(a.g.raw(), b.g.raw());
        assert_eq!(a.b.raw(), b.b.raw());
    }
}

#[test]
fn test_background_pixel() {
    // A ray that misses everything yields exactly the background color.
    let scene = simple_scene(false);
    let opts = RenderOptions::defaults();
    let c = scene.compute_pixel(0, 0, &opts);
    assert_eq!(c.r.raw(), scene.background_color.r.raw());
    assert_eq!(c.g.raw(), scene.background_color.g.raw());
    assert_eq!(c.b.raw(), scene.background_color.b.raw());
}

#[test]
fn test_lit_sphere_pixel() {
    // The pixel at the image center sees the lit red sphere: a dominant
    // red channel, not the background.
    let scene = simple_scene(false);
    let opts = RenderOptions::defaults();
    let c = scene.compute_pixel(32, 24, &opts);
    assert!(c.r.raw() > c.b.raw(), "{} vs {}", c.r.raw(), c.b.raw());
    assert!(c.r.raw() > SCALE / 2);
}

#[test]
fn test_object_index_at_pixel() {
    let scene = simple_scene(false);
    assert_eq!(scene.get_object_idx_at_pixel(32, 24), Some(0));
    assert_eq!(scene.get_object_idx_at_pixel(0, 0), None);
}

#[test]
fn test_shadowed_point() {
    // A point on the plane straight under the sphere is shadowed: only the
    // ambient part of the plane color remains there.
    let scene = simple_scene(true);
    let shadowed = scene.compute_ray_color(
        &Ray {
            origin: Point::new(Fx::from_raw(576717), fx(3), fx(0)),
            direction: Vec3::new(fx(0), fx(-1), fx(0)),
        },
        RayOptions::from_depth(1),
    );
    let open = scene.compute_ray_color(
        &Ray {
            origin: Point::new(fx(3), fx(3), fx(0)),
            direction: Vec3::new(fx(0), fx(-1), fx(0)),
        },
        RayOptions::from_depth(1),
    );
    assert!(open.r.raw() > shadowed.r.raw(), "{} vs {}", open.r.raw(), shadowed.r.raw());
}

#[test]
fn test_shadowed_light_skips_specular() {
    // A blocked light contributes neither diffuse nor specular: only the
    // ambient part of the material color remains.
    let fov = Fx::from_raw(HALF_PI_FX);
    let camera = Camera::from_z_position(fx(5), fov, ProjectionType::Perspective, 64, 48);
    let mut shiny_vis = VisualData::from_color(&Color::new(fx(1), fx(0), fx(0)));
    shiny_vis.specular_strength = Fx::from_raw(943718);
    let shiny = Sphere {
        center: Point::zero(),
        radius: fx(1),
        vis: shiny_vis,
    };
    let blocker = Sphere {
        center: Point::new(fx(0), fx(5), fx(0)),
        radius: fx(1),
        vis: VisualData::zero(),
    };
    let scene = Scene {
        objects: vec![
            Surface::Base(BaseSurface::Sphere(shiny)),
            Surface::Base(BaseSurface::Sphere(blocker)),
        ],
        camera,
        background_color: Color::zero(),
        lights: vec![Light {
            location: Point::new(fx(0), fx(10), fx(0)),
            color: white(),
            right: Vec3::zero(),
            top: Vec3::zero(),
        }],
        ambient_strength: Fx::from_raw(734003),
        diffuse_strength: half(),
    };
    let c = scene.compute_ray_color(
        &Ray {
            origin: Point::new(fx(0), fx(0), fx(-5)),
            direction: Vec3::new(fx(0), fx(0), fx(1)),
        },
        RayOptions::from_depth(1),
    );
    assert_eq!(c.r.raw(), 734003);
    assert_eq!(c.g.raw(), 0);
    assert_eq!(c.b.raw(), 0);
}

#[test]
fn test_transformed_sphere_hit() {
    // A unit sphere scaled by one half is reached at t = 4.5 from z = -5.
    let scaling = Transformation::new(
        Mat3::identity().mul_scalar(half()),
        Vec3::zero(),
    );
    let sphere = Sphere {
        center: Point::zero(),
        radius: fx(1),
        vis: VisualData::zero(),
    };
    let transformed = TransformedSurface::new(scaling, BaseSurface::Sphere(sphere));
    let hit = transformed.compute_hit(&Ray {
        origin: Point::new(fx(0), fx(0), fx(-5)),
        direction: Vec3::new(fx(0), fx(0), fx(1)),
    }).unwrap();
    assert!((hit.t.raw() - 9 * SCALE / 2).abs() < 2100, "t = {}", hit.t.raw());
}

#[test]
fn test_default_options() {
    let opts = RenderOptions::defaults();
    assert!(!opts.use_soft_shadows);
    assert!(!opts.use_supersampling);
    assert_eq!(opts.reflection_glossiness.raw(), 0);
    assert_eq!(opts.number_of_lights, 1);
    assert_eq!(opts.fov.raw(), HALF_PI_FX);
    assert_eq!(opts.object_transformations.len(), 3);
    assert_eq!(opts.teaset_transformations.len(), 3);
    assert_eq!(opts.specular_strengths.len(), 5);
    assert!(opts.camera_opts.check_orientation());
}

#[test]
fn test_look_at_transform() {
    let options = CameraOptions {
        yaw: Fx::from_raw(-HALF_PI_FX),
        pitch: Fx::zero(),
        position: Vec3::new(fx(0), fx(0), fx(-7)),
    };
    assert!(options.check_orientation());
    let t = options.compute_lookat();
    // The origin lands seven units in front of the camera along its
    // viewing axis, up to trigonometric rounding.
    let p = t.transform_point(&Point::zero());
    assert!(p.x.raw().abs() < 2000, "x = {}", p.x.raw());
    assert!(p.y.raw().abs() < 2000, "y = {}", p.y.raw());
    assert!((p.z.raw() + 7 * SCALE).abs() < 2000, "z = {}", p.z.raw());
}

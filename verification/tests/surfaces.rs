//! Tests for the primitives, the triangle mesh and the hierarchy.

use raytracer::aabb::AxisAlignedBox;
use raytracer::basics::{Color, Point, Ray, Vec3};
use raytracer::fixed::{Fx, SCALE};
use raytracer::mesh::{Triangle, TriangleMesh};
use raytracer::surface::{find_square_roots, Plane, Sphere, VisualData};

fn fx(v: i64) -> Fx {
    Fx::from_int(v)
}

fn ray(ox: i64, oy: i64, oz: i64, dx: i64, dy: i64, dz: i64) -> Ray {
    Ray {
        origin: Point::new(fx(ox), fx(oy), fx(oz)),
        direction: Vec3::new(fx(dx), fx(dy), fx(dz)),
    }
}

#[test]
fn test_sphere() {
    let sphere = Sphere {
        center: Point::zero(),
        radius: fx(1),
        vis: VisualData::from_color(&Color::new(fx(1), fx(0), fx(0))),
    };
    let point_a = Point::new(fx(0), fx(1), fx(0));
    let point_b = Point::new(fx(0), fx(0), fx(-1));

    let na = sphere.compute_normal(&point_a).normalize();
    assert_eq!(na, Vec3::new(fx(0), fx(1), fx(0)));
    let nb = sphere.compute_normal(&point_b).normalize();
    assert_eq!(nb, Vec3::new(fx(0), fx(0), fx(-1)));

    let ray_a = ray(0, 0, -5, 0, 0, 1);
    let hit_a = sphere.compute_hit(&ray_a).unwrap();
    assert_eq!(hit_a.t.raw(), 4 * SCALE);

    let inv_sqrt2 = Fx::from_raw(741456);
    let ray_b = Ray {
        origin: Point::new(fx(0), fx(0), Fx::from_raw(-1482910)),
        direction: Vec3::new(fx(0), inv_sqrt2, inv_sqrt2),
    };
    let hit_b = sphere.compute_hit(&ray_b).unwrap();
    assert!((hit_b.t.raw() - SCALE).abs() < 1049, "t = {}", hit_b.t.raw());
}

#[test]
fn test_sphere_front_distance() {
    // A sphere of radius r at the origin, hit from z = -5 along +z, is
    // reached at t = 5 - r.
    for r in 1..4i64 {
        let sphere = Sphere {
            center: Point::zero(),
            radius: fx(r),
            vis: VisualData::zero(),
        };
        let hit = sphere.compute_hit(&ray(0, 0, -5, 0, 0, 1)).unwrap();
        assert_eq!(hit.t.raw(), (5 - r) * SCALE);
    }
}

#[test]
fn test_tangent_ray_single_root() {
    // A tangent ray has a zero discriminant: exactly one root comes back,
    // and the hit uses it.
    let a = fx(1);
    let b = fx(-10);
    let c = fx(25);
    let roots = find_square_roots(a, b, c).unwrap();
    assert_eq!(roots.0.raw(), 5 * SCALE);
    assert!(roots.1.is_none());

    let sphere = Sphere {
        center: Point::zero(),
        radius: fx(1),
        vis: VisualData::zero(),
    };
    let hit = sphere.compute_hit(&ray(1, 0, -5, 0, 0, 1)).unwrap();
    assert_eq!(hit.t.raw(), 5 * SCALE);
}

#[test]
fn test_sphere_miss() {
    let sphere = Sphere {
        center: Point::zero(),
        radius: fx(1),
        vis: VisualData::zero(),
    };
    // Negative discriminant: no intersection.
    assert!(sphere.compute_hit(&ray(0, 3, -5, 0, 0, 1)).is_none());
    // Sphere behind the origin: all roots below the cutoff.
    assert!(sphere.compute_hit(&ray(0, 0, 5, 0, 0, 1)).is_none());
}

#[test]
fn test_degenerate_quadratic() {
    // A zero leading coefficient cannot be solved: no roots come back.
    assert!(find_square_roots(fx(0), fx(3), fx(1)).is_none());
    // A negative discriminant gives no roots either.
    assert!(find_square_roots(fx(1), fx(0), fx(1)).is_none());
}

#[test]
fn test_plane() {
    let plane = Plane::from_y(fx(-1), Color::new(fx(1), fx(1), fx(1)));
    let hit = plane.compute_hit(&ray(0, 1, 0, 0, -1, 0)).unwrap();
    assert_eq!(hit.t.raw(), 2 * SCALE);
    // A ray parallel to the plane misses it.
    assert!(plane.compute_hit(&ray(0, 1, 0, 1, 0, 0)).is_none());
}

#[test]
fn test_ray_box_intersection() {
    let aab = AxisAlignedBox {
        min_corner: Point::zero(),
        max_corner: Point::new(fx(1), fx(1), fx(1)),
    };
    let r = ray(0, 0, -1, 0, 0, 1);
    let t = aab.compute_hit(&r).unwrap().t;
    assert!((t.raw() - SCALE).abs() < 16, "t = {}", t.raw());
}

#[test]
fn test_ray_box_miss() {
    let aab = AxisAlignedBox {
        min_corner: Point::zero(),
        max_corner: Point::new(fx(1), fx(1), fx(1)),
    };
    // Far off to the side: no slab overlap.
    assert!(aab.compute_hit(&ray(5, 5, -1, 0, 0, 1)).is_none());
    // Behind the origin.
    assert!(aab.compute_hit(&ray(0, 0, 3, 0, 0, 1)).is_none());
}

fn dummy_triangle_arrays() -> (Vec<Point>, Vec<Vec3>, Vec<Vec3>) {
    let positions = vec![
        Point::new(fx(0), fx(0), fx(1)),
        Point::new(fx(1), fx(0), fx(1)),
        Point::new(fx(0), fx(1), fx(1)),
    ];
    let normals: Vec<Vec3> = vec![];
    let calculated = vec![
        Vec3::new(fx(1), fx(0), fx(0)),
        Vec3::new(fx(0), fx(1), fx(0)),
        Vec3::new(fx(0), fx(0), fx(1)),
    ];
    (positions, normals, calculated)
}

#[test]
fn test_ray_triangle_intersection() {
    let (positions, normals, calculated) = dummy_triangle_arrays();
    let triangle_a = Triangle {
        indices: (0, 1, 2),
        vis: VisualData::grey(),
    };
    let r = ray(0, 0, 0, 0, 0, 1);
    let hit = triangle_a.compute_hit(&r, &positions, &normals, &calculated).unwrap();
    assert!((hit.t.raw() - SCALE).abs() < 4, "t = {}", hit.t.raw());
}

#[test]
fn test_triangle_miss_outside_edges() {
    let (positions, normals, calculated) = dummy_triangle_arrays();
    let triangle = Triangle {
        indices: (0, 1, 2),
        vis: VisualData::grey(),
    };
    // Hits the plane well outside the triangle.
    let r = ray(3, 3, 0, 0, 0, 1);
    assert!(triangle.compute_hit(&r, &positions, &normals, &calculated).is_none());
}

#[test]
fn test_barycentric_weights_sum() {
    // Weights are sub-areas over the total; their sum is one within the
    // rounding of the three divisions.
    let a0 = fx(3);
    let a1 = fx(5);
    let a2 = fx(7);
    let total = a0.add(a1).add(a2);
    let sum = a0.div(total).raw() + a1.div(total).raw() + a2.div(total).raw();
    assert!(sum > SCALE - 3 && sum <= SCALE, "sum = {}", sum);
}

/// A small mesh: a square made of two triangles at z = 1, plus a far-away
/// square at z = 5.
fn square_mesh() -> TriangleMesh {
    let positions = vec![
        Point::new(fx(-1), fx(-1), fx(1)),
        Point::new(fx(1), fx(-1), fx(1)),
        Point::new(fx(1), fx(1), fx(1)),
        Point::new(fx(-1), fx(1), fx(1)),
        Point::new(fx(-1), fx(-1), fx(5)),
        Point::new(fx(1), fx(-1), fx(5)),
        Point::new(fx(1), fx(1), fx(5)),
        Point::new(fx(-1), fx(1), fx(5)),
    ];
    let indices = vec![0, 1, 2, 0, 2, 3, 4, 5, 6, 4, 6, 7];
    TriangleMesh::from_arrays(positions, vec![], indices, VisualData::grey())
}

#[test]
fn test_ray_mesh_intersection() {
    let mesh = square_mesh();
    let r = ray(0, 0, 0, 0, 0, 1);
    let t = mesh.compute_hit(&r).unwrap().t;
    assert!((t.raw() - SCALE).abs() < 16, "t = {}", t.raw());
}

#[test]
fn test_bvh_matches_linear_scan() {
    // The accelerated traversal and the brute-force scan agree on hit
    // status and parameter for a spread of rays.
    let mesh = square_mesh();
    let mut k: i64 = 1;
    for ox in [-3i64, -1, 0, 2] {
        for oy in [-2i64, 0, 1] {
            for dz in [1i64, -1] {
                // A crude deterministic scatter of directions.
                k = (k * 31 + 17) % 7;
                let r = Ray {
                    origin: Point::new(fx(ox), fx(oy), fx(-3)),
                    direction: Vec3::new(Fx::from_raw(k * 100000 - 300000), fx(oy), fx(dz)),
                };
                let fast = mesh.compute_hit(&r);
                let slow = mesh.compute_slow_hit(&r);
                match (fast, slow) {
                    (None, None) => {},
                    (Some(a), Some(b)) => assert_eq!(a.t.raw(), b.t.raw()),
                    (a, b) => panic!("disagree: {:?} vs {:?}", a.is_some(), b.is_some()),
                }
            }
        }
    }
}

#[test]
fn test_area_weighted_pseudo_normals() {
    // Two faces share the first vertex: a large one facing +z and a small
    // one facing -x.  The pseudo-normal weights each face normal by its
    // area, so it leans almost entirely toward +z.
    let positions = vec![
        Point::new(fx(0), fx(0), fx(0)),
        Point::new(fx(4), fx(0), fx(0)),
        Point::new(fx(0), fx(4), fx(0)),
        Point::new(fx(0), fx(0), fx(1)),
        Point::new(fx(0), fx(1), fx(0)),
    ];
    let indices = vec![0, 1, 2, 0, 3, 4];
    let mesh = TriangleMesh::from_arrays(positions, vec![], indices, VisualData::grey());
    let n = mesh.calculated_normals[0];
    assert!(n.z.raw() > 900000, "z = {}", n.z.raw());
    assert!(n.x.raw().abs() < 150000, "x = {}", n.x.raw());
}

#[test]
fn test_bvh_pruning() {
    // A ray that misses the bounding box of the whole mesh reports no hit.
    let mesh = square_mesh();
    assert!(mesh.compute_hit(&ray(50, 50, 0, 0, 0, 1)).is_none());
    assert!(mesh.compute_hit(&ray(0, 0, 10, 0, 0, 1)).is_none());
}

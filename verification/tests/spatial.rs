use narrow_phase::collision3d::{
    Axis, AxisAlignedBoundingBox, Plane, Ray, Shape3D, Sphere, Triangle,
};
use narrow_phase::{closest_to_segment, segment_distance_squared, CollisionResolution, Vector3};

fn cuboid(a: (i64, i64, i64), b: (i64, i64, i64)) -> AxisAlignedBoundingBox {
    AxisAlignedBoundingBox { start: Vector3::new(a.0, a.1, a.2), end: Vector3::new(b.0, b.1, b.2) }
}

fn ball(x: i64, y: i64, z: i64, radius: i64) -> Sphere {
    Sphere { center: Vector3::new(x, y, z), radius }
}

fn contact(x: i64, y: i64, z: i64, penetration: i64) -> Option<CollisionResolution<Vector3>> {
    Some(CollisionResolution {
        direction: Vector3::new(x, y, z),
        length_squared: (x * x + y * y + z * z) as i128,
        penetration,
    })
}

fn floor_triangle() -> Triangle {
    Triangle {
        point1: Vector3::new(0, 0, 0),
        point2: Vector3::new(4, 0, 0),
        point3: Vector3::new(0, 4, 0),
    }
}

#[test]
fn aabb_sum_test() {
    let aabb = AxisAlignedBoundingBox::sum(&[
        AxisAlignedBoundingBox {
            start: Vector3::new(-10, -1, 500),
            end: Vector3::new(-560, 25, 120),
        },
        AxisAlignedBoundingBox {
            start: Vector3::new(10, 505, -159),
            end: Vector3::new(258, 480, -285),
        },
    ]);

    assert_eq!(aabb.start, Vector3::new(-560, -1, -285));
    assert_eq!(aabb.end, Vector3::new(258, 505, 500));
}

#[test]
fn aabb_dim_test() {
    let aabb = AxisAlignedBoundingBox {
        start: Vector3::new(0, 10, 20),
        end: Vector3::new(-50, 100, 100),
    };

    assert_eq!(aabb.largest_dim(), (1, 90));
    assert_eq!(aabb.smallest_dim(), (0, 50));
}

#[test]
fn aabb_mul_test() {
    let start = Vector3::new(1, 2, 5);
    let end = Vector3::new(0, 10, -2);

    let aabb = AxisAlignedBoundingBox { start, end };
    let aabb2 = aabb * 3;

    assert_eq!(aabb2.start, start.scaled(3));
    assert_eq!(aabb2.end, end.scaled(3));
    assert_eq!(aabb2.start, Vector3::new(3, 6, 15));
    assert_eq!(aabb2.end, Vector3::new(0, 30, -6));
}

#[test]
fn extents_of_a_cuboid() {
    let b = cuboid((5, 9, -1), (0, 2, 8));
    assert_eq!(b.width(), 5);
    assert_eq!(b.height(), 7);
    assert_eq!(b.depth(), 9);
    assert_eq!(b.half_width(), 2);
    assert_eq!(b.half_height(), 3);
    assert_eq!(b.half_depth(), 4);
    assert_eq!(b.min_max(), (Vector3::new(0, 2, -1), Vector3::new(5, 9, 8)));
    assert_eq!(b.center(), Vector3::new(2, 5, 3));
    assert_eq!(b.midpoint(), Vector3::new(2, 5, 3));
    assert_eq!(b.iter(), vec![5, 9, -1, 0, 2, 8]);
    assert_eq!(b.closest_point(&Vector3::new(9, 3, -5)), Vector3::new(5, 3, -1));
    assert!(b.is_valid());
    assert!(cuboid((0, 0, 0), (0, 0, -100_001)).is_valid());
    assert!(!cuboid((0, 0, 0), (0, 0, -100_001)).is_in_world());
    assert!(b.is_in_world());
    assert!(!cuboid((0, 0, 0), (0, 0, -1_073_741_825)).is_valid());
}

#[test]
fn corners_run_through_z_fastest() {
    let b = cuboid((0, 1, 2), (10, 11, 12));
    assert_eq!(
        b.corners(),
        [
            Vector3::new(0, 1, 2),
            Vector3::new(0, 1, 12),
            Vector3::new(0, 11, 2),
            Vector3::new(0, 11, 12),
            Vector3::new(10, 1, 2),
            Vector3::new(10, 1, 12),
            Vector3::new(10, 11, 2),
            Vector3::new(10, 11, 12),
        ]
    );
}

#[test]
fn cuboid_sum_union_and_points() {
    assert_eq!(AxisAlignedBoundingBox::sum(&[]), cuboid((0, 0, 0), (0, 0, 0)));
    assert_eq!(
        cuboid((3, 4, 5), (1, 2, 3)) + cuboid((-1, 8, 4), (0, 9, 4)),
        cuboid((-1, 2, 3), (3, 9, 5))
    );
    let points = [Vector3::new(3, -4, 1), Vector3::new(-1, 7, 0)];
    assert_eq!(AxisAlignedBoundingBox::from_iter(&points), cuboid((-1, -4, 0), (3, 7, 1)));
    assert_eq!(
        AxisAlignedBoundingBox::from_iter(&[]),
        cuboid((i64::MAX, i64::MAX, i64::MAX), (i64::MIN, i64::MIN, i64::MIN))
    );
}

#[test]
fn views_of_a_cuboid_and_a_sphere() {
    let b = cuboid((0, 1, 2), (10, 11, 12));
    let side = b.to_2d(Axis::Z, Axis::Y);
    assert_eq!(side.start.x, 2);
    assert_eq!(side.start.y, 1);
    assert_eq!(side.end.x, 12);
    assert_eq!(side.end.y, 11);
    let c = ball(1, 2, 3, 4).to_circle(Axis::X, Axis::Z);
    assert_eq!(c.center.x, 1);
    assert_eq!(c.center.y, 3);
    assert_eq!(c.radius, 4);
}

#[test]
fn cuboids_overlapping() {
    let a = cuboid((0, 0, 0), (2, 2, 2));
    assert_eq!(a.get_aabb_collision(&cuboid((1, 1, 0), (3, 3, 2))), contact(-1, 0, 0, 1));
    assert_eq!(a.get_aabb_collision(&cuboid((-1, -1, 1), (3, 3, 5))), contact(0, 0, -1, 1));
    assert_eq!(a.get_aabb_collision(&cuboid((0, 1, 0), (2, 5, 2))), contact(0, -1, 0, 1));
    assert_eq!(a.get_aabb_collision(&cuboid((2, 0, 0), (4, 2, 2))), None);
    assert_eq!(a.get_aabb_collision(&a), contact(1, 0, 0, 2));
}

#[test]
fn sphere_beside_and_inside_a_cuboid() {
    let b = cuboid((0, 0, 0), (4, 4, 4));
    assert_eq!(b.get_sphere_collision(&ball(6, 2, 2, 3)), contact(-1, 0, 0, 1));
    assert_eq!(b.get_sphere_collision(&ball(10, 2, 2, 5)), None);
    assert_eq!(b.get_sphere_collision(&ball(7, 6, 2, 5)), contact(-10, -8, 0, 1));
    assert_eq!(b.get_sphere_collision(&ball(3, 2, 2, 1)), contact(-1, 0, 0, -1));
    assert_eq!(b.get_sphere_collision(&ball(2, 2, 3, 1)), contact(0, 0, -1, -1));
}

#[test]
fn boxes_and_spheres_far_outside_the_world_cube() {
    let far = 1_000_000_000;
    let a = cuboid((far - 10, far - 10, far - 10), (far, far, far));
    let b = cuboid((far - 3, far - 12, far - 12), (far + 5, far + 2, far + 2));
    assert_eq!(a.get_aabb_collision(&b), contact(-1, 0, 0, 3));
    assert_eq!(a.get_sphere_collision(&ball(far + 3, far - 5, far - 5, 4)), contact(-1, 0, 0, 1));
    assert_eq!(
        ball(far, far, far, 5).get_sphere_collision(&ball(far, far + 7, far, 5)),
        contact(0, -1, 0, 3)
    );
    assert_eq!(
        ball(-far, -far, -far, 5).get_sphere_collision(&ball(far, far, far, 5)),
        None
    );
    assert_eq!(a.translate(&Vector3::new(-far, -far, -far)), cuboid((-10, -10, -10), (0, 0, 0)));
}

#[test]
fn spheres_apart_tangent_and_overlapping() {
    let a = ball(0, 0, 0, 5);
    assert_eq!(a.get_sphere_collision(&ball(12, 0, 0, 5)), None);
    assert_eq!(a.get_sphere_collision(&ball(0, 6, 8, 5)), contact(0, -6, -8, 0));
    assert_eq!(a.get_sphere_collision(&ball(2, 3, 6, 5)), contact(-2, -3, -6, 3));
    assert_eq!(a.get_sphere_collision(&ball(1, 1, 1, 5)), contact(-1, -1, -1, 8));
    assert_eq!(a.get_sphere_collision(&ball(0, 0, 0, 9)), contact(1, 0, 0, 5));
}

#[test]
fn sphere_over_a_plane() {
    let ground = Plane { normal: Vector3::new(0, 1, 0), d: 0 };
    assert_eq!(ball(0, 3, 0, 5).get_plane_collision(&ground), contact(0, 1, 0, 2));
    assert_eq!(ball(0, 5, 0, 5).get_plane_collision(&ground), contact(0, 1, 0, 0));
    assert_eq!(ball(0, 6, 0, 5).get_plane_collision(&ground), None);
    assert_eq!(ball(0, -1, 0, 5).get_plane_collision(&ground), None);
    assert_eq!(ball(7, 0, 7, 5).get_plane_collision(&ground), contact(0, 1, 0, 5));
}

#[test]
fn a_longer_normal_does_not_change_the_depth() {
    let ground = Plane { normal: Vector3::new(0, 2, 0), d: 0 };
    assert_eq!(ball(0, 3, 0, 5).get_plane_collision(&ground), contact(0, 1, 0, 2));
    let slope = Plane { normal: Vector3::new(3, 4, 0), d: 0 };
    assert_eq!(ball(3, 4, 0, 6).get_plane_collision(&slope), contact(3, 4, 0, 1));
    assert_eq!(ball(1, 1, 0, 6).get_plane_collision(&slope), contact(3, 4, 0, 4));
}

#[test]
fn plane_through_a_point() {
    let p = Plane::from_point(&Vector3::new(0, 0, 2), &Vector3::new(1, 1, 5));
    assert_eq!(p, Plane { normal: Vector3::new(0, 0, 2), d: -10 });
    assert_eq!(p.distance(&Vector3::new(9, 9, 5)), 0);
    assert_eq!(p.distance(&Vector3::new(0, 0, 8)), 6);
    assert_eq!(p.distance(&Vector3::new(0, 0, 0)), -10);
    assert!(p.is_valid());
    assert!(!Plane { normal: Vector3::new(0, 0, 0), d: 0 }.is_valid());
}

#[test]
fn plane_points() {
    let p = Plane { normal: Vector3::new(0, 0, 2), d: -7 };
    assert_eq!(p.random_point(), Vector3::new(0, 0, 3));
    let q = Plane { normal: Vector3::new(0, -3, 2), d: -7 };
    assert_eq!(q.random_point(), Vector3::new(0, -3, 0));
    let r = Plane { normal: Vector3::new(4, -3, 2), d: 8 };
    assert_eq!(r.random_point(), Vector3::new(-2, 0, 0));
    let ground = Plane { normal: Vector3::new(0, 1, 0), d: -2 };
    assert_eq!(ground.closest_point(&Vector3::new(5, 9, -3)), Vector3::new(5, 2, -3));
    assert_eq!(ground.closest_point(&Vector3::new(5, -9, -3)), Vector3::new(5, 2, -3));
}

#[test]
fn plane_shape_capability() {
    let p = Plane { normal: Vector3::new(0, 1, 0), d: -2 };
    assert_eq!(
        p.bounding_aabb(),
        cuboid((i64::MIN, i64::MIN, i64::MIN), (i64::MAX, i64::MAX, i64::MAX))
    );
    assert_eq!(p.bounding_sphere(), ball(0, 0, 0, i64::MAX));
    assert_eq!(p.center(), Vector3::new(0, 0, 0));
    assert_eq!(p.translate(&Vector3::new(1, 2, 3)), p);
    assert_eq!(p.set_center(&Vector3::new(1, 2, 3)), p);
    let mut q = p;
    q.translate_mut(&Vector3::new(1, 2, 3));
    q.set_center_mut(&Vector3::new(1, 2, 3));
    assert_eq!(q, p);
}

#[test]
fn cuboid_cut_by_a_plane() {
    let ground = Plane { normal: Vector3::new(0, 1, 0), d: 0 };
    assert_eq!(cuboid((-1, -1, -1), (1, 1, 1)).get_plane_collision(&ground), contact(0, 1, 0, 1));
    assert_eq!(cuboid((-1, -3, -1), (1, 1, 1)).get_plane_collision(&ground), contact(0, 1, 0, 3));
    assert_eq!(cuboid((0, 0, 0), (1, 1, 1)).get_plane_collision(&ground), None);
    assert_eq!(cuboid((0, 1, 0), (1, 2, 1)).get_plane_collision(&ground), None);
    assert_eq!(cuboid((0, -2, 0), (1, -1, 1)).get_plane_collision(&ground), None);
    assert_eq!(cuboid((0, -2, 0), (1, 0, 1)).get_plane_collision(&ground), None);
}

#[test]
fn cuboid_cut_by_a_slanted_plane() {
    let slope = Plane { normal: Vector3::new(3, 4, 0), d: 0 };
    assert_eq!(
        cuboid((-3, -4, 0), (1, 1, 1)).get_plane_collision(&slope),
        contact(3, 4, 0, 5)
    );
    assert_eq!(
        cuboid((-1, -1, 0), (1, 1, 1)).get_plane_collision(&slope),
        contact(3, 4, 0, 1)
    );
}

#[test]
fn triangle_measures() {
    let t = Triangle {
        point1: Vector3::new(1, 5, -2),
        point2: Vector3::new(4, 0, 0),
        point3: Vector3::new(-3, 4, 9),
    };
    assert_eq!(t.min_x(), -3);
    assert_eq!(t.max_x(), 4);
    assert_eq!(t.min_y(), 0);
    assert_eq!(t.max_y(), 5);
    assert_eq!(t.min_z(), -2);
    assert_eq!(t.max_z(), 9);
    assert_eq!(t.x_width(), 7);
    assert_eq!(t.y_width(), 5);
    assert_eq!(t.z_width(), 11);
    assert_eq!(t.iter(), vec![1, 5, -2, 4, 0, 0, -3, 4, 9]);
    assert_eq!(t.bounds(), cuboid((-3, 0, -2), (4, 5, 9)));
    assert_eq!(t.bounding_aabb(), cuboid((-3, 0, -2), (4, 5, 9)));
    assert_eq!(t.bounding_sphere(), ball(0, 2, 3, 11));
    assert_eq!(t.center(), Vector3::new(0, 3, 2));
    assert!(t.is_valid());
}

#[test]
fn triangle_normal_plane_and_distance() {
    let t = floor_triangle();
    assert_eq!(t.normal(), Vector3::new(0, 0, 16));
    assert_eq!(t.to_plane(), Plane { normal: Vector3::new(0, 0, 16), d: 0 });
    assert_eq!(Plane::from(&t), t.to_plane());
    assert_eq!(t.distance(&Vector3::new(9, 9, 3)), 48);
    assert_eq!(t.distance(&Vector3::new(9, 9, -3)), -48);
    let lifted = t.translate(&Vector3::new(0, 0, 2));
    assert_eq!(lifted.to_plane(), Plane { normal: Vector3::new(0, 0, 16), d: -32 });
}

#[test]
fn triangle_containment() {
    let t = floor_triangle();
    assert!(t.contains(&Vector3::new(1, 1, 0)));
    assert!(t.contains(&Vector3::new(1, 1, 5)));
    assert!(t.contains(&Vector3::new(0, 0, 0)));
    assert!(t.contains(&Vector3::new(3, 0, 0)));
    assert!(!t.contains(&Vector3::new(3, 3, 0)));
    assert!(!t.contains(&Vector3::new(2, 2, 0)));
    assert!(!t.contains(&Vector3::new(-1, 1, 0)));
    assert!(!t.contains(&Vector3::new(4, 0, 0)));
}

#[test]
fn rounded_center_may_fall_on_a_corner_that_is_not_contained() {
    let t = Triangle {
        point1: Vector3::new(-2, -2, 0),
        point2: Vector3::new(-2, -1, 0),
        point3: Vector3::new(-1, 0, 0),
    };
    assert_eq!(t.center(), Vector3::new(-2, -1, 0));
    assert!(!t.contains(&t.center()));
}

#[test]
fn triangle_without_area_contains_nothing() {
    let t = Triangle {
        point1: Vector3::new(0, 0, 0),
        point2: Vector3::new(2, 2, 2),
        point3: Vector3::new(4, 4, 4),
    };
    assert!(!t.contains(&Vector3::new(1, 1, 1)));
    assert!(!t.contains(&Vector3::new(0, 0, 0)));
    assert_eq!(t.normal(), Vector3::new(0, 0, 0));
}

#[test]
fn centroid_on_the_lattice_is_contained() {
    let t = Triangle {
        point1: Vector3::new(0, 0, 0),
        point2: Vector3::new(6, 0, 3),
        point3: Vector3::new(0, 9, 3),
    };
    assert_eq!(t.center(), Vector3::new(2, 3, 2));
    assert!(t.contains(&t.center()));
    let thin = Triangle {
        point1: Vector3::new(-100, 0, 0),
        point2: Vector3::new(100, 1, 0),
        point3: Vector3::new(0, 2, 0),
    };
    assert_eq!(thin.center(), Vector3::new(0, 1, 0));
    assert!(thin.contains(&thin.center()));
}

#[test]
fn nearest_point_of_a_segment() {
    let a = Vector3::new(0, 0, 0);
    let b = Vector3::new(10, 0, 0);
    assert_eq!(closest_to_segment(&a, &b, &Vector3::new(5, 3, 0)), Vector3::new(5, 0, 0));
    assert_eq!(closest_to_segment(&a, &b, &Vector3::new(-5, 3, 0)), a);
    assert_eq!(closest_to_segment(&a, &b, &Vector3::new(50, 3, 0)), b);
    assert_eq!(closest_to_segment(&a, &a, &Vector3::new(5, 3, 0)), a);
    assert_eq!(segment_distance_squared(&a, &b, &Vector3::new(5, 3, 0)), 9);
    assert_eq!(segment_distance_squared(&a, &b, &Vector3::new(-5, 3, 0)), 34);
    assert_eq!(segment_distance_squared(&a, &b, &Vector3::new(13, 0, 4)), 25);
    assert_eq!(segment_distance_squared(&a, &a, &Vector3::new(1, 2, 2)), 9);
    let c = Vector3::new(4, 0, 0);
    let d = Vector3::new(0, 4, 0);
    assert_eq!(segment_distance_squared(&c, &d, &Vector3::new(-1, 2, 0)), 4);
    assert_eq!(closest_to_segment(&c, &d, &Vector3::new(-1, 2, 0)), Vector3::new(0, 3, 0));
}

#[test]
fn nearest_point_of_a_triangle() {
    let t = floor_triangle();
    assert_eq!(t.closest_point(&Vector3::new(1, 1, 7)), (Vector3::new(1, 1, 7), 0));
    assert_eq!(t.closest_point(&Vector3::new(-1, 2, 0)), (Vector3::new(0, 2, 0), 1));
    assert_eq!(t.closest_point(&Vector3::new(2, -3, 0)), (Vector3::new(2, 0, 0), 9));
    assert_eq!(t.closest_point(&Vector3::new(4, 4, 0)), (Vector3::new(2, 2, 0), 8));
}

#[test]
fn cuboid_against_a_triangle() {
    let wide = Triangle {
        point1: Vector3::new(-5, 0, -5),
        point2: Vector3::new(5, 0, -5),
        point3: Vector3::new(0, 0, 5),
    };
    let b = cuboid((-1, -1, -1), (1, 1, 1));
    assert_eq!(b.get_triangle_collision(&wide), contact(0, -1, 0, 1));
    let far = wide.translate(&Vector3::new(100, 0, 0));
    assert_eq!(b.get_triangle_collision(&far), None);
    let above = wide.translate(&Vector3::new(0, 5, 0));
    assert_eq!(b.get_triangle_collision(&above), None);
    let flat = Triangle {
        point1: Vector3::new(0, 0, 0),
        point2: Vector3::new(1, 0, 0),
        point3: Vector3::new(2, 0, 0),
    };
    assert_eq!(b.get_triangle_collision(&flat), None);
}

#[test]
fn cuboid_against_a_triangle_reports_the_unit_normal_of_an_axial_face() {
    let t = Triangle {
        point1: Vector3::new(-5, 0, -5),
        point2: Vector3::new(-5, 0, 10),
        point3: Vector3::new(10, 0, -5),
    };
    assert_eq!(t.normal(), Vector3::new(0, 225, 0));
    assert_eq!(
        cuboid((0, -1, 0), (1, 2, 1)).get_triangle_collision(&t),
        Some(CollisionResolution { direction: Vector3::new(0, 1, 0), length_squared: 1, penetration: 1 })
    );
}

#[test]
fn a_cut_of_less_than_one_unit_is_no_contact() {
    let t = Triangle {
        point1: Vector3::new(0, 0, 0),
        point2: Vector3::new(1, 0, 0),
        point3: Vector3::new(0, 1, 1),
    };
    assert_eq!(cuboid((0, 0, 0), (1, 1, 1)).get_triangle_collision(&t), None);
    assert_eq!(cuboid((0, 0, 0), (1, 1, 1)).get_plane_collision(&t.to_plane()), None);
    let slope = Plane { normal: Vector3::new(3, 4, 0), d: 0 };
    assert_eq!(cuboid((-1, 0, 0), (1, 1, 1)).get_plane_collision(&slope), None);
}

#[test]
fn sphere_touching_a_face_of_a_cuboid_reports_the_unit_normal() {
    let b = cuboid((-1, -1, -1), (1, 1, 1));
    assert_eq!(
        b.get_sphere_collision(&ball(3, 0, 0, 2)),
        Some(CollisionResolution { direction: Vector3::new(-1, 0, 0), length_squared: 1, penetration: 0 })
    );
    let long = cuboid((-3, -1, -1), (3, 1, 1));
    assert_eq!(
        long.get_sphere_collision(&ball(3, 4, 0, 4)),
        Some(CollisionResolution { direction: Vector3::new(-6, -8, 0), length_squared: 100, penetration: 1 })
    );
    let big = cuboid((-4, -4, -4), (4, 4, 4));
    assert_eq!(
        big.get_sphere_collision(&ball(-2, -1, -2, 5)),
        Some(CollisionResolution { direction: Vector3::new(4, 2, 4), length_squared: 36, penetration: 2 })
    );
}

#[test]
fn sphere_against_a_triangle() {
    let t = floor_triangle();
    assert_eq!(ball(1, 1, 2, 3).get_triangle_collision(&t, false), contact(0, 0, 1, 1));
    assert_eq!(ball(1, 1, 3, 3).get_triangle_collision(&t, false), contact(0, 0, 1, 0));
    assert_eq!(ball(1, 1, 4, 3).get_triangle_collision(&t, false), None);
    assert_eq!(ball(1, 1, -2, 3).get_triangle_collision(&t, false), None);
    assert_eq!(ball(1, 1, -2, 3).get_triangle_collision(&t, true), contact(0, 0, 1, 5));
    assert_eq!(ball(1, 1, -4, 3).get_triangle_collision(&t, true), None);
}

#[test]
fn sphere_beside_a_triangle_reaches_an_edge() {
    let t = floor_triangle();
    assert_eq!(ball(-1, 2, 0, 2).get_triangle_collision(&t, false), contact(0, 0, 1, 2));
    assert_eq!(ball(-1, 2, 0, 1).get_triangle_collision(&t, false), None);
    assert_eq!(ball(-5, 2, 0, 2).get_triangle_collision(&t, false), None);
    assert_eq!(ball(-1, 2, 1, 2).get_triangle_collision(&t, false), contact(0, 0, 1, 1));
}

#[test]
fn sphere_against_a_triangle_without_area() {
    let t = Triangle {
        point1: Vector3::new(0, 0, 0),
        point2: Vector3::new(2, 0, 0),
        point3: Vector3::new(4, 0, 0),
    };
    assert_eq!(ball(1, 1, 0, 2).get_triangle_collision(&t, false), contact(0, 0, 0, 2));
    assert_eq!(ball(1, 5, 0, 2).get_triangle_collision(&t, false), None);
}

#[test]
fn ray_meets_a_plane() {
    let ground = Plane { normal: Vector3::new(0, 0, 1), d: 0 };
    let down = Ray::new(&Vector3::new(0, 0, 5), &Vector3::new(0, 0, -2));
    assert_eq!(down.intersects_plane(&ground), Some((5, 2)));
    assert_eq!(down.get_point_at(5, 2), Vector3::new(0, 0, 0));
    assert_eq!(down.get_point(2), Vector3::new(0, 0, 1));
    let up = Ray::new(&Vector3::new(0, 0, 5), &Vector3::new(1, 0, 2));
    assert_eq!(up.intersects_plane(&ground), Some((-5, 2)));
    assert_eq!(up.get_point_at(-5, 2), Vector3::new(-3, 0, 0));
    let along = Ray::new(&Vector3::new(0, 0, 5), &Vector3::new(1, 1, 0));
    assert_eq!(along.intersects_plane(&ground), None);
    assert_eq!(
        down.to_plane(&Vector3::new(0, 0, 3)),
        Plane { normal: Vector3::new(0, 0, 3), d: -15 }
    );
}

#[test]
fn sphere_shape_capability() {
    let s = ball(3, 4, 5, 2);
    assert_eq!(s.bounding_aabb(), cuboid((1, 2, 3), (5, 6, 7)));
    assert_eq!(s.bounds(), cuboid((1, 2, 3), (5, 6, 7)));
    assert_eq!(s.bounding_sphere(), s);
    assert_eq!(s.center(), Vector3::new(3, 4, 5));
    assert_eq!(s.translate(&Vector3::new(-3, 1, 0)), ball(0, 5, 5, 2));
    assert_eq!(s.set_center(&Vector3::new(9, 9, 9)), ball(9, 9, 9, 2));
    let mut d = s;
    d.translate_mut(&Vector3::new(1, 1, 1));
    assert_eq!(d, ball(4, 5, 6, 2));
    d.set_center_mut(&Vector3::new(0, 0, 0));
    assert_eq!(d, ball(0, 0, 0, 2));
    assert!(s.is_valid());
    assert!(!ball(0, 0, 0, -1).is_valid());
    assert!(ball(0, 0, 99_999, 2).is_valid());
    assert!(ball(0, 0, 800_000, 2).is_in_reach());
    assert!(!ball(0, 0, 800_001, 2).is_in_reach());
    assert!(!ball(0, 0, 0, 100_001).is_in_reach());
    assert!(!ball(0, 0, 1_073_741_823, 2).is_valid());
}

#[test]
fn cuboid_and_triangle_shape_capability() {
    let b = cuboid((0, 0, 0), (4, 7, 2));
    assert_eq!(b.bounding_aabb(), b);
    assert_eq!(b.bounding_sphere(), ball(2, 3, 1, 7));
    assert_eq!(b.translate(&Vector3::new(1, -1, 0)), cuboid((1, -1, 0), (5, 6, 2)));
    assert_eq!(b.set_center(&Vector3::new(10, 10, 10)), cuboid((8, 7, 9), (12, 14, 11)));
    assert_eq!(b.set_center(&Vector3::new(10, 10, 10)).center(), Vector3::new(10, 10, 10));
    assert_eq!(b.set_center(&Vector3::new(10, 10, 10)).height(), 7);
    let mut c = b;
    c.translate_mut(&Vector3::new(2, 2, 2));
    assert_eq!(c, cuboid((2, 2, 2), (6, 9, 4)));
    c.set_center_mut(&Vector3::new(0, 0, 0));
    assert_eq!(c, cuboid((-2, -3, -1), (2, 4, 1)));
    let t = floor_triangle();
    assert_eq!(t.center(), Vector3::new(1, 1, 0));
    let moved = t.set_center(&Vector3::new(11, 11, 5));
    assert_eq!(moved, t.translate(&Vector3::new(10, 10, 5)));
    let mut u = t;
    u.translate_mut(&Vector3::new(1, 0, 0));
    assert_eq!(u.point1, Vector3::new(1, 0, 0));
    assert_eq!(u.center(), Vector3::new(2, 1, 0));
    u.set_center_mut(&Vector3::new(1, 1, 0));
    assert_eq!(u, t);
}

#[test]
fn translating_by_zero_changes_nothing_in_space() {
    let zero = Vector3::zeros();
    let b = cuboid((-7, 3, 1), (9, -4, 0));
    let s = ball(5, -6, 7, 3);
    let t = floor_triangle();
    let p = Plane { normal: Vector3::new(1, 2, 3), d: 4 };
    assert_eq!(b.translate(&zero), b);
    assert_eq!(s.translate(&zero), s);
    assert_eq!(t.translate(&zero), t);
    assert_eq!(p.translate(&zero), p);
    let mut b2 = b;
    b2.translate_mut(&zero);
    assert_eq!(b2, b);
    let mut t2 = t;
    t2.translate_mut(&zero);
    assert_eq!(t2, t);
}

#[test]
fn contact_in_space_force_flip_and_new() {
    let c = CollisionResolution::new(&Vector3::new(-3, 4, 0), 2);
    assert_eq!(
        c,
        CollisionResolution { direction: Vector3::new(-3, 4, 0), length_squared: 25, penetration: 2 }
    );
    assert_eq!(c.total_force(), Vector3::new(-1, 1, 0));
    assert_eq!(
        c.flip(),
        CollisionResolution { direction: Vector3::new(3, -4, 0), length_squared: 25, penetration: 2 }
    );
    let tenfold = CollisionResolution::<Vector3>::along(&Vector3::new(-3, 4, 0), 10);
    assert_eq!(tenfold.total_force(), Vector3::new(-6, 8, 0));
    let axial = CollisionResolution::new(&Vector3::new(0, 0, 9), 4);
    assert_eq!(
        axial,
        CollisionResolution { direction: Vector3::new(0, 0, 1), length_squared: 1, penetration: 4 }
    );
    assert_eq!(axial.total_force(), Vector3::new(0, 0, 4));
}

#[test]
fn overlapping_pairs_in_space_agree_from_both_sides() {
    let a = cuboid((0, 0, 0), (10, 10, 10));
    let b = cuboid((8, 1, 1), (14, 4, 4));
    assert_eq!(a.get_aabb_collision(&b), b.get_aabb_collision(&a).map(|c| c.flip()));
    let p = ball(0, 0, 0, 5);
    let q = ball(2, 3, 6, 5);
    assert_eq!(p.get_sphere_collision(&q), q.get_sphere_collision(&p).map(|c| c.flip()));
}

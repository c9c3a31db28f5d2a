use narrow_phase::collision3d::{
    AxisAlignedBoundingBox, Capsule, Plane, Ray, Shape3D, Sphere, Triangle,
};
use narrow_phase::{CollisionResolution, Vector3};

fn capsule(a: (i64, i64, i64), b: (i64, i64, i64), radius: i64) -> Capsule {
    Capsule { start: Vector3::new(a.0, a.1, a.2), end: Vector3::new(b.0, b.1, b.2), radius }
}

fn cuboid(a: (i64, i64, i64), b: (i64, i64, i64)) -> AxisAlignedBoundingBox {
    AxisAlignedBoundingBox { start: Vector3::new(a.0, a.1, a.2), end: Vector3::new(b.0, b.1, b.2) }
}

fn ball(x: i64, y: i64, z: i64, radius: i64) -> Sphere {
    Sphere { center: Vector3::new(x, y, z), radius }
}

fn contact(x: i64, y: i64, z: i64, penetration: i64) -> Option<CollisionResolution<Vector3>> {
    Some(CollisionResolution {
        direction: Vector3::new(x, y, z),
        length_squared: (x * x + y * y + z * z) as i128,
        penetration,
    })
}

fn floor_triangle() -> Triangle {
    Triangle {
        point1: Vector3::new(0, 0, 0),
        point2: Vector3::new(4, 0, 0),
        point3: Vector3::new(0, 4, 0),
    }
}

#[test]
fn capsule_measures() {
    let c = capsule((0, 0, 0), (3, 4, 0), 1);
    assert_eq!(c.distance(), 7);
    assert_eq!(c.direction(), Vector3::new(3, 4, 0));
    assert_eq!(capsule((0, 0, 0), (1, 1, 0), 2).distance(), 6);
    assert_eq!(capsule((5, 5, 5), (5, 5, 5), 2).distance(), 4);
    assert_eq!(c.to_spheres(), (ball(0, 0, 0, 1), ball(3, 4, 0, 1)));
    assert!(c.is_valid());
    assert!(!capsule((0, 0, 0), (3, 4, 0), -1).is_valid());
    assert!(!capsule((0, 0, 0), (100_000, 4, 0), 1).is_valid());
}

#[test]
fn capsule_axis_as_a_ray() {
    let c = capsule((0, 0, 2), (0, 0, 6), 1);
    let ray = Ray::from(&c);
    assert_eq!(ray, Ray::new(&Vector3::new(0, 0, 2), &Vector3::new(0, 0, 4)));
}

#[test]
fn nearest_points_of_capsules() {
    let a = capsule((0, 0, 0), (10, 0, 0), 2);
    let b = capsule((5, 3, 0), (5, 10, 0), 2);
    assert_eq!(a.closest_point(&Vector3::new(5, 3, 0)), Vector3::new(5, 0, 0));
    assert_eq!(a.closest_point(&Vector3::new(-5, 3, 0)), Vector3::new(0, 0, 0));
    assert_eq!(a.closest_points(&b), (Vector3::new(5, 0, 0), Vector3::new(5, 3, 0)));
    assert_eq!(b.closest_points(&a), (Vector3::new(5, 3, 0), Vector3::new(5, 0, 0)));
}

#[test]
fn capsules_crossing_and_apart() {
    let a = capsule((0, 0, 0), (10, 0, 0), 2);
    let b = capsule((5, 3, 0), (5, 10, 0), 2);
    assert_eq!(a.get_capsule_collision(&b), contact(0, -1, 0, 1));
    assert_eq!(b.get_capsule_collision(&a), contact(0, 1, 0, 1));
    let far = capsule((5, 30, 0), (5, 40, 0), 2);
    assert_eq!(a.get_capsule_collision(&far), None);
    let near_but_clear = capsule((5, 5, 0), (5, 10, 0), 2);
    assert_eq!(a.get_capsule_collision(&near_but_clear), None);
}

#[test]
fn capsules_side_by_side_report_the_unit_normal() {
    let a = capsule((0, 0, 0), (0, 4, 0), 1);
    let b = capsule((3, 0, 0), (3, 4, 0), 3);
    assert_eq!(
        a.get_capsule_collision(&b),
        Some(CollisionResolution { direction: Vector3::new(-1, 0, 0), length_squared: 1, penetration: 1 })
    );
}

#[test]
fn capsules_of_different_radius_use_each_their_own() {
    let a = capsule((0, 0, 0), (10, 0, 0), 1);
    let b = capsule((5, 4, 0), (5, 10, 0), 4);
    assert_eq!(a.get_capsule_collision(&b), contact(0, -1, 0, 1));
}

#[test]
fn capsule_over_a_plane() {
    let ground = Plane { normal: Vector3::new(0, 0, 1), d: 0 };
    assert_eq!(capsule((0, 2, 0), (0, -2, 0), 1).get_plane_collision(
        &Plane { normal: Vector3::new(0, 1, 0), d: 0 }), contact(0, 1, 0, 1));
    assert_eq!(capsule((0, 0, 2), (0, 0, -2), 1).get_plane_collision(&ground), contact(0, 0, 1, 1));
    assert_eq!(capsule((0, 0, 6), (0, 0, 2), 1).get_plane_collision(&ground), contact(0, 0, 1, 1));
    assert_eq!(capsule((0, 0, 2), (0, 0, 6), 1).get_plane_collision(&ground), None);
    assert_eq!(capsule((0, 0, 8), (0, 0, 4), 1).get_plane_collision(&ground), None);
    assert_eq!(capsule((0, 0, 9), (0, 0, 5), 1).get_plane_collision(&ground), None);
    assert_eq!(capsule((0, 0, 2), (5, 0, 2), 1).get_plane_collision(&ground), None);
    assert_eq!(capsule((0, 0, 0), (0, 0, 4), 1).get_plane_collision(&ground), contact(0, 0, 1, 1));
}

#[test]
fn where_the_axis_meets_a_plane() {
    let ground = Plane { normal: Vector3::new(0, 0, 1), d: 0 };
    let c = capsule((0, 0, 5), (0, 0, 1), 1);
    assert_eq!(c.crossing(&ground, false), Some(Vector3::new(0, 0, 0)));
    assert_eq!(c.crossing(&ground, true), Some(Vector3::new(0, 0, 0)));
    let reaching = capsule((0, 0, 6), (0, 0, 2), 1);
    assert_eq!(reaching.crossing(&ground, false), Some(Vector3::new(0, 0, 0)));
    assert_eq!(reaching.crossing(&ground, true), None);
    let on = capsule((0, 0, 0), (0, 0, -4), 1);
    assert_eq!(on.crossing(&ground, false), Some(Vector3::new(0, 0, 0)));
    assert_eq!(on.crossing(&ground, true), None);
    let slanted = capsule((3, 0, 3), (0, 0, -1), 1);
    assert_eq!(slanted.crossing(&ground, false), Some(Vector3::new(0, 0, 0)));
    let just_long_enough = capsule((3, 0, 4), (0, 0, 0), 0);
    assert_eq!(just_long_enough.crossing(&ground, false), Some(Vector3::new(0, 0, 0)));
    assert_eq!(just_long_enough.crossing(&ground, true), None);
    let too_short = capsule((6, 0, 8), (3, 0, 4), 0);
    assert_eq!(too_short.crossing(&ground, false), None);
    let pointing_away = capsule((0, 0, 2), (0, 0, 6), 1);
    assert_eq!(pointing_away.crossing(&ground, false), None);
}

#[test]
fn capsule_against_a_triangle() {
    let t = floor_triangle();
    assert_eq!(
        capsule((1, 1, 3), (1, 1, 1), 2).get_triangle_collision(&t, false),
        contact(0, 0, 1, 1)
    );
    assert_eq!(
        capsule((1, 1, 1), (1, 1, 3), 2).get_triangle_collision(&t, false),
        contact(0, 0, 1, 1)
    );
    assert_eq!(capsule((1, 1, 5), (1, 1, 9), 2).get_triangle_collision(&t, false), None);
    assert_eq!(capsule((50, 50, 1), (50, 50, 3), 2).get_triangle_collision(&t, false), None);
}

#[test]
fn capsule_through_a_triangle_prefers_the_nearer_end() {
    let t = floor_triangle();
    assert_eq!(
        capsule((1, 1, -1), (1, 1, 2), 3).get_triangle_collision(&t, true),
        contact(0, 0, 1, 4)
    );
    assert_eq!(
        capsule((1, 1, -1), (1, 1, 2), 3).get_triangle_collision(&t, false),
        contact(0, 0, 1, 1)
    );
}

#[test]
fn capsule_beside_a_triangle_ranks_the_ends_by_distance() {
    let t = floor_triangle();
    assert_eq!(
        capsule((-3, 2, 0), (-1, 2, 1), 2).get_triangle_collision(&t, false),
        contact(0, 0, 1, 1)
    );
    assert_eq!(
        capsule((-1, 2, 1), (-1, 2, 0), 2).get_triangle_collision(&t, false),
        contact(0, 0, 1, 2)
    );
    assert_eq!(
        capsule((-1, 2, 0), (-1, 2, 1), 2).get_triangle_collision(&t, false),
        contact(0, 0, 1, 2)
    );
}

#[test]
fn sphere_and_cuboid_against_a_capsule() {
    let c = capsule((0, 0, 0), (10, 0, 0), 2);
    assert_eq!(ball(5, 3, 0, 2).get_capsule_collision(&c), contact(0, 1, 0, 1));
    assert_eq!(ball(5, 5, 0, 2).get_capsule_collision(&c), None);
    assert_eq!(ball(14, 0, 0, 2).get_capsule_collision(&c), contact(1, 0, 0, 0));
    let b = cuboid((4, 2, -1), (6, 4, 1));
    assert_eq!(b.get_capsule_collision(&c), contact(0, 1, 0, 0));
    let clear = cuboid((4, 3, -1), (6, 5, 1));
    assert_eq!(clear.get_capsule_collision(&c), None);
    let lower = cuboid((4, 1, -1), (6, 3, 1));
    assert_eq!(lower.get_capsule_collision(&c), contact(0, 1, 0, 1));
    let away = cuboid((4, 4, -1), (6, 6, 1));
    assert_eq!(away.get_capsule_collision(&c), None);
}

#[test]
fn capsule_shape_capability() {
    let c = capsule((0, 0, 0), (10, 4, -2), 2);
    assert_eq!(c.bounding_aabb(), cuboid((-2, -2, -4), (12, 6, 2)));
    assert_eq!(c.bounds(), cuboid((-2, -2, -4), (12, 6, 2)));
    assert_eq!(c.bounding_sphere(), ball(5, 2, -1, 14));
    assert_eq!(c.center(), Vector3::new(5, 2, -1));
    assert_eq!(c.translate(&Vector3::new(1, 1, 1)), capsule((1, 1, 1), (11, 5, -1), 2));
    assert_eq!(c.set_center(&Vector3::new(0, 0, 0)), capsule((-5, -2, 1), (5, 2, -1), 2));
    let mut d = c;
    d.translate_mut(&Vector3::new(-1, 0, 0));
    assert_eq!(d, capsule((-1, 0, 0), (9, 4, -2), 2));
    assert_eq!(d.center(), Vector3::new(4, 2, -1));
    d.set_center_mut(&Vector3::new(5, 2, -1));
    assert_eq!(d, c);
    assert_eq!(c.translate(&Vector3::zeros()), c);
}

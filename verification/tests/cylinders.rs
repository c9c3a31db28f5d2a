use narrow_phase::collision2d::{AxisAlignedBoundingBox as Square, Circle};
use narrow_phase::collision3d::{
    Axis, AxisAlignedBoundingBox, Cylinder, CylinderShape, Shape3D, Sphere,
};
use narrow_phase::{CollisionResolution, Vector2, Vector3};

fn upright() -> Cylinder {
    Cylinder { center: Vector3::new(0, 0, 0), half_height: 2, radius: 1, axis: Axis::Y }
}

fn cuboid(a: (i64, i64, i64), b: (i64, i64, i64)) -> AxisAlignedBoundingBox {
    AxisAlignedBoundingBox { start: Vector3::new(a.0, a.1, a.2), end: Vector3::new(b.0, b.1, b.2) }
}

fn ball(x: i64, y: i64, z: i64, radius: i64) -> Sphere {
    Sphere { center: Vector3::new(x, y, z), radius }
}

fn flat(x: i64, y: i64, penetration: i64) -> Option<CollisionResolution<Vector2>> {
    Some(CollisionResolution {
        direction: Vector2::new(x, y),
        length_squared: (x * x + y * y) as i128,
        penetration,
    })
}

fn contact(x: i64, y: i64, z: i64, penetration: i64) -> Option<CollisionResolution<Vector3>> {
    Some(CollisionResolution {
        direction: Vector3::new(x, y, z),
        length_squared: (x * x + y * y + z * z) as i128,
        penetration,
    })
}

#[test]
fn cylinder_measures() {
    let c = Cylinder { center: Vector3::new(1, 2, 3), half_height: 5, radius: 2, axis: Axis::Z };
    assert_eq!(c.height(), 10);
    assert_eq!(c.diameter(), 4);
    assert_eq!(c.half_height(Axis::X), 2);
    assert_eq!(c.half_height(Axis::Y), 2);
    assert_eq!(c.half_height(Axis::Z), 5);
    assert_eq!(c.get_position(Axis::X), 1);
    assert_eq!(c.get_position(Axis::Y), 2);
    assert_eq!(c.get_position(Axis::Z), 3);
    assert!(c.is_valid());
    assert!(!Cylinder { radius: -1, ..c }.is_valid());
    assert!(Cylinder { center: Vector3::new(1, 2, 99_996), ..c }.is_valid());
    assert!(!Cylinder { center: Vector3::new(1, 2, 1_073_741_820), ..c }.is_valid());
}

#[test]
fn cylinder_from_a_cuboid() {
    let b = cuboid((0, 0, 0), (4, 10, 6));
    assert_eq!(
        Cylinder::from_aabb(&b, Axis::Y),
        Cylinder { center: Vector3::new(2, 5, 3), half_height: 5, radius: 3, axis: Axis::Y }
    );
    assert_eq!(
        Cylinder::from_aabb(&b, Axis::X),
        Cylinder { center: Vector3::new(2, 5, 3), half_height: 2, radius: 5, axis: Axis::X }
    );
    assert_eq!(
        Cylinder::from_aabb(&b, Axis::Z),
        Cylinder { center: Vector3::new(2, 5, 3), half_height: 3, radius: 5, axis: Axis::Z }
    );
}

#[test]
fn views_of_a_cylinder() {
    let c = upright();
    assert_eq!(
        c.get_shape(Axis::X, Axis::Y),
        CylinderShape::AABB(Square { start: Vector2::new(-1, -2), end: Vector2::new(1, 2) })
    );
    assert_eq!(
        c.get_shape(Axis::Z, Axis::Y),
        CylinderShape::AABB(Square { start: Vector2::new(-1, -2), end: Vector2::new(1, 2) })
    );
    assert_eq!(
        c.get_shape(Axis::X, Axis::Z),
        CylinderShape::Circle(Circle { center: Vector2::new(0, 0), radius: 1 })
    );
}

#[test]
fn views_collide_by_kind() {
    let square = CylinderShape::AABB(Square { start: Vector2::new(0, 0), end: Vector2::new(4, 4) });
    let other = CylinderShape::AABB(Square { start: Vector2::new(3, 0), end: Vector2::new(7, 4) });
    let disc = CylinderShape::Circle(Circle { center: Vector2::new(6, 2), radius: 3 });
    let small = CylinderShape::Circle(Circle { center: Vector2::new(8, 2), radius: 1 });
    assert_eq!(square.get_collision(&other), flat(-1, 0, 1));
    assert_eq!(square.get_collision(&disc), flat(-1, 0, 1));
    assert_eq!(disc.get_collision(&square), flat(1, 0, 1));
    assert_eq!(disc.get_collision(&small), flat(-1, 0, 2));
    assert_eq!(small.get_collision(&square), None);
}

#[test]
fn contacts_of_three_views_make_up_one_in_space() {
    assert_eq!(
        Cylinder::get_collision(&[flat(1, 2, 5), flat(3, 4, 6), flat(5, 6, 7)]),
        contact(1, 2, 0, 5)
    );
    assert_eq!(
        Cylinder::get_collision(&[flat(1, 2, 5), flat(3, 4, 4), flat(5, 6, 7)]),
        contact(0, 4, 3, 4)
    );
    assert_eq!(
        Cylinder::get_collision(&[flat(1, 2, 5), flat(3, 4, 6), flat(5, 6, 3)]),
        contact(5, 0, 6, 3)
    );
    assert_eq!(
        Cylinder::get_collision(&[flat(1, 2, 5), flat(3, 4, 5), flat(5, 6, 5)]),
        contact(1, 2, 0, 5)
    );
    assert_eq!(
        Cylinder::get_collision(&[flat(1, 2, 5), flat(3, 4, 4), flat(5, 6, 4)]),
        contact(0, 4, 3, 4)
    );
    assert_eq!(Cylinder::get_collision(&[flat(1, 2, 5), None, flat(5, 6, 7)]), None);
    assert_eq!(Cylinder::get_collision(&[None, flat(1, 2, 5), flat(5, 6, 7)]), None);
    assert_eq!(Cylinder::get_collision(&[flat(1, 2, 5), flat(5, 6, 7), None]), None);
}

#[test]
fn cylinder_against_a_sphere() {
    let c = upright();
    assert_eq!(c.get_sphere_collision(&ball(2, 0, 0, 2)), contact(-1, 0, 0, 1));
    assert_eq!(c.get_sphere_collision(&ball(5, 0, 0, 2)), None);
    assert_eq!(c.get_sphere_collision(&ball(0, 5, 0, 2)), None);
    assert_eq!(c.get_sphere_collision(&ball(0, 3, 0, 2)), contact(0, -1, 0, 1));
}

#[test]
fn cylinder_against_a_sphere_beside_it_reports_the_unit_normal() {
    let s = ball(0, 0, 3, 3);
    assert_eq!(
        upright().get_sphere_collision(&s),
        Some(CollisionResolution { direction: Vector3::new(0, 0, -1), length_squared: 1, penetration: 1 })
    );
}

#[test]
fn cylinder_against_a_sphere_equals_the_three_views_combined() {
    let c = Cylinder { center: Vector3::new(1, 2, 3), half_height: 4, radius: 2, axis: Axis::Y };
    let s = ball(3, 5, 4, 3);
    let pairs = [(Axis::X, Axis::Y), (Axis::Z, Axis::Y), (Axis::X, Axis::Z)];
    let mut views = [None, None, None];
    for (i, (h, v)) in pairs.iter().enumerate() {
        views[i] = c.get_shape(*h, *v).get_collision(&CylinderShape::Circle(s.to_circle(*h, *v)));
    }
    assert_eq!(views[0], flat(-4, -6, 3));
    assert_eq!(views[1], flat(-2, -6, 2));
    assert_eq!(views[2], flat(-2, -1, 2));
    assert_eq!(c.get_sphere_collision(&s), Cylinder::get_collision(&views));
    assert_eq!(c.get_sphere_collision(&s), contact(0, -6, -2, 2));
}

#[test]
fn cylinder_against_a_cuboid() {
    let c = upright();
    assert_eq!(c.get_aabb_collision(&cuboid((1, -1, -1), (3, 1, 1))), None);
    assert_eq!(c.get_aabb_collision(&cuboid((0, -1, -1), (2, 1, 1))), contact(-1, 0, 0, 0));
    assert_eq!(c.get_aabb_collision(&cuboid((-1, 1, -1), (1, 5, 1))), contact(0, 0, 0, 0));
    assert_eq!(c.get_aabb_collision(&cuboid((-9, 1, -9), (9, 5, 9))), contact(0, 0, 0, -8));
    let wide = Cylinder { center: Vector3::new(0, 0, 0), half_height: 2, radius: 5, axis: Axis::Y };
    assert_eq!(wide.get_aabb_collision(&cuboid((3, 1, -1), (9, 5, 1))), contact(0, -1, 0, 1));
}

#[test]
fn cylinder_shape_capability() {
    let c = Cylinder { center: Vector3::new(1, 2, 3), half_height: 5, radius: 2, axis: Axis::Z };
    assert_eq!(c.bounding_aabb(), cuboid((-1, 0, -2), (3, 4, 8)));
    assert_eq!(c.bounding_sphere(), ball(1, 2, 3, 5));
    assert_eq!(c.center(), Vector3::new(1, 2, 3));
    assert_eq!(c.translate(&Vector3::new(1, 1, 1)), Cylinder { center: Vector3::new(2, 3, 4), ..c });
    assert_eq!(c.set_center(&Vector3::new(0, 0, 0)), Cylinder { center: Vector3::zeros(), ..c });
    let mut d = c;
    d.translate_mut(&Vector3::new(-1, -2, -3));
    assert_eq!(d.center, Vector3::zeros());
    d.set_center_mut(&Vector3::new(7, 7, 7));
    assert_eq!(d.center, Vector3::new(7, 7, 7));
    assert_eq!(c.translate(&Vector3::zeros()), c);
}

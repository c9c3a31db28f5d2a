use narrow_phase::collision2d::{AxisAlignedBoundingBox, Circle, Shape2D};
use narrow_phase::{CollisionResolution, Vector2};

fn square(x0: i64, y0: i64, x1: i64, y1: i64) -> AxisAlignedBoundingBox {
    AxisAlignedBoundingBox { start: Vector2::new(x0, y0), end: Vector2::new(x1, y1) }
}

fn disc(x: i64, y: i64, radius: i64) -> Circle {
    Circle { center: Vector2::new(x, y), radius }
}

fn contact(x: i64, y: i64, penetration: i64) -> Option<CollisionResolution<Vector2>> {
    Some(CollisionResolution {
        direction: Vector2::new(x, y),
        length_squared: (x * x + y * y) as i128,
        penetration,
    })
}

#[test]
fn sum_test() {
    let aabb = AxisAlignedBoundingBox::sum(&[
        AxisAlignedBoundingBox { start: Vector2::new(-10, -1), end: Vector2::new(-560, 25) },
        AxisAlignedBoundingBox { start: Vector2::new(10, 505), end: Vector2::new(258, 480) },
    ]);

    assert_eq!(aabb.start, Vector2::new(-560, -1));
    assert_eq!(aabb.end, Vector2::new(258, 505));
}

#[test]
fn dim_test() {
    let aabb = AxisAlignedBoundingBox { start: Vector2::new(0, 10), end: Vector2::new(-50, 100) };

    assert_eq!(aabb.largest_dim(), (1, 90));
    assert_eq!(aabb.smallest_dim(), (0, 50));
}

#[test]
fn mul_test() {
    let start = Vector2::new(1, 2);
    let end = Vector2::new(0, 10);

    let aabb = AxisAlignedBoundingBox { start, end };
    let aabb2 = aabb * 3;

    assert_eq!(aabb2.start, start.scaled(3));
    assert_eq!(aabb2.end, end.scaled(3));
    assert_eq!(aabb2.start, Vector2::new(3, 6));
    assert_eq!(aabb2.end, Vector2::new(0, 30));
}

#[test]
fn sum_of_no_box_is_the_origin() {
    assert_eq!(AxisAlignedBoundingBox::sum(&[]), square(0, 0, 0, 0));
}

#[test]
fn adding_boxes_gives_the_box_around_both() {
    let both = square(3, 4, 1, 2) + square(-1, 8, 0, 9);
    assert_eq!(both, square(-1, 2, 3, 9));
}

#[test]
fn box_around_points() {
    let points = [Vector2::new(3, -4), Vector2::new(-1, 7), Vector2::new(0, 0)];
    assert_eq!(AxisAlignedBoundingBox::from_iter(&points), square(-1, -4, 3, 7));
    assert_eq!(
        AxisAlignedBoundingBox::from_iter(&[]),
        square(i64::MAX, i64::MAX, i64::MIN, i64::MIN)
    );
}

#[test]
fn extents_of_a_box_with_corners_in_reverse() {
    let b = square(5, 9, 0, 2);
    assert_eq!(b.width(), 5);
    assert_eq!(b.height(), 7);
    assert_eq!(b.half_width(), 2);
    assert_eq!(b.half_height(), 3);
    assert_eq!(b.min_max(), (Vector2::new(0, 2), Vector2::new(5, 9)));
    assert_eq!(b.center(), Vector2::new(2, 5));
    assert_eq!(b.iter(), vec![5, 9, 0, 2]);
    assert_eq!(
        b.corners(),
        [Vector2::new(5, 9), Vector2::new(5, 2), Vector2::new(0, 9), Vector2::new(0, 2)]
    );
    assert!(b.is_valid());
    assert!(square(0, 0, 100_001, 0).is_valid());
    assert!(!square(0, 0, 1_073_741_825, 0).is_valid());
}

#[test]
fn center_rounds_toward_negative_infinity() {
    assert_eq!(square(-3, -3, 0, 0).center(), Vector2::new(-2, -2));
    assert_eq!(square(0, 0, 3, 3).center(), Vector2::new(1, 1));
}

#[test]
fn closest_point_of_a_box() {
    let b = square(0, 0, 4, 4);
    assert_eq!(b.closest_point(&Vector2::new(7, 2)), Vector2::new(4, 2));
    assert_eq!(b.closest_point(&Vector2::new(-3, -9)), Vector2::new(0, 0));
    assert_eq!(b.closest_point(&Vector2::new(1, 3)), Vector2::new(1, 3));
}

#[test]
fn boxes_overlapping_by_one_unit_tie_goes_to_x() {
    let a = square(0, 0, 2, 2);
    let b = square(1, 1, 3, 3);
    assert_eq!(a.get_aabb_collision(&b), contact(-1, 0, 1));
    assert_eq!(b.get_aabb_collision(&a), contact(1, 0, 1));
}

#[test]
fn boxes_that_only_touch_do_not_collide() {
    assert_eq!(square(0, 0, 2, 2).get_aabb_collision(&square(2, 0, 4, 2)), None);
    assert_eq!(square(0, 0, 2, 2).get_aabb_collision(&square(5, 5, 6, 6)), None);
}

#[test]
fn box_contact_takes_the_axis_of_least_overlap() {
    let a = square(0, 0, 10, 10);
    let b = square(8, 1, 14, 4);
    assert_eq!(a.get_aabb_collision(&b), contact(-1, 0, 2));
    let c = square(1, 9, 4, 20);
    assert_eq!(a.get_aabb_collision(&c), contact(0, -1, 1));
}

#[test]
fn box_inside_a_box() {
    let a = square(0, 0, 3, 3);
    let b = square(2, 0, 3, 3);
    assert_eq!(a.get_aabb_collision(&b), contact(-1, 0, 1));
    assert_eq!(b.get_aabb_collision(&a), contact(1, 0, 1));
}

#[test]
fn boxes_with_one_center_point_the_normal_up_the_axis() {
    let a = square(0, 0, 4, 2);
    assert_eq!(a.get_aabb_collision(&a), contact(0, 1, 2));
}

#[test]
fn circles_twelve_apart_with_radius_five_are_disjoint() {
    assert_eq!(disc(0, 0, 5).get_circle_collision(&disc(12, 0, 5)), None);
}

#[test]
fn tangent_circles_touch_with_depth_zero() {
    assert_eq!(disc(0, 0, 5).get_circle_collision(&disc(6, 8, 5)), contact(-6, -8, 0));
    assert_eq!(disc(0, 0, 5).get_circle_collision(&disc(10, 0, 5)), contact(-1, 0, 0));
}

#[test]
fn circles_apart_along_an_axis_report_the_unit_normal() {
    let c = disc(0, 0, 5).get_circle_collision(&disc(10, 0, 5));
    assert_eq!(
        c,
        Some(CollisionResolution { direction: Vector2::new(-1, 0), length_squared: 1, penetration: 0 })
    );
    let oblique = disc(0, 0, 5).get_circle_collision(&disc(6, 8, 5));
    assert_eq!(
        oblique,
        Some(CollisionResolution { direction: Vector2::new(-6, -8), length_squared: 100, penetration: 0 })
    );
}

#[test]
fn circles_one_unit_past_tangency_are_disjoint() {
    assert_eq!(disc(0, 0, 5).get_circle_collision(&disc(11, 0, 5)), None);
}

#[test]
fn overlapping_circles_report_the_depth_rounded_down() {
    assert_eq!(disc(0, 0, 5).get_circle_collision(&disc(3, 4, 2)), contact(-3, -4, 2));
    assert_eq!(disc(0, 0, 5).get_circle_collision(&disc(1, 1, 5)), contact(-1, -1, 8));
}

#[test]
fn circles_with_one_center_use_the_x_axis() {
    assert_eq!(disc(3, 3, 4).get_circle_collision(&disc(3, 3, 9)), contact(1, 0, 4));
}

#[test]
fn circle_beside_a_box() {
    let b = square(0, 0, 4, 4);
    assert_eq!(b.get_circle_collision(&disc(6, 2, 3)), contact(-1, 0, 1));
    assert_eq!(b.get_circle_collision(&disc(7, 6, 5)), contact(-10, -8, 1));
    assert_eq!(b.get_circle_collision(&disc(10, 2, 5)), None);
    assert_eq!(b.get_circle_collision(&disc(9, 2, 5)), contact(-1, 0, 0));
}

#[test]
fn circle_inside_a_box_is_measured_against_a_face() {
    let b = square(0, 0, 4, 4);
    assert_eq!(b.get_circle_collision(&disc(3, 2, 1)), contact(-1, 0, -1));
    assert_eq!(b.get_circle_collision(&disc(2, 2, 5)), contact(0, 0, 3));
}

#[test]
fn circle_shape_capability() {
    let c = disc(3, 4, 2);
    assert_eq!(c.bounding_aabb(), square(1, 2, 5, 6));
    assert_eq!(c.bounding_sphere(), c);
    assert_eq!(c.center(), Vector2::new(3, 4));
    assert_eq!(c.translate(&Vector2::new(-3, 1)), disc(0, 5, 2));
    assert_eq!(c.set_center(&Vector2::new(9, 9)), disc(9, 9, 2));
    let mut d = c;
    d.translate_mut(&Vector2::new(1, 1));
    assert_eq!(d, disc(4, 5, 2));
    d.set_center_mut(&Vector2::new(0, 0));
    assert_eq!(d, disc(0, 0, 2));
    assert!(c.is_valid());
    assert!(!disc(0, 0, -1).is_valid());
    assert!(disc(99_999, 0, 2).is_valid());
    assert!(!disc(1_073_741_823, 0, 2).is_valid());
}

#[test]
fn box_shape_capability() {
    let b = square(0, 0, 4, 7);
    assert_eq!(b.bounding_aabb(), b);
    assert_eq!(b.bounding_sphere(), disc(2, 3, 7));
    assert_eq!(b.translate(&Vector2::new(1, -1)), square(1, -1, 5, 6));
    assert_eq!(b.set_center(&Vector2::new(10, 10)), square(8, 7, 12, 14));
    assert_eq!(b.set_center(&Vector2::new(10, 10)).center(), Vector2::new(10, 10));
    assert_eq!(b.set_center(&Vector2::new(10, 10)).height(), 7);
    let mut c = b;
    c.translate_mut(&Vector2::new(2, 2));
    assert_eq!(c, square(2, 2, 6, 9));
    c.set_center_mut(&Vector2::new(0, 0));
    assert_eq!(c, square(-2, -3, 2, 4));
}

#[test]
fn translating_by_zero_changes_nothing_in_the_plane() {
    let zero = Vector2::zeros();
    let b = square(-7, 3, 9, -4);
    let c = disc(5, -6, 3);
    assert_eq!(b.translate(&zero), b);
    assert_eq!(c.translate(&zero), c);
    let mut b2 = b;
    b2.translate_mut(&zero);
    assert_eq!(b2, b);
    let mut c2 = c;
    c2.translate_mut(&zero);
    assert_eq!(c2, c);
}

#[test]
fn contact_force_and_flip() {
    let c = CollisionResolution::<Vector2>::along(&Vector2::new(-3, 4), 2);
    assert_eq!(c, CollisionResolution { direction: Vector2::new(-3, 4), length_squared: 25, penetration: 2 });
    assert_eq!(c.total_force(), Vector2::new(-1, 1));
    assert_eq!(c.flip(), CollisionResolution { direction: Vector2::new(3, -4), length_squared: 25, penetration: 2 });
    let tenfold = CollisionResolution::<Vector2>::along(&Vector2::new(-3, 4), 10);
    assert_eq!(tenfold.total_force(), Vector2::new(-6, 8));
    let axial = CollisionResolution::<Vector2>::along(&Vector2::new(0, -7), 3);
    assert_eq!(axial, CollisionResolution { direction: Vector2::new(0, -1), length_squared: 1, penetration: 3 });
    assert_eq!(axial.total_force(), Vector2::new(0, -3));
}

#[test]
fn overlapping_pairs_agree_from_both_sides() {
    let a = square(0, 0, 10, 10);
    let b = square(8, 1, 14, 4);
    assert_eq!(a.get_aabb_collision(&b), b.get_aabb_collision(&a).map(|c| c.flip()));
    let p = disc(0, 0, 5);
    let q = disc(3, 4, 2);
    assert_eq!(p.get_circle_collision(&q), q.get_circle_collision(&p).map(|c| c.flip()));
}

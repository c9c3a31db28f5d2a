//! Laws that the contact queries obey.
use vstd::prelude::*;
use crate::collision2d::aabb::AxisAlignedBoundingBox as AABB2D;
use crate::collision2d::{Circle, Shape2D};
use crate::collision3d::aabb::AxisAlignedBoundingBox as AABB3D;
use crate::collision3d::sphere::{depth_below, Sphere};
use crate::collision3d::triangle::Triangle;
use crate::collision3d::Shape3D;
use crate::scalar::{lemma_sqrt_of_square, lemma_square_bound, spec_clamp, spec_sign};
use crate::segment::{nearest_is_end, nearest_is_start, spec_segment_distance_squared};
use crate::vector::{
    lemma_cross_is_orthogonal, lemma_direction2, lemma_direction3, lemma_lagrange, V2, V3,
};

verus! {

/// Moving any shape of the plane by the zero vector is possible and leaves
/// every coordinate as it was.
pub proof fn lemma_translate_by_zero_2d<S: Shape2D>(shape: S)
    ensures
        shape.can_translate(V2 { x: 0, y: 0 }),
        shape.translated(V2 { x: 0, y: 0 }) == shape,
{
    shape.lemma_translate_zero();
}

/// Moving any shape of space by the zero vector is possible and leaves every
/// coordinate as it was.
pub proof fn lemma_translate_by_zero_3d<S: Shape3D>(shape: S)
    ensures
        shape.can_translate(V3 { x: 0, y: 0, z: 0 }),
        shape.translated(V3 { x: 0, y: 0, z: 0 }) == shape,
{
    shape.lemma_translate_zero();
}

/// Two overlapping boxes of the plane report the same contact from either
/// side, up to the direction of the normal: the penetrations agree and the
/// normals are opposite.
///
/// The law leaves out boxes whose centers agree on the contact axis, for
/// which both queries point the normal in the positive direction.
pub proof fn lemma_box_contact_symmetric_2d(a: AABB2D, b: AABB2D)
    requires
        a.wf(),
        b.wf(),
        a.overlaps(&b),
        a.offset2(&b).at(a.overlap2(&b).min_index()) != 0,
    ensures
        b.overlaps(&a),
        a.spec_aabb_collision(&b) matches Some(x) && b.spec_aabb_collision(&a) matches Some(y)
            && x == y.flipped(),
{
    assert(a.overlap2(&b) == b.overlap2(&a));
    let axis = a.overlap2(&b).min_index();
    lemma_direction2(V2::axis(axis, spec_sign(b.offset2(&a).at(axis))));
}

/// Two overlapping boxes of space report the same contact from either side,
/// up to the direction of the normal: the penetrations agree and the normals
/// are opposite.
///
/// The law leaves out boxes whose centers agree on the contact axis, for
/// which both queries point the normal in the positive direction.
pub proof fn lemma_box_contact_symmetric_3d(a: AABB3D, b: AABB3D)
    requires
        a.wf(),
        b.wf(),
        a.overlaps(&b),
        a.offset2(&b).at(a.overlap2(&b).min_index()) != 0,
    ensures
        b.overlaps(&a),
        a.spec_aabb_collision(&b) matches Some(x) && b.spec_aabb_collision(&a) matches Some(y)
            && x == y.flipped(),
{
    assert(a.overlap2(&b) == b.overlap2(&a));
    let axis = a.overlap2(&b).min_index();
    lemma_direction3(V3::axis(axis, spec_sign(b.offset2(&a).at(axis))));
}

/// Two boxes of the plane overlap exactly when, on each axis, each begins
/// before the other ends.
pub proof fn lemma_overlap_is_of_intervals_2d(a: AABB2D, b: AABB2D)
    ensures
        a.overlaps(&b) <==> {
            &&& a.low().x < b.high().x && b.low().x < a.high().x
            &&& a.low().y < b.high().y && b.low().y < a.high().y
        },
{
}

/// Two boxes of space overlap exactly when, on each axis, each begins before
/// the other ends.
pub proof fn lemma_overlap_is_of_intervals_3d(a: AABB3D, b: AABB3D)
    ensures
        a.overlaps(&b) <==> {
            &&& a.low().x < b.high().x && b.low().x < a.high().x
            &&& a.low().y < b.high().y && b.low().y < a.high().y
            &&& a.low().z < b.high().z && b.low().z < a.high().z
        },
{
}

proof fn lemma_doubled_squares(x: int, y: int, z: int)
    by (nonlinear_arith)
    ensures
        (2 * x) * (2 * x) + (2 * y) * (2 * y) + (2 * z) * (2 * z) == 4 * (x * x + y * y + z * z),
{
}

/// A box and a circle are in contact exactly when the point of the box
/// nearest to the circle's center is no further from that center than the
/// radius.
pub proof fn lemma_touch_is_nearness_2d(b: AABB2D, c: Circle)
    requires
        0 <= c.radius,
    ensures
        b.touches_circle(&c) <==> ({
            let nearest = V2 {
                x: spec_clamp(c.center.x as int, b.low().x, b.high().x),
                y: spec_clamp(c.center.y as int, b.low().y, b.high().y),
            };
            nearest.sub(c.center@).norm_sq() <= c.radius * c.radius
        }),
        b.holds_center(&c) <==> b.holds(c.center@),
{
    let nearest = V2 {
        x: spec_clamp(c.center.x as int, b.low().x, b.high().x),
        y: spec_clamp(c.center.y as int, b.low().y, b.high().y),
    };
    let d = nearest.sub(c.center@);
    lemma_square_bound(c.radius as int, c.radius as int);
    if b.holds_center(&c) {
        assert(d.x == 0 && d.y == 0);
        assert(d.norm_sq() == 0) by (nonlinear_arith)
            requires
                d.x == 0 && d.y == 0,
        ;
    } else {
        let g = b.circle_offset2(&c).sub(b.face2(&c));
        assert(g.x == 2 * d.x && g.y == 2 * d.y);
        lemma_doubled_squares(d.x, d.y, 0);
        assert(b.gap2_sq(&c) == 4 * d.norm_sq());
    }
}

/// A box and a sphere are in contact exactly when the point of the box
/// nearest to the sphere's center is no further from that center than the
/// radius.
pub proof fn lemma_touch_is_nearness_3d(b: AABB3D, s: Sphere)
    requires
        0 <= s.radius,
    ensures
        b.touches_sphere(&s) <==> ({
            let nearest = V3 {
                x: spec_clamp(s.center.x as int, b.low().x, b.high().x),
                y: spec_clamp(s.center.y as int, b.low().y, b.high().y),
                z: spec_clamp(s.center.z as int, b.low().z, b.high().z),
            };
            nearest.sub(s.center@).norm_sq() <= s.radius * s.radius
        }),
        b.holds_center(&s) <==> b.holds(s.center@),
{
    let nearest = V3 {
        x: spec_clamp(s.center.x as int, b.low().x, b.high().x),
        y: spec_clamp(s.center.y as int, b.low().y, b.high().y),
        z: spec_clamp(s.center.z as int, b.low().z, b.high().z),
    };
    let d = nearest.sub(s.center@);
    lemma_square_bound(s.radius as int, s.radius as int);
    if b.holds_center(&s) {
        assert(d.x == 0 && d.y == 0 && d.z == 0);
        assert(d.norm_sq() == 0) by (nonlinear_arith)
            requires
                d.x == 0 && d.y == 0 && d.z == 0,
        ;
    } else {
        let g = b.sphere_offset2(&s).sub(b.face2(&s));
        assert(g.x == 2 * d.x && g.y == 2 * d.y && g.z == 2 * d.z);
        lemma_doubled_squares(d.x, d.y, d.z);
        assert(b.gap2_sq(&s) == 4 * d.norm_sq());
    }
}

proof fn lemma_nearer_on_axis(p: int, low: int, high: int, q: int)
    by (nonlinear_arith)
    requires
        low <= q <= high,
    ensures
        (p - spec_clamp(p, low, high)) * (p - spec_clamp(p, low, high)) <= (p - q) * (p - q),
{
}

/// No point of a box is nearer to `point` than the one that `closest_point`
/// reports.
pub proof fn lemma_closest_point_is_nearest_2d(b: AABB2D, point: V2, other: V2)
    requires
        b.holds(other),
    ensures
        ({
            let nearest = V2 {
                x: spec_clamp(point.x, b.low().x, b.high().x),
                y: spec_clamp(point.y, b.low().y, b.high().y),
            };
            point.sub(nearest).norm_sq() <= point.sub(other).norm_sq()
        }),
{
    lemma_nearer_on_axis(point.x, b.low().x, b.high().x, other.x);
    lemma_nearer_on_axis(point.y, b.low().y, b.high().y, other.y);
}

/// No point of a box is nearer to `point` than the one that `closest_point`
/// reports.
pub proof fn lemma_closest_point_is_nearest_3d(b: AABB3D, point: V3, other: V3)
    requires
        b.holds(other),
    ensures
        ({
            let nearest = V3 {
                x: spec_clamp(point.x, b.low().x, b.high().x),
                y: spec_clamp(point.y, b.low().y, b.high().y),
                z: spec_clamp(point.z, b.low().z, b.high().z),
            };
            point.sub(nearest).norm_sq() <= point.sub(other).norm_sq()
        }),
{
    lemma_nearer_on_axis(point.x, b.low().x, b.high().x, other.x);
    lemma_nearer_on_axis(point.y, b.low().y, b.high().y, other.y);
    lemma_nearer_on_axis(point.z, b.low().z, b.high().z, other.z);
}

proof fn lemma_square_of_difference(p: int, q: int)
    by (nonlinear_arith)
    ensures
        (p - q) * (p - q) == p * p - 2 * (p * q) + q * q,
{
}

proof fn lemma_product_of_products(a: int, u: int, k: int, v: int)
    by (nonlinear_arith)
    ensures
        (a * u) * (k * v) == (a * k) * (u * v),
{
}

proof fn lemma_scaled_difference(a: int, u: int, k: int, v: int)
    ensures
        (a * u - k * v) * (a * u - k * v) == (a * a) * (u * u) - 2 * ((a * k) * (u * v)) + (k * k)
            * (v * v),
{
    lemma_square_of_difference(a * u, k * v);
    lemma_product_of_products(a, u, a, u);
    lemma_product_of_products(a, u, k, v);
    lemma_product_of_products(k, v, k, v);
}

proof fn lemma_gather(m: int, x: int, y: int, z: int)
    by (nonlinear_arith)
    ensures
        m * x + m * y + m * z == m * (x + y + z),
{
}

proof fn lemma_least_inside(len: int, from_start: int, t: int, k: int, d: int)
    by (nonlinear_arith)
    requires
        len > 0,
        len * d <= from_start * len - t * t,
        0 <= d,
    ensures
        (len * len) * from_start - 2 * ((len * k) * t) + (k * k) * len >= (len * len) * d,
{
    assert((k - t) * (k - t) >= 0);
    assert(len * ((k - t) * (k - t)) >= 0);
}

proof fn lemma_least_at_start(len: int, from_start: int, t: int, k: int)
    by (nonlinear_arith)
    requires
        len >= 0,
        t <= 0,
        0 <= k,
    ensures
        (len * len) * from_start - 2 * ((len * k) * t) + (k * k) * len >= (len * len)
            * from_start,
{
    assert((len * k) * t <= 0);
    assert((k * k) * len >= 0);
}

proof fn lemma_least_at_end(len: int, from_start: int, t: int, k: int)
    by (nonlinear_arith)
    requires
        len > 0,
        t >= len,
        0 <= k <= len,
    ensures
        (len * len) * from_start - 2 * ((len * k) * t) + (k * k) * len >= (len * len) * (
        from_start - 2 * t + len),
{
    assert((len - k) * (2 * t - len - k) >= 0);
    assert(len * ((len - k) * (2 * t - len - k)) >= 0);
}

proof fn lemma_end_distance(ap: V3, ab: V3)
    by (nonlinear_arith)
    ensures
        ap.sub(ab).norm_sq() == ap.norm_sq() - 2 * ap.dot(ab) + ab.norm_sq(),
        (ap.x - ab.x) * (ap.x - ab.x) + (ap.y - ab.y) * (ap.y - ab.y) + (ap.z - ab.z) * (ap.z
            - ab.z) == (ap.x * ap.x + ap.y * ap.y + ap.z * ap.z) - 2 * (ap.x * ab.x + ap.y * ab.y
            + ap.z * ab.z) + (ab.x * ab.x + ab.y * ab.y + ab.z * ab.z),
{
}

/// No point of a segment is nearer to `point` than
/// `spec_segment_distance_squared` says.
///
/// The points of the segment are `start + (end - start) * k / len` for `k`
/// from zero to `len`, the squared length of the segment. To stay among whole
/// numbers the law compares the squared distances multiplied by the square
/// of `len`.
pub proof fn lemma_segment_distance_is_least(start: V3, end: V3, point: V3, k: int)
    requires
        start != end,
        0 <= k <= end.sub(start).norm_sq(),
    ensures
        ({
            let len = end.sub(start).norm_sq();
            let offset = point.sub(start).scale(len).sub(end.sub(start).scale(k));
            offset.norm_sq() >= (len * len) * spec_segment_distance_squared(start, end, point)
        }),
{
    let ab = end.sub(start);
    let ap = point.sub(start);
    let len = ab.norm_sq();
    let t = ap.dot(ab);
    let from_start = ap.norm_sq();
    let offset = ap.scale(len).sub(ab.scale(k));
    lemma_distinct_apart(ab.x, ab.y, ab.z);
    lemma_commute(ap.x, len);
    lemma_commute(ap.y, len);
    lemma_commute(ap.z, len);
    lemma_commute(ab.x, k);
    lemma_commute(ab.y, k);
    lemma_commute(ab.z, k);
    lemma_scaled_difference(len, ap.x, k, ab.x);
    lemma_scaled_difference(len, ap.y, k, ab.y);
    lemma_scaled_difference(len, ap.z, k, ab.z);
    lemma_gather(len * len, ap.x * ap.x, ap.y * ap.y, ap.z * ap.z);
    lemma_gather(len * k, ap.x * ab.x, ap.y * ab.y, ap.z * ab.z);
    lemma_gather(k * k, ab.x * ab.x, ab.y * ab.y, ab.z * ab.z);
    assert(offset.norm_sq() == (len * len) * from_start - 2 * ((len * k) * t) + (k * k) * len);
    if nearest_is_start(start, end, point) {
        lemma_least_at_start(len, from_start, t, k);
    } else if nearest_is_end(start, end, point) {
        lemma_end_distance(ap, ab);
        assert(point.sub(end) == ap.sub(ab));
        lemma_least_at_end(len, from_start, t, k);
    } else {
        lemma_lagrange(ap, ab);
        let a = from_start * len - t * t;
        vstd::arithmetic::div_mod::lemma_fundamental_div_mod(a, len);
        vstd::arithmetic::div_mod::lemma_div_pos_is_pos(a, len);
        lemma_commute(len, a / len);
        lemma_least_inside(len, from_start, t, k, a / len);
    }
}

proof fn lemma_even_squares(x: int, y: int, z: int)
    requires
        x % 2 == 0,
        y % 2 == 0,
        z % 2 == 0,
    ensures
        (x * x + y * y + z * z) % 4 == 0,
{
    let a = x / 2;
    let b = y / 2;
    let c = z / 2;
    assert(x * x + y * y + z * z == 4 * (a * a + b * b + c * c)) by (nonlinear_arith)
        requires
            x == 2 * a,
            y == 2 * b,
            z == 2 * c,
    ;
}

/// The distance from a circle's center to a box of the lattice has a whole
/// square: `gap2_sq`, its square taken in half units, is a multiple of four,
/// so that the depth of the contact is rounded only where the root is taken.
pub proof fn lemma_gap_is_whole_2d(b: AABB2D, c: Circle)
    ensures
        b.gap2_sq(&c) % 4 == 0,
{
    let g = b.circle_offset2(&c).sub(b.face2(&c));
    assert(g.x % 2 == 0 && g.y % 2 == 0);
    lemma_even_squares(g.x, g.y, 0);
}

/// The distance from a sphere's center to a box of the lattice has a whole
/// square: `gap2_sq`, its square taken in half units, is a multiple of four,
/// so that the depth of the contact is rounded only where the root is taken.
pub proof fn lemma_gap_is_whole_3d(b: AABB3D, s: Sphere)
    ensures
        b.gap2_sq(&s) % 4 == 0,
{
    let g = b.sphere_offset2(&s).sub(b.face2(&s));
    assert(g.x % 2 == 0 && g.y % 2 == 0 && g.z % 2 == 0);
    lemma_even_squares(g.x, g.y, g.z);
}

proof fn lemma_opposite_square(p: int, q: int)
    by (nonlinear_arith)
    ensures
        (p - q) * (p - q) == (q - p) * (q - p),
{
}

/// Two circles in contact report the same contact from either side, up to
/// the direction of the normal.
///
/// The law leaves out circles with one center, for which both queries report
/// the x axis as the normal and each its own radius as the depth.
pub proof fn lemma_circle_contact_symmetric(a: Circle, b: Circle)
    requires
        a.wf(),
        b.wf(),
        a.touches(&b),
        a.center != b.center,
    ensures
        b.touches(&a),
        a.spec_circle_collision(&b) matches Some(x) && b.spec_circle_collision(&a) matches Some(y)
            && x == y.flipped(),
{
    lemma_opposite_square(a.center.x as int, b.center.x as int);
    lemma_opposite_square(a.center.y as int, b.center.y as int);
    assert(a.offset(&b).norm_sq() == b.offset(&a).norm_sq());
    lemma_distinct_apart(a.center.x - b.center.x, a.center.y - b.center.y, 0);
    lemma_direction2(b.offset(&a));
    assert(b.offset(&a).neg() == a.offset(&b));
}

/// Two spheres in contact report the same contact from either side, up to
/// the direction of the normal.
///
/// The law leaves out spheres with one center, for which both queries report
/// the x axis as the normal and each its own radius as the depth.
pub proof fn lemma_sphere_contact_symmetric(a: Sphere, b: Sphere)
    requires
        a.wf(),
        b.wf(),
        a.touches(&b),
        a.center != b.center,
    ensures
        b.touches(&a),
        a.spec_sphere_collision(&b) matches Some(x) && b.spec_sphere_collision(&a) matches Some(y)
            && x == y.flipped(),
{
    lemma_opposite_square(a.center.x as int, b.center.x as int);
    lemma_opposite_square(a.center.y as int, b.center.y as int);
    lemma_opposite_square(a.center.z as int, b.center.z as int);
    assert(a.offset(&b).norm_sq() == b.offset(&a).norm_sq());
    lemma_distinct_apart(
        a.center.x - b.center.x,
        a.center.y - b.center.y,
        a.center.z - b.center.z,
    );
    lemma_direction3(b.offset(&a));
    assert(b.offset(&a).neg() == a.offset(&b));
}

proof fn lemma_distinct_apart(x: int, y: int, z: int)
    by (nonlinear_arith)
    requires
        x != 0 || y != 0 || z != 0,
    ensures
        x * x + y * y + z * z > 0,
{
}

/// Circles whose centers are exactly the sum of their radii apart are in
/// contact, with depth zero.
pub proof fn lemma_tangent_circles_touch(a: Circle, b: Circle)
    requires
        a.wf(),
        b.wf(),
        a.offset(&b).norm_sq() == a.reach(&b) * a.reach(&b),
    ensures
        a.spec_circle_collision(&b) matches Some(c) && c.penetration == 0,
{
    lemma_sqrt_of_square(a.reach(&b));
    if a.offset(&b).norm_sq() == 0 {
        assert(a.reach(&b) == 0) by (nonlinear_arith)
            requires
                a.reach(&b) * a.reach(&b) == 0,
        ;
    }
}

/// Spheres whose centers are exactly the sum of their radii apart are in
/// contact, with depth zero.
pub proof fn lemma_tangent_spheres_touch(a: Sphere, b: Sphere)
    requires
        a.wf(),
        b.wf(),
        a.offset(&b).norm_sq() == a.reach(&b) * a.reach(&b),
    ensures
        a.spec_sphere_collision(&b) matches Some(c) && c.penetration == 0,
{
    lemma_sqrt_of_square(a.reach(&b));
    if a.offset(&b).norm_sq() == 0 {
        assert(a.reach(&b) == 0) by (nonlinear_arith)
            requires
                a.reach(&b) * a.reach(&b) == 0,
        ;
    }
}

/// Against a surface whose normal has unit length nothing is rounded: the
/// depth of a sphere is its radius less the signed distance of its center.
pub proof fn lemma_depth_is_exact_for_unit_normals(radius: int, s: int)
    ensures
        depth_below(radius, s, 1) == radius - s,
{
    if s >= 0 {
        lemma_sqrt_of_square(s);
    } else {
        lemma_sqrt_of_square(-s);
        assert((-s) * (-s) == s * s) by (nonlinear_arith);
    }
}

/// The measure of a triangle's area is the squared length of its normal: it
/// is never negative, and zero exactly when the normal is zero.
pub proof fn lemma_area_is_normal_squared(t: Triangle)
    ensures
        t.area_measure() == t.spec_normal().norm_sq(),
        t.area_measure() >= 0,
        t.area_measure() == 0 <==> t.spec_normal() == (V3 { x: 0, y: 0, z: 0 }),
{
    lemma_lagrange(t.edge2(), t.edge3());
    lemma_commute(t.edge2().norm_sq(), t.edge3().norm_sq());
    lemma_commute(t.edge2().dot(t.edge3()), t.edge2().dot(t.edge3()));
    lemma_dot_commutes(t.edge2(), t.edge3());
    let n = t.spec_normal();
    if n != (V3 { x: 0, y: 0, z: 0 }) {
        lemma_distinct_apart(n.x, n.y, n.z);
    } else {
        assert(n.x * n.x + n.y * n.y + n.z * n.z == 0) by (nonlinear_arith)
            requires
                n.x == 0 && n.y == 0 && n.z == 0,
        ;
    }
}

proof fn lemma_commute(p: int, q: int)
    by (nonlinear_arith)
    ensures
        p * q == q * p,
{
}

proof fn lemma_dot_commutes(a: V3, b: V3)
    by (nonlinear_arith)
    ensures
        a.dot(b) == b.dot(a),
        a.x * b.x + a.y * b.y + a.z * b.z == b.x * a.x + b.y * a.y + b.z * a.z,
{
}

proof fn lemma_along_component(e: int, d: int, n: int, k: int)
    by (nonlinear_arith)
    ensures
        e * (d + n * k) == e * d + k * (e * n),
{
}

proof fn lemma_dot_along(e: V3, d: V3, n: V3, k: int)
    requires
        e.dot(n) == 0,
    ensures
        e.dot(d.add(n.scale(k))) == e.dot(d),
{
    lemma_along_component(e.x, d.x, n.x, k);
    lemma_along_component(e.y, d.y, n.y, k);
    lemma_along_component(e.z, d.z, n.z, k);
    lemma_gather(k, e.x * n.x, e.y * n.y, e.z * n.z);
    assert(k * (e.x * n.x + e.y * n.y + e.z * n.z) == 0) by (nonlinear_arith)
        requires
            e.x * n.x + e.y * n.y + e.z * n.z == 0,
    ;
}

/// Whether a triangle contains a point depends only on where the point
/// projects onto the triangle's plane: moving the point along the normal
/// changes nothing.
pub proof fn lemma_containment_is_of_the_projection(t: Triangle, point: V3, k: int)
    ensures
        t.spec_contains(point.add(t.spec_normal().scale(k))) == t.spec_contains(point),
        t.weight2(point.add(t.spec_normal().scale(k))) == t.weight2(point),
        t.weight3(point.add(t.spec_normal().scale(k))) == t.weight3(point),
{
    let n = t.spec_normal();
    let d = point.sub(t.point1@);
    let moved = point.add(n.scale(k)).sub(t.point1@);
    assert(moved == d.add(n.scale(k)));
    lemma_cross_is_orthogonal(t.edge2(), t.edge3());
    lemma_dot_along(t.edge2(), d, n, k);
    lemma_dot_along(t.edge3(), d, n, k);
}

/// The three corners of a triangle lie in its plane.
pub proof fn lemma_corners_lie_in_the_plane(t: Triangle)
    ensures
        t.spec_distance(t.point1@) == 0,
        t.spec_distance(t.point2@) == 0,
        t.spec_distance(t.point3@) == 0,
{
    lemma_cross_is_orthogonal(t.edge2(), t.edge3());
    let n = t.spec_normal();
    assert(t.point1@.sub(t.point1@).dot(n) == 0) by (nonlinear_arith)
        requires
            t.point1@.sub(t.point1@) == (V3 { x: 0, y: 0, z: 0 }),
    ;
}

/// A triangle with an area contains its centroid, wherever the centroid is a
/// point of the lattice.
pub proof fn lemma_centroid_contained(t: Triangle, centroid: V3)
    requires
        t.area_measure() > 0,
        3 * centroid.x == t.point1.x + t.point2.x + t.point3.x,
        3 * centroid.y == t.point1.y + t.point2.y + t.point3.y,
        3 * centroid.z == t.point1.z + t.point2.z + t.point3.z,
    ensures
        t.spec_contains(centroid),
{
    let d0 = t.edge3();
    let d1 = t.edge2();
    let d2 = centroid.sub(t.point1@);
    assert(3 * d2.x == d0.x + d1.x && 3 * d2.y == d0.y + d1.y && 3 * d2.z == d0.z + d1.z);
    lemma_dot_thirds(d0, d0, d1, d2);
    lemma_dot_thirds(d1, d0, d1, d2);
    lemma_dot_commutes(d0, d1);
    let d00 = d0.norm_sq();
    let d11 = d1.norm_sq();
    let d01 = d0.dot(d1);
    let d02 = d0.dot(d2);
    let d12 = d1.dot(d2);
    assert(3 * d02 == d00 + d01);
    assert(3 * d12 == d01 + d11);
    assert(3 * (d11 * d02 - d01 * d12) == d00 * d11 - d01 * d01 && 3 * (d00 * d12 - d01 * d02)
        == d00 * d11 - d01 * d01) by (nonlinear_arith)
        requires
            3 * d02 == d00 + d01,
            3 * d12 == d01 + d11,
    ;
}

proof fn lemma_dot_thirds(e: V3, d0: V3, d1: V3, d2: V3)
    by (nonlinear_arith)
    requires
        3 * d2.x == d0.x + d1.x,
        3 * d2.y == d0.y + d1.y,
        3 * d2.z == d0.z + d1.z,
    ensures
        3 * e.dot(d2) == e.dot(d0) + e.dot(d1),
{
}

} // verus!

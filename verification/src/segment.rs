//! Line segments: the nearest point of a segment to a point, and how far it
//! is.
use vstd::prelude::*;
use crate::collision3d::REACH_MAX;
use crate::scalar::{div_floor, lemma_product_bound, COORD_MAX};
use crate::vector::{lemma_dot_bound3, lemma_lagrange, lemma_norm_sq_bound3, Vector3, V3};

verus! {

/// How far along the segment from `start` to `end` the point nearest to
/// `point` lies, as the numerator of a fraction of the squared length.
pub open spec fn along(start: V3, end: V3, point: V3) -> int {
    point.sub(start).dot(end.sub(start))
}

/// The nearest point is the start of the segment: the segment has no length,
/// or `point` projects onto its line at or before the start.
pub open spec fn nearest_is_start(start: V3, end: V3, point: V3) -> bool {
    end.sub(start).norm_sq() == 0 || along(start, end, point) <= 0
}

/// The nearest point is the end of the segment.
pub open spec fn nearest_is_end(start: V3, end: V3, point: V3) -> bool {
    !nearest_is_start(start, end, point) && along(start, end, point) >= end.sub(start).norm_sq()
}

/// The point of the segment from `start` to `end` nearest to `point`, each
/// coordinate of its offset from `start` rounded toward negative infinity.
pub open spec fn spec_closest_to_segment(start: V3, end: V3, point: V3) -> V3 {
    let ab = end.sub(start);
    let t = along(start, end, point);
    let len = ab.norm_sq();
    if nearest_is_start(start, end, point) {
        start
    } else if nearest_is_end(start, end, point) {
        end
    } else {
        V3 {
            x: start.x + (ab.x * t) / len,
            y: start.y + (ab.y * t) / len,
            z: start.z + (ab.z * t) / len,
        }
    }
}

/// The squared distance from `point` to the segment from `start` to `end`,
/// rounded down to a whole number. The distance is measured to the exact
/// nearest point of the segment, not to its rounding to the lattice.
pub open spec fn spec_segment_distance_squared(start: V3, end: V3, point: V3) -> int {
    let ab = end.sub(start);
    let t = along(start, end, point);
    let len = ab.norm_sq();
    if nearest_is_start(start, end, point) {
        point.sub(start).norm_sq()
    } else if nearest_is_end(start, end, point) {
        point.sub(end).norm_sq()
    } else {
        (point.sub(start).norm_sq() * len - t * t) / len
    }
}

/// The point of the segment from `start` to `end` nearest to `point`, rounded
/// to the lattice.
pub fn closest_to_segment(start: &Vector3, end: &Vector3, point: &Vector3) -> (r: Vector3)
    requires
        start.in_world(),
        end.in_world(),
        point@.within(REACH_MAX as int),
    ensures
        r@ == spec_closest_to_segment(start@, end@, point@),
        r.in_world(),
{
    let ab = end.minus(start);
    let ap = point.minus(start);
    let t: i128 = ap.dot(&ab);
    let len: i128 = ab.magnitude_squared();
    proof {
        lemma_norm_sq_bound3(ab@, 2 * COORD_MAX);
        lemma_dot_bound3(ap@, ab@, 900_000, 2 * COORD_MAX);
    }
    if len == 0 || t <= 0 {
        *start
    } else if t >= len {
        *end
    } else {
        let x: i64 = start.x + part_of(ab.x, t, len);
        let y: i64 = start.y + part_of(ab.y, t, len);
        let z: i64 = start.z + part_of(ab.z, t, len);
        Vector3::new(x, y, z)
    }
}

/// The squared distance from `point` to the segment from `start` to `end`,
/// rounded down to a whole number.
pub fn segment_distance_squared(start: &Vector3, end: &Vector3, point: &Vector3) -> (r: i64)
    requires
        start.in_world(),
        end.in_world(),
        point@.within(REACH_MAX as int),
    ensures
        r == spec_segment_distance_squared(start@, end@, point@),
        0 <= r <= 2_430_000_000_000,
{
    let ab = end.minus(start);
    let ap = point.minus(start);
    let bp = point.minus(end);
    let t: i128 = ap.dot(&ab);
    let len: i128 = ab.magnitude_squared();
    let from_start: i128 = ap.magnitude_squared();
    proof {
        lemma_norm_sq_bound3(ab@, 2 * COORD_MAX);
        lemma_norm_sq_bound3(ap@, 900_000);
        lemma_norm_sq_bound3(bp@, 900_000);
        lemma_dot_bound3(ap@, ab@, 900_000, 2 * COORD_MAX);
    }
    if len == 0 || t <= 0 {
        from_start as i64
    } else if t >= len {
        let from_end: i128 = bp.magnitude_squared();
        from_end as i64
    } else {
        proof {
            lemma_product_bound(from_start as int, len as int, 2_430_000_000_000, 120_000_000_000);
            lemma_product_bound(t as int, t as int, 120_000_000_000, 120_000_000_000);
            lemma_lagrange(ap@, ab@);
            lemma_between(from_start as int, len as int, t as int);
        }
        let q: i128 = div_floor(from_start * len - t * t, len);
        q as i64
    }
}

/// Strictly inside the segment, the squared distance to the line is not
/// negative and no larger than the squared distance to the start.
proof fn lemma_between(from_start: int, len: int, t: int)
    requires
        0 < t < len,
        0 <= from_start,
        t * t <= from_start * len,
    ensures
        0 <= (from_start * len - t * t) / len <= from_start,
{
    let a = from_start * len - t * t;
    vstd::arithmetic::div_mod::lemma_fundamental_div_mod(a, len);
    let q = a / len;
    let r = a % len;
    assert(0 <= q <= from_start) by (nonlinear_arith)
        requires
            a == from_start * len - t * t,
            a == len * q + r,
            0 <= r < len,
            0 < t < len,
            0 <= a,
            0 <= from_start,
    ;
}

/// One coordinate of the way from the start of a segment to the nearest
/// point: `d * t / len`, rounded toward negative infinity, for a coordinate
/// `d` of the segment and `0 < t < len`.
fn part_of(d: i64, t: i128, len: i128) -> (r: i64)
    requires
        0 < t < len,
        -200_000 <= d <= 200_000,
        len <= 120_000_000_000,
    ensures
        r == (d * t) / (len as int),
        d >= 0 ==> 0 <= r <= d,
        d <= 0 ==> d <= r <= 0,
{
    proof {
        lemma_product_bound(d as int, t as int, 200_000, 120_000_000_000);
        lemma_part(d as int, t as int, len as int);
    }
    let q: i128 = div_floor((d as i128) * t, len);
    q as i64
}

proof fn lemma_part(d: int, t: int, len: int)
    requires
        0 < t < len,
    ensures
        d >= 0 ==> 0 <= (d * t) / len <= d,
        d <= 0 ==> d <= (d * t) / len <= 0,
{
    let a = d * t;
    vstd::arithmetic::div_mod::lemma_fundamental_div_mod(a, len);
    let q = a / len;
    let r = a % len;
    assert((d >= 0 ==> 0 <= q <= d) && (d <= 0 ==> d <= q <= 0)) by (nonlinear_arith)
        requires
            a == d * t,
            a == len * q + r,
            0 <= r < len,
            0 < t < len,
    ;
}

} // verus!

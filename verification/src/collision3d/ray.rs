//! Rays.
use vstd::prelude::*;
use crate::collision3d::capsule::Capsule;
use crate::collision3d::plane::{Plane, NORMAL_MAX};
use crate::collision3d::REACH_MAX;
use crate::scalar::{div_floor, wide_mul};
use crate::vector::{fits_i64, lemma_dot_bound3, Vector3, V3};

verus! {

/// The largest magnitude of a component of a ray's direction: twice
/// `COORD_MAX`, which covers the difference of any two points of the world.
pub const DIRECTION_MAX: i64 = 200_000;

/// A ray from a point along a direction. The direction is any lattice
/// vector; a parameter `t` along the ray stands for `point + direction * t`.
#[derive(Clone, Copy, Debug, PartialEq, Eq, Structural)]
pub struct Ray {
    pub point: Vector3,
    pub direction: Vector3,
}

impl Ray {
    /// The origin lies inside the world cube and the direction is bounded.
    pub open spec fn wf(&self) -> bool {
        self.point.in_world() && self.direction@.within(DIRECTION_MAX as int)
    }

    /// The parameter at which the ray's line meets `plane`, as a numerator
    /// over a positive denominator; `None` where the direction runs along the
    /// plane.
    pub open spec fn spec_crossing(&self, plane: &Plane) -> Option<(int, int)> {
        let m = plane.normal@.dot(self.direction@);
        let s = plane.spec_distance(self.point@);
        if m == 0 {
            None
        } else if m > 0 {
            Some((-s, m))
        } else {
            Some((s, -m))
        }
    }

    /// The point at the parameter `num / den`, each coordinate of its offset
    /// from the origin rounded toward negative infinity.
    pub open spec fn spec_point_at(&self, num: int, den: int) -> V3 {
        V3 {
            x: self.point.x + (self.direction.x * num) / den,
            y: self.point.y + (self.direction.y * num) / den,
            z: self.point.z + (self.direction.z * num) / den,
        }
    }

    pub fn new(point: &Vector3, direction: &Vector3) -> (r: Ray)
        ensures
            r.point == *point,
            r.direction == *direction,
    {
        Ray { point: *point, direction: *direction }
    }

    /// The ray along a capsule's axis: from its start, in the direction of
    /// `Capsule::direction`.
    pub fn from(capsule: &Capsule) -> (r: Ray)
        requires
            capsule.wf(),
        ensures
            r.point == capsule.start,
            r.direction@ == capsule.spec_axis(),
            r.wf(),
    {
        let direction = capsule.direction();
        Ray { direction, point: capsule.start }
    }

    /// The point at the whole parameter `dist`.
    pub fn get_point(&self, dist: i64) -> (r: Vector3)
        requires
            fits_i64(self.direction.x * dist),
            fits_i64(self.direction.y * dist),
            fits_i64(self.direction.z * dist),
            fits_i64(self.point.x + self.direction.x * dist),
            fits_i64(self.point.y + self.direction.y * dist),
            fits_i64(self.point.z + self.direction.z * dist),
        ensures
            r@ == self.point@.add(self.direction@.scale(dist as int)),
            r@ == self.spec_point_at(dist as int, 1),
    {
        self.point.plus(&self.direction.scaled(dist))
    }

    /// The point at the parameter `num / den`, rounded to the lattice.
    pub fn get_point_at(&self, num: i64, den: i64) -> (r: Vector3)
        requires
            den > 0,
            self.wf(),
            self.spec_point_at(num as int, den as int).within(REACH_MAX as int),
        ensures
            r@ == self.spec_point_at(num as int, den as int),
    {
        let x: i128 = div_floor(wide_mul(self.direction.x, num), den as i128);
        let y: i128 = div_floor(wide_mul(self.direction.y, num), den as i128);
        let z: i128 = div_floor(wide_mul(self.direction.z, num), den as i128);
        Vector3::new(
            (self.point.x as i128 + x) as i64,
            (self.point.y as i128 + y) as i64,
            (self.point.z as i128 + z) as i64,
        )
    }

    /// The plane through the ray's origin with the given normal.
    pub fn to_plane(&self, normal: &Vector3) -> (r: Plane)
        requires
            self.wf(),
            normal@.within(NORMAL_MAX as int),
        ensures
            r.normal == *normal,
            r.d == -normal@.dot(self.point@),
            r.in_range(),
            r.spec_distance(self.point@) == 0,
    {
        Plane::from_point(normal, &self.point)
    }

    /// The parameter at which the ray's line meets `plane`, as a numerator
    /// and a positive denominator: the point `origin + direction * num / den`
    /// lies on the plane. There is none where the direction runs along the
    /// plane. A negative parameter means that the plane lies behind the ray.
    pub fn intersects_plane(&self, plane: &Plane) -> (r: Option<(i64, i64)>)
        requires
            self.wf(),
            plane.in_range(),
        ensures
            r.is_some() <==> plane.normal@.dot(self.direction@) != 0,
            r matches Some(t) ==> self.spec_crossing(plane) == Some((t.0 as int, t.1 as int)),
            r matches Some(t) ==> t.1 > 0 && -216_000_000_000_000_000 <= t.0
                <= 216_000_000_000_000_000,
            r matches Some(t) ==> plane.spec_distance(self.point@) * t.1 + plane.normal@.dot(
                self.direction@,
            ) * t.0 == 0,
    {
        proof {
            lemma_dot_bound3(
                plane.normal@,
                self.direction@,
                NORMAL_MAX as int,
                DIRECTION_MAX as int,
            );
        }
        let denom: i128 = plane.normal.dot(&self.direction);
        if denom == 0 {
            None
        } else {
            let s: i64 = plane.distance(&self.point);
            proof {
                lemma_crossing(s as int, denom as int);
            }
            if denom > 0 {
                Some((-s, denom as i64))
            } else {
                Some((s, (-denom) as i64))
            }
        }
    }
}

proof fn lemma_crossing(s: int, m: int)
    by (nonlinear_arith)
    ensures
        s * m + m * (-s) == 0,
        s * (-m) + m * s == 0,
{
}

} // verus!

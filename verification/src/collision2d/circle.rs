//! Circles.
use vstd::prelude::*;
use crate::collision2d::aabb::AxisAlignedBoundingBox;
use crate::collision2d::Shape2D;
use crate::collision_resolution::CollisionResolution;
use crate::scalar::{ceil_sqrt, in_range, isqrt_ceil, lemma_root_below, wide_mul, RANGE_MAX};
use crate::vector::fits_i64;
use crate::vector::{lemma_norm_sq_bound2, Vector2, V2};

verus! {

/// A circle. The radius is never negative; a radius of zero is a point.
#[derive(Clone, Copy, Debug, PartialEq, Eq, Structural)]
pub struct Circle {
    pub center: Vector2,
    pub radius: i64,
}

impl Circle {
    /// The radius is not negative and the circle lies inside the range of the
    /// lattice.
    pub open spec fn wf(&self) -> bool {
        &&& 0 <= self.radius
        &&& in_range(self.center.x - self.radius)
        &&& in_range(self.center.x + self.radius)
        &&& in_range(self.center.y - self.radius)
        &&& in_range(self.center.y + self.radius)
    }

    /// Whether the radius is not negative and the circle lies inside the
    /// range of the lattice.
    pub fn is_valid(&self) -> (r: bool)
        ensures
            r == self.wf(),
    {
        0 <= self.radius && self.radius <= 2 * RANGE_MAX && self.center.is_in_range()
            && -RANGE_MAX <= self.center.x - self.radius && self.center.x + self.radius
            <= RANGE_MAX && -RANGE_MAX <= self.center.y - self.radius && self.center.y
            + self.radius <= RANGE_MAX
    }

    /// The offset from the other circle's center to this one's.
    pub open spec fn offset(&self, other: &Circle) -> V2 {
        self.center@.sub(other.center@)
    }

    /// The distance between the centers at which the circles just touch.
    pub open spec fn reach(&self, other: &Circle) -> int {
        self.radius + other.radius
    }

    /// The circles overlap or touch: their centers are no further apart than
    /// the sum of the radii.
    pub open spec fn touches(&self, other: &Circle) -> bool {
        self.offset(other).norm_sq() <= self.reach(other) * self.reach(other)
    }

    /// The contact between two circles, as `get_circle_collision` reports it.
    pub open spec fn spec_circle_collision(&self, other: &Circle) -> Option<
        CollisionResolution<Vector2>,
    > {
        let n = self.offset(other);
        if !self.touches(other) {
            None
        } else if n.norm_sq() == 0 {
            Some(CollisionResolution::<Vector2>::spec_along(V2 { x: 1, y: 0 }, self.radius as int))
        } else {
            Some(
                CollisionResolution::<Vector2>::spec_along(
                    n,
                    self.reach(other) - ceil_sqrt(n.norm_sq()),
                ),
            )
        }
    }

    /// The contact between two circles.
    ///
    /// There is none when the centers are further apart than the sum of the
    /// radii; circles that just touch are in contact with depth zero. For
    /// coincident centers the normal is the x axis and the depth is this
    /// circle's radius. Otherwise the normal points from the other center to
    /// this one, and the depth is the sum of the radii less the distance
    /// between the centers, rounded down to a whole unit. The direction is
    /// the unit normal where the centers differ along one axis only, and the
    /// offset between the centers otherwise.
    pub fn get_circle_collision(&self, sphere: &Circle) -> (r: Option<CollisionResolution<Vector2>>)
        requires
            self.wf(),
            sphere.wf(),
        ensures
            r == self.spec_circle_collision(sphere),
            r.is_some() <==> self.touches(sphere),
            r matches Some(c) ==> if self.offset(sphere).norm_sq() == 0 {
                c.direction@ == (V2 { x: 1, y: 0 }) && c.penetration == self.radius
            } else {
                c.direction@ == self.offset(sphere).direction() && c.penetration == self.reach(
                    sphere,
                ) - ceil_sqrt(self.offset(sphere).norm_sq())
            },
            r matches Some(c) ==> c.wf(),
            r matches Some(c) ==> (self.offset(sphere).is_axial() || self.offset(sphere).norm_sq()
                == 0 ==> c.is_unit()),
            r matches Some(c) ==> 0 <= c.penetration <= self.reach(sphere),
    {
        let n = self.center.minus(&sphere.center);
        let reach: i64 = self.radius + sphere.radius;
        let limit: i128 = wide_mul(reach, reach);
        let len: i128 = n.magnitude_squared();
        proof {
            lemma_norm_sq_bound2(n@, 2_147_483_648);
        }
        if len > limit {
            return None;
        }
        if len == 0 {
            Some(CollisionResolution::<Vector2>::along(&Vector2::new(1, 0), self.radius))
        } else {
            let d: i128 = isqrt_ceil(len);
            proof {
                lemma_root_below(len as int, d as int, reach as int);
            }
            Some(CollisionResolution::<Vector2>::along(&n, reach - (d as i64)))
        }
    }
}

impl Shape2D for Circle {
    open spec fn valid(&self) -> bool {
        self.wf()
    }

    open spec fn spec_bounding_aabb(&self) -> AxisAlignedBoundingBox {
        AxisAlignedBoundingBox {
            start: Vector2 {
                x: (self.center.x - self.radius) as i64,
                y: (self.center.y - self.radius) as i64,
            },
            end: Vector2 {
                x: (self.center.x + self.radius) as i64,
                y: (self.center.y + self.radius) as i64,
            },
        }
    }

    open spec fn spec_bounding_sphere(&self) -> Circle {
        *self
    }

    open spec fn spec_center(&self) -> V2 {
        self.center@
    }

    open spec fn can_translate(&self, offset: V2) -> bool {
        &&& fits_i64(self.center.x + offset.x)
        &&& fits_i64(self.center.y + offset.y)
    }

    open spec fn translated(&self, offset: V2) -> Self {
        Circle {
            center: Vector2 {
                x: (self.center.x + offset.x) as i64,
                y: (self.center.y + offset.y) as i64,
            },
            radius: self.radius,
        }
    }

    open spec fn can_recenter(&self, point: V2) -> bool {
        &&& in_range(point.x - self.radius)
        &&& in_range(point.x + self.radius)
        &&& in_range(point.y - self.radius)
        &&& in_range(point.y + self.radius)
    }

    open spec fn recentered(&self, point: V2) -> Self {
        Circle { center: Vector2 { x: point.x as i64, y: point.y as i64 }, radius: self.radius }
    }

    fn bounding_aabb(&self) -> (r: AxisAlignedBoundingBox)
        ensures
            r.wf(),
            r.start@ == self.center@.sub(V2 { x: self.radius as int, y: self.radius as int }),
            r.end@ == self.center@.add(V2 { x: self.radius as int, y: self.radius as int }),
    {
        let reach = Vector2::from_element(self.radius);
        AxisAlignedBoundingBox { start: self.center.minus(&reach), end: self.center.plus(&reach) }
    }

    fn bounding_sphere(&self) -> (r: Circle) {
        *self
    }

    fn center(&self) -> (r: Vector2) {
        self.center
    }

    fn translate(&self, point: &Vector2) -> (r: Circle)
        ensures
            r.center@ == self.center@.add(point@),
            r.radius == self.radius,
    {
        Circle { center: self.center.plus(point), radius: self.radius }
    }

    fn set_center(&self, point: &Vector2) -> (r: Circle)
        ensures
            r.center == *point,
            r.radius == self.radius,
    {
        Circle { center: *point, radius: self.radius }
    }

    fn translate_mut(&mut self, point: &Vector2)
        ensures
            final(self).center@ == old(self).center@.add(point@),
            final(self).radius == old(self).radius,
    {
        self.center = self.center.plus(point);
    }

    fn set_center_mut(&mut self, point: &Vector2)
        ensures
            final(self).center == *point,
            final(self).radius == old(self).radius,
    {
        self.center = *point;
    }

    proof fn lemma_translate_moves_center(&self, offset: V2) {
    }

    proof fn lemma_recenter_sets_center(&self, point: V2) {
    }

    proof fn lemma_translate_zero(&self) {
    }
}

} // verus!

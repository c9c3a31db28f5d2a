//! Spheres.
use vstd::prelude::*;
use crate::collision2d::Circle;
use crate::collision3d::aabb::AxisAlignedBoundingBox;
use crate::collision3d::plane::{lemma_norm_sq_positive, Plane, NORMAL_MAX};
use crate::collision3d::capsule::Capsule;
use crate::collision3d::triangle::Triangle;
use crate::collision3d::{Axis, Shape3D, REACH_MAX};
use crate::collision_resolution::CollisionResolution;
use crate::scalar::{
    ceil_div, ceil_sqrt, div_ceil, div_floor, floor_sqrt, in_range, isqrt, isqrt_ceil,
    lemma_floor_root_below, lemma_product_bound, lemma_ratio_below, lemma_root_below,
    lemma_square_bound, wide_mul, COORD_MAX, RANGE_MAX,
};
use crate::vector::{fits_i64, lemma_norm_sq_bound3, Vector2, Vector3, V3};

verus! {

/// A sphere. The radius is never negative; a radius of zero is a point.
#[derive(Clone, Copy, Debug, PartialEq, Eq, Structural)]
pub struct Sphere {
    pub center: Vector3,
    pub radius: i64,
}

/// The depth of a sphere of radius `radius` in a surface from which its
/// center has the signed distance `s / sqrt(nn)`, rounded down to a whole
/// unit.
pub open spec fn depth_below(radius: int, s: int, nn: int) -> int {
    if nn == 0 {
        radius
    } else if s >= 0 {
        radius - ceil_sqrt(ceil_div(s * s, nn))
    } else {
        radius + floor_sqrt((s * s) / nn)
    }
}

impl Sphere {
    /// The radius is not negative and the sphere lies inside the range of the
    /// lattice.
    pub open spec fn wf(&self) -> bool {
        &&& 0 <= self.radius
        &&& in_range(self.center.x - self.radius)
        &&& in_range(self.center.x + self.radius)
        &&& in_range(self.center.y - self.radius)
        &&& in_range(self.center.y + self.radius)
        &&& in_range(self.center.z - self.radius)
        &&& in_range(self.center.z + self.radius)
    }

    /// The radius is not negative and no larger than the world, and the
    /// center is within reach, as the queries against planes, triangles and
    /// capsules ask. This holds of every sphere inside the world cube, and of
    /// the spheres that the capsule queries place on a capsule's axis, which
    /// may leave the world.
    pub open spec fn in_reach(&self) -> bool {
        0 <= self.radius <= COORD_MAX && self.center@.within(REACH_MAX as int)
    }

    /// The radius is not negative, and the radius and the center are inside
    /// the range of the lattice. This holds of every valid sphere.
    pub open spec fn in_range(&self) -> bool {
        0 <= self.radius <= RANGE_MAX && self.center.in_range()
    }

    /// Whether the sphere is in reach of the queries against planes,
    /// triangles and capsules.
    pub fn is_in_reach(&self) -> (r: bool)
        ensures
            r == self.in_reach(),
            r ==> self.in_range(),
    {
        0 <= self.radius && self.radius <= COORD_MAX && -REACH_MAX <= self.center.x
            && self.center.x <= REACH_MAX && -REACH_MAX <= self.center.y && self.center.y
            <= REACH_MAX && -REACH_MAX <= self.center.z && self.center.z <= REACH_MAX
    }

    /// The smallest box around the sphere.
    pub open spec fn spec_bounds(&self) -> AxisAlignedBoundingBox {
        AxisAlignedBoundingBox {
            start: Vector3 {
                x: (self.center.x - self.radius) as i64,
                y: (self.center.y - self.radius) as i64,
                z: (self.center.z - self.radius) as i64,
            },
            end: Vector3 {
                x: (self.center.x + self.radius) as i64,
                y: (self.center.y + self.radius) as i64,
                z: (self.center.z + self.radius) as i64,
            },
        }
    }

    /// The smallest box around the sphere.
    pub fn bounds(&self) -> (r: AxisAlignedBoundingBox)
        requires
            self.wf(),
        ensures
            r == self.spec_bounds(),
            r.wf(),
    {
        let reach = Vector3::from_element(self.radius);
        AxisAlignedBoundingBox { start: self.center.minus(&reach), end: self.center.plus(&reach) }
    }

    /// Whether the radius is not negative and the sphere lies inside the
    /// range of the lattice.
    pub fn is_valid(&self) -> (r: bool)
        ensures
            r == self.wf(),
    {
        0 <= self.radius && self.radius <= RANGE_MAX && self.center.is_in_range() && -RANGE_MAX
            <= self.center.x - self.radius && self.center.x + self.radius <= RANGE_MAX
            && -RANGE_MAX <= self.center.y - self.radius && self.center.y + self.radius
            <= RANGE_MAX && -RANGE_MAX <= self.center.z - self.radius && self.center.z
            + self.radius <= RANGE_MAX
    }

    /// The offset from the other sphere's center to this one's.
    pub open spec fn offset(&self, other: &Sphere) -> V3 {
        self.center@.sub(other.center@)
    }

    /// The distance between the centers at which the spheres just touch.
    pub open spec fn reach(&self, other: &Sphere) -> int {
        self.radius + other.radius
    }

    /// The spheres overlap or touch: their centers are no further apart than
    /// the sum of the radii.
    pub open spec fn touches(&self, other: &Sphere) -> bool {
        self.offset(other).norm_sq() <= self.reach(other) * self.reach(other)
    }

    /// The contact between two spheres, as `get_sphere_collision` reports it.
    pub open spec fn spec_sphere_collision(&self, other: &Sphere) -> Option<
        CollisionResolution<Vector3>,
    > {
        let n = self.offset(other);
        if !self.touches(other) {
            None
        } else if n.norm_sq() == 0 {
            Some(
                CollisionResolution::<Vector3>::spec_along(
                    V3 { x: 1, y: 0, z: 0 },
                    self.radius as int,
                ),
            )
        } else {
            Some(
                CollisionResolution::<Vector3>::spec_along(
                    n,
                    self.reach(other) - ceil_sqrt(n.norm_sq()),
                ),
            )
        }
    }

    /// The contact between two spheres.
    ///
    /// There is none when the centers are further apart than the sum of the
    /// radii; spheres that just touch are in contact with depth zero. For
    /// coincident centers the normal is the x axis and the depth is this
    /// sphere's radius. Otherwise the normal points from the other center to
    /// this one, and the depth is the sum of the radii less the distance
    /// between the centers, rounded down to a whole unit. The direction is
    /// the unit normal where the centers differ along one axis only, and the
    /// offset between the centers otherwise.
    pub fn get_sphere_collision(&self, sphere: &Sphere) -> (r: Option<CollisionResolution<Vector3>>)
        requires
            self.in_range(),
            sphere.in_range(),
        ensures
            r == self.spec_sphere_collision(sphere),
            r.is_some() <==> self.touches(sphere),
            r matches Some(c) ==> if self.offset(sphere).norm_sq() == 0 {
                c.direction@ == (V3 { x: 1, y: 0, z: 0 }) && c.penetration == self.radius
            } else {
                c.direction@ == self.offset(sphere).direction() && c.penetration == self.reach(
                    sphere,
                ) - ceil_sqrt(self.offset(sphere).norm_sq())
            },
            r matches Some(c) ==> c.wf(),
            r matches Some(c) ==> (self.offset(sphere).is_axial() || self.offset(sphere).norm_sq()
                == 0 ==> c.is_unit()),
            r matches Some(c) ==> 0 <= c.penetration <= self.reach(sphere),
    {
        let n = self.center.minus(&sphere.center);
        let reach: i64 = self.radius + sphere.radius;
        let limit: i128 = wide_mul(reach, reach);
        let len: i128 = n.magnitude_squared();
        proof {
            lemma_norm_sq_bound3(n@, 2_147_483_648);
        }
        if len > limit {
            return None;
        }
        if len == 0 {
            Some(CollisionResolution::<Vector3>::along(&Vector3::new(1, 0, 0), self.radius))
        } else {
            let d: i128 = isqrt_ceil(len);
            proof {
                lemma_root_below(len as int, d as int, reach as int);
            }
            Some(CollisionResolution::<Vector3>::along(&n, reach - (d as i64)))
        }
    }

    /// The sphere reaches the plane from the side that the normal points to:
    /// its center is on the plane or on that side, no further away than the
    /// radius.
    pub open spec fn touches_plane(&self, plane: &Plane) -> bool {
        let s = plane.spec_distance(self.center@);
        s >= 0 && s * s <= (self.radius * self.radius) * plane.normal@.norm_sq()
    }

    /// The contact between a sphere and a plane, as `get_plane_collision`
    /// reports it.
    pub open spec fn spec_plane_collision(&self, plane: &Plane) -> Option<
        CollisionResolution<Vector3>,
    > {
        if self.touches_plane(plane) {
            Some(
                CollisionResolution::<Vector3>::spec_along(
                    plane.normal@,
                    depth_below(
                        self.radius as int,
                        plane.spec_distance(self.center@),
                        plane.normal@.norm_sq(),
                    ),
                ),
            )
        } else {
            None
        }
    }

    /// The contact between a sphere and a plane.
    ///
    /// There is one when the center lies on the plane or on the side that the
    /// normal points to, no further from the plane than the radius. The
    /// normal is the plane's: the direction is the unit normal where the
    /// plane's normal runs along a coordinate axis, and the plane's normal
    /// otherwise. The depth is the radius less the distance of the center
    /// from the plane, rounded down to a whole unit.
    pub fn get_plane_collision(&self, plane: &Plane) -> (r: Option<CollisionResolution<Vector3>>)
        requires
            self.in_reach(),
            plane.wf(),
        ensures
            r == self.spec_plane_collision(plane),
            r.is_some() <==> self.touches_plane(plane),
            r matches Some(c) ==> {
                &&& c.direction@ == plane.normal@.direction()
                &&& c.wf()
                &&& plane.normal@.is_axial() ==> c.is_unit()
                &&& c.penetration == depth_below(
                    self.radius as int,
                    plane.spec_distance(self.center@),
                    plane.normal@.norm_sq(),
                )
                &&& 0 <= c.penetration <= self.radius
            },
    {
        let dist: i64 = plane.distance(&self.center);
        let nn: i128 = plane.normal.magnitude_squared();
        proof {
            lemma_norm_sq_bound3(plane.normal@, NORMAL_MAX as int);
            lemma_norm_sq_positive(plane.normal@);
        }
        match sunk_depth(self.radius, dist, nn) {
            Some(depth) => {
                if dist < 0 {
                    None
                } else {
                    Some(CollisionResolution::<Vector3>::along(&plane.normal, depth))
                }
            },
            None => None,
        }
    }

    /// The sphere's center is no further from the triangle's plane than the
    /// radius and, unless both sides count, not behind it.
    pub open spec fn near_triangle(&self, triangle: &Triangle, double_sided: bool) -> bool {
        let s = triangle.spec_distance(self.center@);
        &&& s * s <= (self.radius * self.radius) * triangle.spec_normal().norm_sq()
        &&& double_sided || s >= 0
    }

    /// The sphere reaches the triangle: it is near the triangle's plane, and
    /// its center projects into the triangle or is closer to one of the edges
    /// than the radius.
    pub open spec fn touches_triangle(&self, triangle: &Triangle, double_sided: bool) -> bool {
        &&& self.near_triangle(triangle, double_sided)
        &&& triangle.spec_contains(self.center@) || triangle.edge_distance_squared(self.center@)
            < self.radius * self.radius
    }

    /// The contact between a sphere and a triangle, as
    /// `get_triangle_collision` reports it.
    pub open spec fn spec_triangle_collision(
        &self,
        triangle: &Triangle,
        double_sided: bool,
    ) -> Option<CollisionResolution<Vector3>> {
        let n = triangle.spec_normal();
        if self.touches_triangle(triangle, double_sided) {
            Some(
                CollisionResolution::<Vector3>::spec_along(
                    n,
                    depth_below(
                        self.radius as int,
                        triangle.spec_distance(self.center@),
                        n.norm_sq(),
                    ),
                ),
            )
        } else {
            None
        }
    }

    /// The contact between a sphere and a triangle.
    ///
    /// There is one when the center is no further from the triangle's plane
    /// than the radius (and in front of it, unless `double_sided`), and
    /// either projects into the triangle or is closer to one of its edges
    /// than the radius. The normal is the triangle's in both cases: the
    /// direction is the unit normal where the triangle's normal runs along a
    /// coordinate axis, and the cross product of its edges otherwise. The depth
    /// is the radius less the signed distance of the center from the plane,
    /// rounded down to a whole unit; for corners on one line it is the
    /// radius.
    pub fn get_triangle_collision(&self, triangle: &Triangle, double_sided: bool) -> (r: Option<
        CollisionResolution<Vector3>,
    >)
        requires
            self.in_reach(),
            triangle.wf(),
        ensures
            r == self.spec_triangle_collision(triangle, double_sided),
            r.is_some() <==> self.touches_triangle(triangle, double_sided),
            r matches Some(c) ==> {
                &&& c.direction@ == triangle.spec_normal().direction()
                &&& c.wf()
                &&& triangle.spec_normal().is_axial() ==> c.is_unit()
                &&& c.penetration == depth_below(
                    self.radius as int,
                    triangle.spec_distance(self.center@),
                    triangle.spec_normal().norm_sq(),
                )
                &&& 0 <= c.penetration <= 2 * self.radius
            },
    {
        let normal = triangle.normal();
        let dist: i64 = triangle.distance(&self.center);
        let nn: i128 = normal.magnitude_squared();
        proof {
            lemma_norm_sq_bound3(normal@, NORMAL_MAX as int);
        }
        let depth: i64 = match sunk_depth(self.radius, dist, nn) {
            Some(depth) => depth,
            None => {
                return None;
            },
        };
        if !double_sided && dist < 0 {
            return None;
        }
        if triangle.contains(&self.center) {
            return Some(CollisionResolution::<Vector3>::along(&normal, depth));
        }
        let (_, distance) = triangle.closest_point(&self.center);
        if (distance as i128) < wide_mul(self.radius, self.radius) {
            Some(CollisionResolution::<Vector3>::along(&normal, depth))
        } else {
            None
        }
    }

    /// The contact between a sphere and a capsule: that between the sphere
    /// and a sphere of the capsule's radius around the point of the capsule's
    /// axis nearest to this sphere's center.
    pub fn get_capsule_collision(&self, capsule: &Capsule) -> (r: Option<
        CollisionResolution<Vector3>,
    >)
        requires
            self.in_reach(),
            capsule.wf(),
        ensures
            r == self.spec_sphere_collision(
                &Sphere {
                    center: capsule.spec_closest_point(self.center@),
                    radius: capsule.radius,
                },
            ),
            r matches Some(c) ==> c.wf(),
    {
        let center = capsule.closest_point(&self.center);
        self.get_sphere_collision(&Sphere { center, radius: capsule.radius })
    }

    /// The circle that the sphere shows when looked at along the axis that is
    /// neither `horizontal` nor `vertical`.
    pub open spec fn spec_circle(&self, horizontal: Axis, vertical: Axis) -> Circle {
        Circle {
            center: Vector2 {
                x: self.center@.at(horizontal.index()) as i64,
                y: self.center@.at(vertical.index()) as i64,
            },
            radius: self.radius,
        }
    }

    /// The circle that the sphere shows when looked at along the axis that is
    /// neither `horizontal` nor `vertical`.
    pub fn to_circle(&self, horizontal: Axis, vertical: Axis) -> (r: Circle)
        requires
            horizontal != vertical,
        ensures
            r == self.spec_circle(horizontal, vertical),
            r.center.x == self.center@.at(horizontal.index()),
            r.center.y == self.center@.at(vertical.index()),
            r.radius == self.radius,
            self.wf() ==> r.wf(),
    {
        let x: i64 = match horizontal {
            Axis::X => self.center.x,
            Axis::Y => self.center.y,
            Axis::Z => self.center.z,
        };
        let y: i64 = match vertical {
            Axis::X => self.center.x,
            Axis::Y => self.center.y,
            Axis::Z => self.center.z,
        };
        Circle { center: Vector2::new(x, y), radius: self.radius }
    }
}

/// How deep a sphere of radius `radius` reaches below a surface from which
/// its center has the signed distance `s / sqrt(nn)`; `None` where the center
/// is further than the radius from the surface, on either side.
pub fn sunk_depth(radius: i64, s: i64, nn: i128) -> (r: Option<i64>)
    requires
        0 <= radius <= COORD_MAX,
        -216_000_000_000_000_000 <= s <= 216_000_000_000_000_000,
        0 <= nn <= 3 * (NORMAL_MAX * NORMAL_MAX),
    ensures
        r.is_some() <==> s * s <= (radius * radius) * nn,
        r matches Some(depth) ==> depth == depth_below(radius as int, s as int, nn as int),
        r matches Some(depth) ==> (s >= 0 ==> 0 <= depth <= radius) && (s <= 0 ==> radius <= depth
            <= 2 * radius),
{
    let square: i128 = wide_mul(s, s);
    let rr: i128 = wide_mul(radius, radius);
    proof {
        lemma_square_bound(s as int, 216_000_000_000_000_000);
        lemma_square_bound(radius as int, COORD_MAX as int);
        lemma_product_bound(rr as int, nn as int, 10_000_000_000, 3 * (NORMAL_MAX * NORMAL_MAX));
    }
    if square > rr * nn {
        return None;
    }
    if nn == 0 {
        return Some(radius);
    }
    if s >= 0 {
        let root: i128 = isqrt_ceil(div_ceil(square, nn));
        proof {
            lemma_ratio_below(square as int, nn as int, rr as int);
            lemma_root_below(ceil_div(square as int, nn as int), root as int, radius as int);
        }
        Some(radius - (root as i64))
    } else {
        let root: i128 = isqrt(div_floor(square, nn));
        proof {
            lemma_ratio_below(square as int, nn as int, rr as int);
            lemma_floor_root_below((square / nn) as int, root as int, radius as int);
        }
        Some(radius + (root as i64))
    }
}

impl Shape3D for Sphere {
    open spec fn valid(&self) -> bool {
        self.wf()
    }

    open spec fn spec_bounding_aabb(&self) -> AxisAlignedBoundingBox {
        self.spec_bounds()
    }

    open spec fn spec_bounding_sphere(&self) -> Sphere {
        *self
    }

    open spec fn spec_center(&self) -> V3 {
        self.center@
    }

    open spec fn is_unbounded(&self) -> bool {
        false
    }

    open spec fn can_translate(&self, offset: V3) -> bool {
        &&& fits_i64(self.center.x + offset.x)
        &&& fits_i64(self.center.y + offset.y)
        &&& fits_i64(self.center.z + offset.z)
    }

    open spec fn translated(&self, offset: V3) -> Self {
        Sphere {
            center: Vector3 {
                x: (self.center.x + offset.x) as i64,
                y: (self.center.y + offset.y) as i64,
                z: (self.center.z + offset.z) as i64,
            },
            radius: self.radius,
        }
    }

    open spec fn can_recenter(&self, point: V3) -> bool {
        &&& in_range(point.x - self.radius)
        &&& in_range(point.x + self.radius)
        &&& in_range(point.y - self.radius)
        &&& in_range(point.y + self.radius)
        &&& in_range(point.z - self.radius)
        &&& in_range(point.z + self.radius)
    }

    open spec fn recentered(&self, point: V3) -> Self {
        Sphere {
            center: Vector3 { x: point.x as i64, y: point.y as i64, z: point.z as i64 },
            radius: self.radius,
        }
    }

    fn bounding_aabb(&self) -> (r: AxisAlignedBoundingBox)
        ensures
            r.wf(),
            r.start@ == self.center@.sub(
                V3 { x: self.radius as int, y: self.radius as int, z: self.radius as int },
            ),
            r.end@ == self.center@.add(
                V3 { x: self.radius as int, y: self.radius as int, z: self.radius as int },
            ),
    {
        self.bounds()
    }

    fn bounding_sphere(&self) -> (r: Sphere) {
        *self
    }

    fn center(&self) -> (r: Vector3) {
        self.center
    }

    fn translate(&self, point: &Vector3) -> (r: Sphere)
        ensures
            r.center@ == self.center@.add(point@),
            r.radius == self.radius,
    {
        Sphere { center: self.center.plus(point), radius: self.radius }
    }

    fn set_center(&self, point: &Vector3) -> (r: Sphere)
        ensures
            r.center == *point,
            r.radius == self.radius,
    {
        Sphere { center: *point, radius: self.radius }
    }

    fn translate_mut(&mut self, point: &Vector3)
        ensures
            final(self).center@ == old(self).center@.add(point@),
            final(self).radius == old(self).radius,
    {
        self.center = self.center.plus(point);
    }

    fn set_center_mut(&mut self, point: &Vector3)
        ensures
            final(self).center == *point,
            final(self).radius == old(self).radius,
    {
        self.center = *point;
    }

    proof fn lemma_translate_moves_center(&self, offset: V3) {
    }

    proof fn lemma_recenter_sets_center(&self, point: V3) {
    }

    proof fn lemma_translate_zero(&self) {
    }
}

} // verus!

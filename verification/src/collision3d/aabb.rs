//! Axis-aligned boxes of space.
use arrayvec::ArrayVec;
use vstd::prelude::*;
use crate::collision2d::aabb::AxisAlignedBoundingBox as AABB2D;
use crate::collision3d::capsule::Capsule;
use crate::collision3d::plane::{lemma_norm_sq_positive, Plane, NORMAL_MAX};
use crate::collision3d::sphere::Sphere;
use crate::collision3d::triangle::Triangle;
use crate::collision3d::{Axis, Shape3D};
use crate::collision_resolution::CollisionResolution;
use crate::scalar::{
    ceil_div, ceil_sqrt, div_ceil, floor_sqrt, half_floor, in_range, is_zero, isqrt_ceil,
    lemma_root_below, lemma_square_bound, n_abs, n_clamp, n_max, n_max_value, n_min,
    n_min_value, scaled_down, spec_abs, spec_clamp, spec_max, spec_min, spec_sign, wide_mul,
    COORD_MAX,
};
use crate::vector::{fits_i64, lemma_dot_bound3, lemma_norm_sq_bound3, Vector2, Vector3, V3};

verus! {

#[verifier::external_type_specification]
#[verifier::external_body]
#[verifier::reject_recursive_types(T)]
pub struct ExArrayVec<T, const CAP: usize>(arrayvec::ArrayVec<T, CAP>);

/// An axis-aligned box given by two opposite corners, in either order.
#[derive(Clone, Copy, Debug, PartialEq, Eq, Structural)]
pub struct AxisAlignedBoundingBox {
    pub start: Vector3,
    pub end: Vector3,
}

impl AxisAlignedBoundingBox {
    /// Both corners lie inside the range of the lattice.
    pub open spec fn wf(&self) -> bool {
        self.start.in_range() && self.end.in_range()
    }

    /// Both corners lie inside the world cube, as the queries against
    /// planes, triangles and capsules ask.
    pub open spec fn in_world(&self) -> bool {
        self.start.in_world() && self.end.in_world()
    }

    pub open spec fn spec_width(&self) -> int {
        spec_abs(self.start.x - self.end.x)
    }

    pub open spec fn spec_height(&self) -> int {
        spec_abs(self.start.y - self.end.y)
    }

    pub open spec fn spec_depth(&self) -> int {
        spec_abs(self.start.z - self.end.z)
    }

    /// Width, height and depth: twice the half extents.
    pub open spec fn extent2(&self) -> V3 {
        V3 { x: self.spec_width(), y: self.spec_height(), z: self.spec_depth() }
    }

    /// The sum of the two corners: twice the center, which is exact where the
    /// center itself falls between lattice points.
    pub open spec fn center2(&self) -> V3 {
        self.start@.add(self.end@)
    }

    /// The component-wise least corner.
    pub open spec fn low(&self) -> V3 {
        V3 {
            x: spec_min(self.start.x as int, self.end.x as int),
            y: spec_min(self.start.y as int, self.end.y as int),
            z: spec_min(self.start.z as int, self.end.z as int),
        }
    }

    /// The component-wise greatest corner.
    pub open spec fn high(&self) -> V3 {
        V3 {
            x: spec_max(self.start.x as int, self.end.x as int),
            y: spec_max(self.start.y as int, self.end.y as int),
            z: spec_max(self.start.z as int, self.end.z as int),
        }
    }

    /// `point` lies in the box, border included.
    pub open spec fn holds(&self, point: V3) -> bool {
        &&& self.low().x <= point.x <= self.high().x
        &&& self.low().y <= point.y <= self.high().y
        &&& self.low().z <= point.z <= self.high().z
    }

    /// Whether both corners lie inside the range of the lattice.
    pub fn is_valid(&self) -> (r: bool)
        ensures
            r == self.wf(),
    {
        self.start.is_in_range() && self.end.is_in_range()
    }

    /// Whether both corners lie inside the world cube.
    pub fn is_in_world(&self) -> (r: bool)
        ensures
            r == self.in_world(),
            r ==> self.wf(),
    {
        self.start.is_in_world() && self.end.is_in_world()
    }

    pub fn width(&self) -> (r: i64)
        requires
            self.wf(),
        ensures
            r == self.spec_width(),
    {
        n_abs(self.start.x - self.end.x)
    }

    pub fn height(&self) -> (r: i64)
        requires
            self.wf(),
        ensures
            r == self.spec_height(),
    {
        n_abs(self.start.y - self.end.y)
    }

    pub fn depth(&self) -> (r: i64)
        requires
            self.wf(),
        ensures
            r == self.spec_depth(),
    {
        n_abs(self.start.z - self.end.z)
    }

    /// Half the width, rounded down to a whole unit.
    pub fn half_width(&self) -> (r: i64)
        requires
            self.wf(),
        ensures
            r == self.spec_width() / 2,
    {
        self.width() / 2
    }

    /// Half the height, rounded down to a whole unit.
    pub fn half_height(&self) -> (r: i64)
        requires
            self.wf(),
        ensures
            r == self.spec_height() / 2,
    {
        self.height() / 2
    }

    /// Half the depth, rounded down to a whole unit.
    pub fn half_depth(&self) -> (r: i64)
        requires
            self.wf(),
        ensures
            r == self.spec_depth() / 2,
    {
        self.depth() / 2
    }

    /// The component-wise least and greatest corners.
    pub fn min_max(&self) -> (r: (Vector3, Vector3))
        ensures
            r.0@ == self.low(),
            r.1@ == self.high(),
    {
        let min_vec = Vector3::new(
            n_min(self.start.x, self.end.x),
            n_min(self.start.y, self.end.y),
            n_min(self.start.z, self.end.z),
        );
        let max_vec = Vector3::new(
            n_max(self.start.x, self.end.x),
            n_max(self.start.y, self.end.y),
            n_max(self.start.z, self.end.z),
        );
        (min_vec, max_vec)
    }

    /// The point of the box nearest to `point`: `point` itself where the box
    /// holds it, otherwise its projection onto the border.
    pub fn closest_point(&self, point: &Vector3) -> (r: Vector3)
        ensures
            r.x == spec_clamp(point.x as int, self.low().x, self.high().x),
            r.y == spec_clamp(point.y as int, self.low().y, self.high().y),
            r.z == spec_clamp(point.z as int, self.low().z, self.high().z),
            self.holds(r@),
            self.holds(point@) ==> r == *point,
    {
        let (min_vec, max_vec) = self.min_max();
        Vector3::new(
            n_clamp(point.x, min_vec.x, max_vec.x),
            n_clamp(point.y, min_vec.y, max_vec.y),
            n_clamp(point.z, min_vec.z, max_vec.z),
        )
    }

    /// The greatest of width, height and depth with its axis; among equal
    /// ones the last.
    pub fn largest_dim(&self) -> (r: (usize, i64))
        requires
            self.wf(),
        ensures
            r.0 == self.extent2().max_index(),
            r.1 == self.extent2().at(r.0 as int),
            r.1 >= self.spec_width() && r.1 >= self.spec_height() && r.1 >= self.spec_depth(),
    {
        Vector3::new(self.width(), self.height(), self.depth()).max_component()
    }

    /// The least of width, height and depth with its axis; among equal ones
    /// the first.
    pub fn smallest_dim(&self) -> (r: (usize, i64))
        requires
            self.wf(),
        ensures
            r.0 == self.extent2().min_index(),
            r.1 == self.extent2().at(r.0 as int),
            r.1 <= self.spec_width() && r.1 <= self.spec_height() && r.1 <= self.spec_depth(),
    {
        Vector3::new(self.width(), self.height(), self.depth()).min_component()
    }

    /// Twice the offset from the other box's center to this one's.
    pub open spec fn offset2(&self, other: &AxisAlignedBoundingBox) -> V3 {
        self.center2().sub(other.center2())
    }

    /// Twice the overlap of the two boxes on each axis: the sum of the half
    /// extents less the distance between the centers, doubled.
    pub open spec fn overlap2(&self, other: &AxisAlignedBoundingBox) -> V3 {
        self.extent2().add(other.extent2()).sub(self.offset2(other).abs())
    }

    /// The boxes overlap on every axis by more than nothing.
    pub open spec fn overlaps(&self, other: &AxisAlignedBoundingBox) -> bool {
        &&& self.overlap2(other).x > 0
        &&& self.overlap2(other).y > 0
        &&& self.overlap2(other).z > 0
    }

    /// The contact between two boxes, as `get_aabb_collision` reports it.
    pub open spec fn spec_aabb_collision(&self, other: &AxisAlignedBoundingBox) -> Option<
        CollisionResolution<Vector3>,
    > {
        let axis = self.overlap2(other).min_index();
        let normal = V3::axis(axis, spec_sign(self.offset2(other).at(axis)));
        if self.overlaps(other) {
            Some(
                CollisionResolution::<Vector3>::spec_along(
                    normal,
                    self.overlap2(other).at(axis) / 2,
                ),
            )
        } else {
            None
        }
    }

    /// The contact between two boxes.
    ///
    /// There is one exactly when the boxes overlap on every axis. The contact
    /// axis is the one of least overlap, the first such axis on a tie. The
    /// normal is the unit vector of that axis, pointing from the other box's
    /// center toward this one's (in the positive direction where the centers
    /// agree on that axis). The depth is the overlap on the contact axis,
    /// which between boxes of the lattice is a whole number.
    pub fn get_aabb_collision(&self, aabb: &AxisAlignedBoundingBox) -> (r: Option<
        CollisionResolution<Vector3>,
    >)
        requires
            self.wf(),
            aabb.wf(),
        ensures
            r == self.spec_aabb_collision(aabb),
            r.is_some() <==> self.overlaps(aabb),
            r matches Some(c) ==> {
                let axis = self.overlap2(aabb).min_index();
                &&& c.direction@ == V3::axis(axis, spec_sign(self.offset2(aabb).at(axis)))
                &&& c.is_unit()
                &&& c.penetration == self.overlap2(aabb).at(axis) / 2
                &&& 2 * c.penetration == self.overlap2(aabb).at(axis)
                &&& c.penetration > 0
            },
    {
        let n2 = Vector3::new(
            self.start.x + self.end.x - (aabb.start.x + aabb.end.x),
            self.start.y + self.end.y - (aabb.start.y + aabb.end.y),
            self.start.z + self.end.z - (aabb.start.z + aabb.end.z),
        );
        let overlap2 = Vector3::new(
            self.width() + aabb.width() - n_abs(n2.x),
            self.height() + aabb.height() - n_abs(n2.y),
            self.depth() + aabb.depth() - n_abs(n2.z),
        );
        if overlap2.x > 0 && overlap2.y > 0 && overlap2.z > 0 {
            let (index, twice) = overlap2.min_component();
            let normal = if index == 0 {
                Vector3::new(if n2.x < 0 { -1 } else { 1 }, 0, 0)
            } else if index == 1 {
                Vector3::new(0, if n2.y < 0 { -1 } else { 1 }, 0)
            } else {
                Vector3::new(0, 0, if n2.z < 0 { -1 } else { 1 })
            };
            Some(CollisionResolution::<Vector3>::along(&normal, twice / 2))
        } else {
            None
        }
    }

    /// Twice the offset from the sphere's center to the box's center.
    pub open spec fn sphere_offset2(&self, sphere: &Sphere) -> V3 {
        self.center2().sub(sphere.center@.scale(2))
    }

    /// The sphere's center lies in the box, border included.
    pub open spec fn holds_center(&self, sphere: &Sphere) -> bool {
        &&& spec_abs(self.sphere_offset2(sphere).x) <= self.spec_width()
        &&& spec_abs(self.sphere_offset2(sphere).y) <= self.spec_height()
        &&& spec_abs(self.sphere_offset2(sphere).z) <= self.spec_depth()
    }

    /// Twice the offset from the box's center to the point of the border
    /// that the sphere is measured against, taken in the direction of
    /// `sphere_offset2`.
    ///
    /// For a center outside the box it is the offset clamped to the half
    /// extents. For a center inside, the offset is moved onto a face along the
    /// axis on which its magnitude is least (the first on a tie): the positive
    /// face where the offset is positive on that axis, the negative face
    /// otherwise.
    pub open spec fn face2(&self, sphere: &Sphere) -> V3 {
        let n = self.sphere_offset2(sphere);
        let e = self.extent2();
        let clamped = V3 {
            x: spec_clamp(n.x, -e.x, e.x),
            y: spec_clamp(n.y, -e.y, e.y),
            z: spec_clamp(n.z, -e.z, e.z),
        };
        if self.holds_center(sphere) {
            if n.abs().min_index() == 0 {
                V3 { x: if clamped.x > 0 { e.x } else { -e.x }, y: clamped.y, z: clamped.z }
            } else if n.abs().min_index() == 1 {
                V3 { x: clamped.x, y: if clamped.y > 0 { e.y } else { -e.y }, z: clamped.z }
            } else {
                V3 { x: clamped.x, y: clamped.y, z: if clamped.z > 0 { e.z } else { -e.z } }
            }
        } else {
            clamped
        }
    }

    /// The square of twice the distance from the sphere's center to the point
    /// `face2`.
    pub open spec fn gap2_sq(&self, sphere: &Sphere) -> int {
        self.sphere_offset2(sphere).sub(self.face2(sphere)).norm_sq()
    }

    /// The box and the sphere are in contact: the sphere's center lies in the
    /// box, or no further from it than the radius.
    pub open spec fn touches_sphere(&self, sphere: &Sphere) -> bool {
        self.holds_center(sphere) || self.gap2_sq(sphere) <= 4 * (sphere.radius * sphere.radius)
    }

    /// The contact between a box and a sphere, as `get_sphere_collision`
    /// reports it.
    pub open spec fn spec_sphere_collision(&self, sphere: &Sphere) -> Option<
        CollisionResolution<Vector3>,
    > {
        let n = self.sphere_offset2(sphere);
        if self.touches_sphere(sphere) {
            Some(
                CollisionResolution::<Vector3>::spec_along(
                    n,
                    sphere.radius - ceil_sqrt(ceil_div(self.gap2_sq(sphere), 4)),
                ),
            )
        } else {
            None
        }
    }

    /// The contact between a box and a sphere.
    ///
    /// There is one when the sphere's center lies in the box or no further
    /// from the box than the radius. The normal points from the sphere's
    /// center to the box's center: the direction is the unit normal where the
    /// centers differ along one axis only, and twice the offset between them
    /// otherwise. The depth is
    /// the radius less the distance from the sphere's center to the point
    /// `face2`, rounded down to a whole unit; for a small sphere deep inside
    /// a box it is negative.
    pub fn get_sphere_collision(&self, sphere: &Sphere) -> (r: Option<CollisionResolution<Vector3>>)
        requires
            self.wf(),
            sphere.in_range(),
        ensures
            r == self.spec_sphere_collision(sphere),
            r.is_some() <==> self.touches_sphere(sphere),
            r matches Some(c) ==> {
                &&& c.direction@ == self.sphere_offset2(sphere).direction()
                &&& c.wf()
                &&& self.sphere_offset2(sphere).is_axial() ==> c.is_unit()
                &&& c.penetration == sphere.radius - ceil_sqrt(
                    ceil_div(self.gap2_sq(sphere), 4),
                )
            },
    {
        let n = Vector3::new(
            self.start.x + self.end.x - 2 * sphere.center.x,
            self.start.y + self.end.y - 2 * sphere.center.y,
            self.start.z + self.end.z - 2 * sphere.center.z,
        );
        let extent = Vector3::new(self.width(), self.height(), self.depth());
        let mut closest = Vector3::new(
            n_clamp(n.x, -extent.x, extent.x),
            n_clamp(n.y, -extent.y, extent.y),
            n_clamp(n.z, -extent.z, extent.z),
        );
        let inside = if n.x == closest.x && n.y == closest.y && n.z == closest.z {
            let (index, _) = n.abs().min_component();
            if index == 0 {
                closest.x = if closest.x > 0 { extent.x } else { -extent.x };
            } else if index == 1 {
                closest.y = if closest.y > 0 { extent.y } else { -extent.y };
            } else {
                closest.z = if closest.z > 0 { extent.z } else { -extent.z };
            }
            true
        } else {
            false
        };
        let gap = n.minus(&closest);
        let d: i128 = gap.magnitude_squared();
        proof {
            lemma_norm_sq_bound3(gap@, 6_442_450_944);
            lemma_square_bound(sphere.radius as int, 1_073_741_824);
        }
        if d > 4 * wide_mul(sphere.radius, sphere.radius) && !inside {
            return None;
        }
        let root: i128 = isqrt_ceil(div_ceil(d, 4));
        proof {
            lemma_root_below(
                ceil_div(d as int, 4),
                root as int,
                6_442_450_944,
            );
        }
        Some(CollisionResolution::<Vector3>::along(&n, sphere.radius - (root as i64)))
    }

    /// The midpoint of the two corners, each coordinate rounded down to the
    /// lattice.
    pub open spec fn spec_midpoint(&self) -> V3 {
        V3 { x: self.center2().x / 2, y: self.center2().y / 2, z: self.center2().z / 2 }
    }

    /// The midpoint of the two corners, each coordinate rounded down to the
    /// lattice.
    pub fn midpoint(&self) -> (r: Vector3)
        requires
            self.wf(),
        ensures
            r@ == self.spec_midpoint(),
            r.in_range(),
            self.in_world() ==> r.in_world(),
    {
        Vector3::new(
            half_floor(self.start.x + self.end.x),
            half_floor(self.start.y + self.end.y),
            half_floor(self.start.z + self.end.z),
        )
    }

    /// The contact between a box and a capsule: that between the box and a
    /// sphere of the capsule's radius around the point of the capsule's axis
    /// nearest to the midpoint of the box.
    pub fn get_capsule_collision(&self, capsule: &Capsule) -> (r: Option<
        CollisionResolution<Vector3>,
    >)
        requires
            self.in_world(),
            capsule.wf(),
        ensures
            r == self.spec_sphere_collision(
                &Sphere {
                    center: capsule.spec_closest_point(self.spec_midpoint()),
                    radius: capsule.radius,
                },
            ),
            r matches Some(c) ==> c.wf(),
    {
        let center = capsule.closest_point(&self.midpoint());
        self.get_sphere_collision(&Sphere { center, radius: capsule.radius })
    }

    /// The rectangle that the box shows when looked at along the axis that is
    /// neither `horizontal` nor `vertical`.
    pub open spec fn spec_2d(&self, horizontal: Axis, vertical: Axis) -> AABB2D {
        AABB2D {
            start: Vector2 {
                x: self.start@.at(horizontal.index()) as i64,
                y: self.start@.at(vertical.index()) as i64,
            },
            end: Vector2 {
                x: self.end@.at(horizontal.index()) as i64,
                y: self.end@.at(vertical.index()) as i64,
            },
        }
    }

    /// The rectangle that the box shows when looked at along the axis that is
    /// neither `horizontal` nor `vertical`.
    pub fn to_2d(&self, horizontal: Axis, vertical: Axis) -> (r: AABB2D)
        ensures
            r == self.spec_2d(horizontal, vertical),
            self.wf() ==> r.wf(),
    {
        let (sx, ex) = match horizontal {
            Axis::X => (self.start.x, self.end.x),
            Axis::Y => (self.start.y, self.end.y),
            Axis::Z => (self.start.z, self.end.z),
        };
        let (sy, ey) = match vertical {
            Axis::X => (self.start.x, self.end.x),
            Axis::Y => (self.start.y, self.end.y),
            Axis::Z => (self.start.z, self.end.z),
        };
        AABB2D { start: Vector2::new(sx, sy), end: Vector2::new(ex, ey) }
    }

    /// The corner numbered `k`: bit 2 of `k` picks the x of `end` over that
    /// of `start`, bit 1 the y, bit 0 the z.
    pub open spec fn corner(&self, k: int) -> Vector3 {
        Vector3 {
            x: if k / 4 % 2 == 0 { self.start.x } else { self.end.x },
            y: if k / 2 % 2 == 0 { self.start.y } else { self.end.y },
            z: if k % 2 == 0 { self.start.z } else { self.end.z },
        }
    }

    /// The eight corners, in the order of `corner`.
    pub fn corners(&self) -> (r: [Vector3; 8])
        ensures
            forall|k: int| 0 <= k < 8 ==> r[k] == #[trigger] self.corner(k),
            self.in_world() ==> forall|k: int| 0 <= k < 8 ==> (#[trigger] r[k]).in_world(),
    {
        let (start_x, start_y, start_z) = (self.start.x, self.start.y, self.start.z);
        let (end_x, end_y, end_z) = (self.end.x, self.end.y, self.end.z);
        [
            Vector3::new(start_x, start_y, start_z),
            Vector3::new(start_x, start_y, end_z),
            Vector3::new(start_x, end_y, start_z),
            Vector3::new(start_x, end_y, end_z),
            Vector3::new(end_x, start_y, start_z),
            Vector3::new(end_x, start_y, end_z),
            Vector3::new(end_x, end_y, start_z),
            Vector3::new(end_x, end_y, end_z),
        ]
    }

    /// The least signed distance from `plane` among the first `count`
    /// corners, scaled by the length of the plane's normal; zero where none of
    /// them lies behind the plane.
    pub open spec fn lowest(&self, plane: &Plane, count: nat) -> int
        decreases count,
    {
        if count == 0 {
            0
        } else {
            spec_min(
                plane.spec_distance(self.corner(count - 1)@),
                self.lowest(plane, (count - 1) as nat),
            )
        }
    }

    /// How many of the first `count` corners lie strictly in front of
    /// `plane`, on the side that its normal points to.
    pub open spec fn in_front(&self, plane: &Plane, count: nat) -> int
        decreases count,
    {
        if count == 0 {
            0
        } else {
            self.in_front(plane, (count - 1) as nat) + if plane.spec_distance(
                self.corner(count - 1)@,
            ) > 0 {
                1int
            } else {
                0int
            }
        }
    }

    /// The plane cuts the box: some corner lies strictly in front of it and
    /// some corner strictly behind.
    pub open spec fn straddles(&self, plane: &Plane) -> bool {
        self.in_front(plane, 8) > 0 && self.lowest(plane, 8) < 0
    }

    /// The plane cuts the box by a depth that counts: some corner lies
    /// strictly in front of it, and the corner furthest behind it lies at
    /// least one unit behind. A lesser depth is negligible on the lattice.
    pub open spec fn cut_by(&self, plane: &Plane) -> bool {
        &&& self.straddles(plane)
        &&& self.lowest(plane, 8) * self.lowest(plane, 8) >= plane.normal@.norm_sq()
    }

    /// How far behind the plane the corner furthest behind it lies, rounded
    /// down to a whole unit.
    pub open spec fn depth_behind(&self, plane: &Plane) -> int {
        floor_sqrt((self.lowest(plane, 8) * self.lowest(plane, 8)) / plane.normal@.norm_sq())
    }

    /// The contact between a box and a plane, as `get_plane_collision`
    /// reports it.
    pub open spec fn spec_plane_collision(&self, plane: &Plane) -> Option<
        CollisionResolution<Vector3>,
    > {
        if self.cut_by(plane) {
            Some(
                CollisionResolution::<Vector3>::spec_along(
                    plane.normal@,
                    self.depth_behind(plane),
                ),
            )
        } else {
            None
        }
    }

    /// The projection of one of the first `count` corners onto the triangle's
    /// plane lies in the triangle.
    pub open spec fn corner_over(&self, triangle: &Triangle, count: nat) -> bool
        decreases count,
    {
        if count == 0 {
            false
        } else {
            triangle.spec_contains(self.corner(count - 1)@) || self.corner_over(
                triangle,
                (count - 1) as nat,
            )
        }
    }

    /// The distances of the eight corners from `plane`, unless all corners
    /// lie strictly in front of the plane or none does.
    fn corner_distances(&self, plane: &Plane) -> (r: Option<ArrayVec<i64, 8>>)
        requires
            self.in_world(),
            plane.in_range(),
        ensures
            r.is_some() <==> 0 < self.in_front(plane, 8) < 8,
            r matches Some(distances) ==> {
                &&& held(distances).len() == 8
                &&& forall|k: int|
                    0 <= k < 8 ==> #[trigger] held(distances)[k] == plane.spec_distance(
                        self.corner(k)@,
                    )
            },
            0 <= self.in_front(plane, 8) <= 8,
            self.in_front(plane, 8) == 8 ==> self.lowest(plane, 8) == 0,
    {
        let corners = self.corners();
        let mut distances: ArrayVec<i64, 8> = distances_new();
        let mut value: i32 = 0;
        let mut k: usize = 0;
        while k < 8
            invariant
                k <= 8,
                self.in_world(),
                plane.in_range(),
                forall|j: int| 0 <= j < 8 ==> corners[j] == #[trigger] self.corner(j),
                forall|j: int| 0 <= j < 8 ==> (#[trigger] corners[j]).in_world(),
                held(distances).len() == k,
                forall|j: int|
                    0 <= j < k ==> #[trigger] held(distances)[j] == plane.spec_distance(
                        self.corner(j)@,
                    ),
                value == 2 * self.in_front(plane, k as nat) - k,
                0 <= self.in_front(plane, k as nat) <= k,
                self.in_front(plane, k as nat) == k ==> self.lowest(plane, k as nat) == 0,
            decreases 8 - k,
        {
            let dist: i64 = plane.distance(&corners[k]);
            distances_push(&mut distances, dist);
            value = value + if dist > 0 { 1 } else { -1 };
            k = k + 1;
        }
        if value == 8 || value == -8 {
            None
        } else {
            Some(distances)
        }
    }

    /// The depth of the corner furthest behind the plane, scaled by the
    /// length of the plane's normal.
    fn deepest(&self, plane: &Plane, distances: &ArrayVec<i64, 8>) -> (r: i64)
        requires
            held(*distances).len() == 8,
            forall|k: int|
                0 <= k < 8 ==> #[trigger] held(*distances)[k] == plane.spec_distance(
                    self.corner(k)@,
                ),
            forall|k: int|
                0 <= k < 8 ==> -216_000_000_000_000_000 <= #[trigger] held(*distances)[k]
                    <= 216_000_000_000_000_000,
        ensures
            r == -self.lowest(plane, 8),
            0 <= r <= 216_000_000_000_000_000,
    {
        let mut penetration: i64 = 0;
        let mut k: usize = 0;
        while k < 8
            invariant
                k <= 8,
                held(*distances).len() == 8,
                forall|j: int|
                    0 <= j < 8 ==> #[trigger] held(*distances)[j] == plane.spec_distance(
                        self.corner(j)@,
                    ),
                forall|j: int|
                    0 <= j < 8 ==> -216_000_000_000_000_000 <= #[trigger] held(*distances)[j]
                        <= 216_000_000_000_000_000,
                penetration == -self.lowest(plane, k as nat),
                0 <= penetration <= 216_000_000_000_000_000,
            decreases 8 - k,
        {
            let dist: i64 = distances_get(distances, k);
            assert(dist == held(*distances)[k as int]);
            if dist < 0 {
                penetration = n_max(penetration, n_abs(dist));
            }
            k = k + 1;
        }
        penetration
    }

    /// The contact between a box and a plane.
    ///
    /// There is one when the plane cuts the box, with corners strictly on
    /// both sides, and the corner furthest behind the plane lies at least one
    /// unit behind it. The normal is the plane's: the direction is the unit
    /// normal where the plane's normal runs along a coordinate axis, and the
    /// plane's normal otherwise. The depth is the distance from the plane of
    /// the corner furthest behind it, rounded down to a whole unit.
    pub fn get_plane_collision(&self, plane: &Plane) -> (r: Option<CollisionResolution<Vector3>>)
        requires
            self.in_world(),
            plane.wf(),
        ensures
            r == self.spec_plane_collision(plane),
            r.is_some() <==> self.cut_by(plane),
            r matches Some(c) ==> {
                &&& c.direction@ == plane.normal@.direction()
                &&& c.wf()
                &&& plane.normal@.is_axial() ==> c.is_unit()
                &&& c.penetration == self.depth_behind(plane)
                &&& c.penetration >= 1
            },
    {
        match self.corner_distances(plane) {
            Some(distances) => {
                assert forall|k: int| 0 <= k < 8 implies -216_000_000_000_000_000
                    <= #[trigger] held(distances)[k] <= 216_000_000_000_000_000 by {
                    lemma_distance_bound(plane, self.corner(k)@);
                }
                let scaled: i64 = self.deepest(plane, &distances);
                if is_zero(scaled) {
                    None
                } else {
                    let nn: i128 = plane.normal.magnitude_squared();
                    proof {
                        lemma_norm_sq_bound3(plane.normal@, NORMAL_MAX as int);
                        lemma_norm_sq_positive(plane.normal@);
                        lemma_square_of_opposite(self.lowest(plane, 8));
                    }
                    let depth: i64 = scaled_down(scaled, nn);
                    if is_zero(depth) {
                        None
                    } else {
                        Some(CollisionResolution::<Vector3>::along(&plane.normal, depth))
                    }
                }
            },
            None => None,
        }
    }

    /// The contact between a box and a triangle, as `get_triangle_collision`
    /// reports it.
    pub open spec fn spec_triangle_collision(&self, triangle: &Triangle) -> Option<
        CollisionResolution<Vector3>,
    > {
        if self.cut_by(&triangle.spec_plane()) && self.corner_over(triangle, 8) {
            Some(
                CollisionResolution::<Vector3>::spec_along(
                    triangle.spec_normal(),
                    self.depth_behind(&triangle.spec_plane()),
                ),
            )
        } else {
            None
        }
    }

    /// The contact between a box and a triangle.
    ///
    /// There is one when the triangle's plane cuts the box, with corners
    /// strictly on both sides and the corner furthest behind the plane at
    /// least one unit behind it, and the projection of some corner onto that
    /// plane lies in the triangle. The normal is the triangle's: the
    /// direction is the unit normal where the triangle's normal runs along a
    /// coordinate axis, and the cross product of its edges otherwise. The
    /// depth is the distance from the plane of the corner furthest behind it,
    /// rounded down to a whole unit. A triangle without area gives no
    /// contact.
    pub fn get_triangle_collision(&self, triangle: &Triangle) -> (r: Option<
        CollisionResolution<Vector3>,
    >)
        requires
            self.in_world(),
            triangle.wf(),
        ensures
            r == self.spec_triangle_collision(triangle),
            r.is_some() <==> self.cut_by(&triangle.spec_plane()) && self.corner_over(triangle, 8),
            r matches Some(c) ==> {
                &&& c.direction@ == triangle.spec_normal().direction()
                &&& c.wf()
                &&& triangle.spec_normal().is_axial() ==> c.is_unit()
                &&& c.penetration == self.depth_behind(&triangle.spec_plane())
                &&& c.penetration >= 1
                &&& triangle.spec_normal() != (V3 { x: 0, y: 0, z: 0 })
            },
    {
        let plane = triangle.to_plane();
        match self.corner_distances(&plane) {
            Some(distances) => {
                assert forall|k: int| 0 <= k < 8 implies -216_000_000_000_000_000
                    <= #[trigger] held(distances)[k] <= 216_000_000_000_000_000 by {
                    lemma_distance_bound(&plane, self.corner(k)@);
                }
                let corners = self.corners();
                let mut inside = false;
                let mut k: usize = 0;
                while k < 8
                    invariant
                        k <= 8,
                        triangle.wf(),
                        forall|j: int| 0 <= j < 8 ==> corners[j] == #[trigger] self.corner(j),
                        forall|j: int| 0 <= j < 8 ==> (#[trigger] corners[j]).in_world(),
                        inside == self.corner_over(triangle, k as nat),
                    decreases 8 - k,
                {
                    if triangle.contains(&corners[k]) {
                        inside = true;
                    }
                    k = k + 1;
                }
                let scaled: i64 = self.deepest(&plane, &distances);
                if !inside || is_zero(scaled) {
                    None
                } else {
                    let nn: i128 = plane.normal.magnitude_squared();
                    proof {
                        lemma_norm_sq_bound3(plane.normal@, NORMAL_MAX as int);
                        if plane.normal@ == (V3 { x: 0, y: 0, z: 0 }) {
                            assert(plane.normal@.dot(triangle.point1@) == 0) by (nonlinear_arith)
                                requires
                                    plane.normal@ == (V3 { x: 0, y: 0, z: 0 }),
                            ;
                            self.lemma_flat(&plane, 8);
                        }
                        lemma_norm_sq_positive(plane.normal@);
                        lemma_square_of_opposite(self.lowest(&plane, 8));
                    }
                    let depth: i64 = scaled_down(scaled, nn);
                    if is_zero(depth) {
                        None
                    } else {
                        Some(CollisionResolution::<Vector3>::along(&plane.normal, depth))
                    }
                }
            },
            None => None,
        }
    }

    /// Against a plane without a normal and without an offset no corner has
    /// a distance.
    proof fn lemma_flat(&self, plane: &Plane, count: nat)
        requires
            plane.normal@ == (V3 { x: 0, y: 0, z: 0 }),
            plane.d == 0,
        ensures
            self.lowest(plane, count) == 0,
        decreases count,
    {
        if count > 0 {
            self.lemma_flat(plane, (count - 1) as nat);
            assert(plane.spec_distance(self.corner(count - 1)@) == 0) by (nonlinear_arith)
                requires
                    plane.normal@ == (V3 { x: 0, y: 0, z: 0 }),
                    plane.d == 0,
            ;
        }
    }

    /// The coordinates of `start`, then those of `end`.
    pub fn iter(&self) -> (r: Vec<i64>)
        ensures
            r@ == seq![
                self.start.x,
                self.start.y,
                self.start.z,
                self.end.x,
                self.end.y,
                self.end.z,
            ],
    {
        let mut out: Vec<i64> = Vec::new();
        out.push(self.start.x);
        out.push(self.start.y);
        out.push(self.start.z);
        out.push(self.end.x);
        out.push(self.end.y);
        out.push(self.end.z);
        out
    }

    /// The smallest box that holds both boxes.
    pub open spec fn spec_union(self, rhs: AxisAlignedBoundingBox) -> AxisAlignedBoundingBox {
        AxisAlignedBoundingBox {
            start: Vector3 {
                x: spec_min(self.low().x, rhs.low().x) as i64,
                y: spec_min(self.low().y, rhs.low().y) as i64,
                z: spec_min(self.low().z, rhs.low().z) as i64,
            },
            end: Vector3 {
                x: spec_max(self.high().x, rhs.high().x) as i64,
                y: spec_max(self.high().y, rhs.high().y) as i64,
                z: spec_max(self.high().z, rhs.high().z) as i64,
            },
        }
    }

    /// The box around the origin and the first `count` of `boxes`: the sum of
    /// those boxes, starting from the empty box at the origin.
    pub open spec fn spec_sum(boxes: Seq<AxisAlignedBoundingBox>, count: nat) -> AxisAlignedBoundingBox
        decreases count,
    {
        if count == 0 {
            AxisAlignedBoundingBox {
                start: Vector3 { x: 0, y: 0, z: 0 },
                end: Vector3 { x: 0, y: 0, z: 0 },
            }
        } else {
            Self::spec_sum(boxes, (count - 1) as nat).spec_union(boxes[count - 1])
        }
    }

    /// The smallest box that holds the origin and every box of `boxes`.
    pub fn sum(boxes: &[AxisAlignedBoundingBox]) -> (r: AxisAlignedBoundingBox)
        ensures
            r == Self::spec_sum(boxes@, boxes@.len()),
    {
        let mut total = AxisAlignedBoundingBox { start: Vector3::zeros(), end: Vector3::zeros() };
        let mut i: usize = 0;
        while i < boxes.len()
            invariant
                i <= boxes@.len(),
                total == Self::spec_sum(boxes@, i as nat),
            decreases boxes@.len() - i,
        {
            total = total + boxes[i];
            i = i + 1;
        }
        total
    }

    /// The box whose `start` is the component-wise least and whose `end` is
    /// the component-wise greatest of the first `count` of `points`. With no
    /// point, `start` holds the largest scalar and `end` the smallest.
    pub open spec fn spec_from_iter(points: Seq<Vector3>, count: nat) -> AxisAlignedBoundingBox
        decreases count,
    {
        if count == 0 {
            AxisAlignedBoundingBox {
                start: Vector3 { x: i64::MAX, y: i64::MAX, z: i64::MAX },
                end: Vector3 { x: i64::MIN, y: i64::MIN, z: i64::MIN },
            }
        } else {
            let rest = Self::spec_from_iter(points, (count - 1) as nat);
            let point = points[count - 1];
            AxisAlignedBoundingBox {
                start: Vector3 {
                    x: spec_min(point.x as int, rest.start.x as int) as i64,
                    y: spec_min(point.y as int, rest.start.y as int) as i64,
                    z: spec_min(point.z as int, rest.start.z as int) as i64,
                },
                end: Vector3 {
                    x: spec_max(point.x as int, rest.end.x as int) as i64,
                    y: spec_max(point.y as int, rest.end.y as int) as i64,
                    z: spec_max(point.z as int, rest.end.z as int) as i64,
                },
            }
        }
    }

    /// The smallest box around `points`.
    pub fn from_iter(points: &[Vector3]) -> (r: AxisAlignedBoundingBox)
        ensures
            r == Self::spec_from_iter(points@, points@.len()),
            forall|i: int| 0 <= i < points@.len() ==> r.holds(#[trigger] points@[i]@),
    {
        let mut start = Vector3::from_element(n_max_value());
        let mut end = Vector3::from_element(n_min_value());
        let mut i: usize = 0;
        while i < points.len()
            invariant
                i <= points@.len(),
                (AxisAlignedBoundingBox { start, end }) == Self::spec_from_iter(points@, i as nat),
                forall|j: int|
                    0 <= j < i ==> (AxisAlignedBoundingBox { start, end }).holds(
                        #[trigger] points@[j]@,
                    ),
            decreases points@.len() - i,
        {
            let v = points[i];
            start = Vector3::new(n_min(v.x, start.x), n_min(v.y, start.y), n_min(v.z, start.z));
            end = Vector3::new(n_max(v.x, end.x), n_max(v.y, end.y), n_max(v.z, end.z));
            i = i + 1;
        }
        AxisAlignedBoundingBox { start, end }
    }
}

impl core::ops::Add for AxisAlignedBoundingBox {
    type Output = AxisAlignedBoundingBox;

    /// The smallest box that holds both boxes.
    fn add(self, rhs: AxisAlignedBoundingBox) -> (r: AxisAlignedBoundingBox)
        ensures
            r.start@ == (V3 {
                x: spec_min(self.low().x, rhs.low().x),
                y: spec_min(self.low().y, rhs.low().y),
                z: spec_min(self.low().z, rhs.low().z),
            }),
            r.end@ == (V3 {
                x: spec_max(self.high().x, rhs.high().x),
                y: spec_max(self.high().y, rhs.high().y),
                z: spec_max(self.high().z, rhs.high().z),
            }),
            self.wf() && rhs.wf() ==> r.wf(),
    {
        AxisAlignedBoundingBox {
            start: Vector3::new(
                n_min(n_min(self.start.x, self.end.x), n_min(rhs.start.x, rhs.end.x)),
                n_min(n_min(self.start.y, self.end.y), n_min(rhs.start.y, rhs.end.y)),
                n_min(n_min(self.start.z, self.end.z), n_min(rhs.start.z, rhs.end.z)),
            ),
            end: Vector3::new(
                n_max(n_max(self.start.x, self.end.x), n_max(rhs.start.x, rhs.end.x)),
                n_max(n_max(self.start.y, self.end.y), n_max(rhs.start.y, rhs.end.y)),
                n_max(n_max(self.start.z, self.end.z), n_max(rhs.start.z, rhs.end.z)),
            ),
        }
    }
}

impl vstd::std_specs::ops::AddSpecImpl for AxisAlignedBoundingBox {
    open spec fn obeys_add_spec() -> bool {
        true
    }

    open spec fn add_req(self, rhs: AxisAlignedBoundingBox) -> bool {
        true
    }

    open spec fn add_spec(self, rhs: AxisAlignedBoundingBox) -> AxisAlignedBoundingBox {
        self.spec_union(rhs)
    }
}

impl core::ops::Mul<i64> for AxisAlignedBoundingBox {
    type Output = AxisAlignedBoundingBox;

    /// Both corners scaled by `rhs`.
    fn mul(self, rhs: i64) -> (r: AxisAlignedBoundingBox)
        ensures
            r.start@ == self.start@.scale(rhs as int),
            r.end@ == self.end@.scale(rhs as int),
    {
        AxisAlignedBoundingBox { start: self.start.scaled(rhs), end: self.end.scaled(rhs) }
    }
}

impl vstd::std_specs::ops::MulSpecImpl<i64> for AxisAlignedBoundingBox {
    open spec fn obeys_mul_spec() -> bool {
        true
    }

    open spec fn mul_req(self, rhs: i64) -> bool {
        &&& fits_i64(self.start.x * rhs)
        &&& fits_i64(self.start.y * rhs)
        &&& fits_i64(self.start.z * rhs)
        &&& fits_i64(self.end.x * rhs)
        &&& fits_i64(self.end.y * rhs)
        &&& fits_i64(self.end.z * rhs)
    }

    open spec fn mul_spec(self, rhs: i64) -> AxisAlignedBoundingBox {
        AxisAlignedBoundingBox {
            start: Vector3 {
                x: (self.start.x * rhs) as i64,
                y: (self.start.y * rhs) as i64,
                z: (self.start.z * rhs) as i64,
            },
            end: Vector3 {
                x: (self.end.x * rhs) as i64,
                y: (self.end.y * rhs) as i64,
                z: (self.end.z * rhs) as i64,
            },
        }
    }
}

impl Shape3D for AxisAlignedBoundingBox {
    open spec fn valid(&self) -> bool {
        self.wf()
    }

    open spec fn spec_bounding_aabb(&self) -> AxisAlignedBoundingBox {
        *self
    }

    /// The sphere around the center whose radius is the greatest of width,
    /// height and depth.
    open spec fn spec_bounding_sphere(&self) -> Sphere {
        Sphere {
            center: Vector3 {
                x: self.spec_center().x as i64,
                y: self.spec_center().y as i64,
                z: self.spec_center().z as i64,
            },
            radius: spec_max(self.spec_depth(), spec_max(self.spec_height(), self.spec_width()))
                as i64,
        }
    }

    /// The midpoint of the two corners, each coordinate rounded down to the
    /// lattice.
    open spec fn spec_center(&self) -> V3 {
        self.spec_midpoint()
    }

    open spec fn is_unbounded(&self) -> bool {
        false
    }

    open spec fn can_translate(&self, offset: V3) -> bool {
        &&& fits_i64(self.start.x + offset.x)
        &&& fits_i64(self.start.y + offset.y)
        &&& fits_i64(self.start.z + offset.z)
        &&& fits_i64(self.end.x + offset.x)
        &&& fits_i64(self.end.y + offset.y)
        &&& fits_i64(self.end.z + offset.z)
    }

    open spec fn translated(&self, offset: V3) -> Self {
        AxisAlignedBoundingBox {
            start: Vector3 {
                x: (self.start.x + offset.x) as i64,
                y: (self.start.y + offset.y) as i64,
                z: (self.start.z + offset.z) as i64,
            },
            end: Vector3 {
                x: (self.end.x + offset.x) as i64,
                y: (self.end.y + offset.y) as i64,
                z: (self.end.z + offset.z) as i64,
            },
        }
    }

    open spec fn can_recenter(&self, point: V3) -> bool {
        &&& in_range(point.x - self.spec_width() / 2)
        &&& in_range(point.x - self.spec_width() / 2 + self.spec_width())
        &&& in_range(point.y - self.spec_height() / 2)
        &&& in_range(point.y - self.spec_height() / 2 + self.spec_height())
        &&& in_range(point.z - self.spec_depth() / 2)
        &&& in_range(point.z - self.spec_depth() / 2 + self.spec_depth())
    }

    /// The box of the same extents around `point`: it starts at `point` less
    /// the half extents, each rounded down to a whole unit, and ends one full
    /// extent further.
    open spec fn recentered(&self, point: V3) -> Self {
        AxisAlignedBoundingBox {
            start: Vector3 {
                x: (point.x - self.spec_width() / 2) as i64,
                y: (point.y - self.spec_height() / 2) as i64,
                z: (point.z - self.spec_depth() / 2) as i64,
            },
            end: Vector3 {
                x: (point.x - self.spec_width() / 2 + self.spec_width()) as i64,
                y: (point.y - self.spec_height() / 2 + self.spec_height()) as i64,
                z: (point.z - self.spec_depth() / 2 + self.spec_depth()) as i64,
            },
        }
    }

    fn bounding_aabb(&self) -> (r: AxisAlignedBoundingBox) {
        *self
    }

    fn bounding_sphere(&self) -> (r: Sphere) {
        let (_, radius) = Vector3::new(self.width(), self.height(), self.depth()).max_component();
        Sphere { center: self.center(), radius }
    }

    fn center(&self) -> (r: Vector3)
        ensures
            r.in_range(),
    {
        self.midpoint()
    }

    fn translate(&self, point: &Vector3) -> (r: Self)
        ensures
            r.start@ == self.start@.add(point@),
            r.end@ == self.end@.add(point@),
    {
        AxisAlignedBoundingBox { start: self.start.plus(point), end: self.end.plus(point) }
    }

    fn translate_mut(&mut self, point: &Vector3)
        ensures
            final(self).start@ == old(self).start@.add(point@),
            final(self).end@ == old(self).end@.add(point@),
    {
        self.start = self.start.plus(point);
        self.end = self.end.plus(point);
    }

    fn set_center(&self, point: &Vector3) -> (r: Self)
        ensures
            r.extent2() == self.extent2(),
    {
        let extent = Vector3::new(self.width(), self.height(), self.depth());
        let offset = Vector3::new(self.half_width(), self.half_height(), self.half_depth());
        let start = point.minus(&offset);
        AxisAlignedBoundingBox { start, end: start.plus(&extent) }
    }

    fn set_center_mut(&mut self, point: &Vector3)
        ensures
            final(self).extent2() == old(self).extent2(),
    {
        let extent = Vector3::new(self.width(), self.height(), self.depth());
        let offset = Vector3::new(self.half_width(), self.half_height(), self.half_depth());
        self.start = point.minus(&offset);
        self.end = self.start.plus(&extent);
    }

    proof fn lemma_translate_moves_center(&self, offset: V3) {
    }

    proof fn lemma_recenter_sets_center(&self, point: V3) {
    }

    proof fn lemma_translate_zero(&self) {
    }
}

/// What an `ArrayVec` of eight scalars holds, first pushed first.
pub uninterp spec fn held(v: ArrayVec<i64, 8>) -> Seq<i64>;

/// `ArrayVec::new`, which makes a vector that holds nothing.
#[verifier::external_body]
fn distances_new() -> (r: ArrayVec<i64, 8>)
    ensures
        held(r) == Seq::<i64>::empty(),
{
    ArrayVec::new()
}

/// `ArrayVec::push`, which appends `value` and keeps what was held before.
/// The outside function rejects a push onto a full vector.
#[verifier::external_body]
fn distances_push(v: &mut ArrayVec<i64, 8>, value: i64)
    requires
        held(*old(v)).len() < 8,
    ensures
        held(*final(v)) == held(*old(v)).push(value),
{
    v.push(value)
}

/// Indexing an `ArrayVec` through its slice: the item pushed as number
/// `index`, counting from zero.
#[verifier::external_body]
fn distances_get(v: &ArrayVec<i64, 8>, index: usize) -> (r: i64)
    requires
        index < held(*v).len(),
    ensures
        r == held(*v)[index as int],
{
    v[index]
}

proof fn lemma_square_of_opposite(a: int)
    by (nonlinear_arith)
    ensures
        (-a) * (-a) == a * a,
{
}

/// The scaled distance of a point of the world from a bounded plane is
/// bounded.
proof fn lemma_distance_bound(plane: &Plane, point: V3)
    requires
        plane.in_range(),
        point.within(COORD_MAX as int),
    ensures
        -216_000_000_000_000_000 <= plane.spec_distance(point) <= 216_000_000_000_000_000,
{
    lemma_dot_bound3(plane.normal@, point, NORMAL_MAX as int, COORD_MAX as int);
}

} // verus!

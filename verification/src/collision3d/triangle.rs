//! Triangles.
use vstd::prelude::*;
use crate::collision3d::aabb::AxisAlignedBoundingBox;
use crate::collision3d::plane::{Plane, NORMAL_MAX};
use crate::collision3d::sphere::Sphere;
use crate::collision3d::{Shape3D, REACH_MAX};
use crate::scalar::{div_floor, lemma_product_bound, n_max, n_min, spec_max, spec_min, COORD_MAX};
use crate::segment::{
    closest_to_segment, segment_distance_squared, spec_closest_to_segment,
    spec_segment_distance_squared,
};
use crate::vector::{fits_i64, lemma_cross_bound, lemma_dot_bound3, Vector3, V3};

verus! {

/// A triangle given by its three corners. The corners may lie on one line.
#[derive(Clone, Copy, Debug, PartialEq, Eq, Structural)]
pub struct Triangle {
    pub point1: Vector3,
    pub point2: Vector3,
    pub point3: Vector3,
}

impl Triangle {
    /// The three corners lie inside the world cube.
    pub open spec fn wf(&self) -> bool {
        self.point1.in_world() && self.point2.in_world() && self.point3.in_world()
    }

    /// The component-wise least of the corners.
    pub open spec fn low(&self) -> V3 {
        V3 {
            x: spec_min(
                spec_min(self.point3.x as int, self.point1.x as int),
                self.point2.x as int,
            ),
            y: spec_min(
                spec_min(self.point3.y as int, self.point1.y as int),
                self.point2.y as int,
            ),
            z: spec_min(
                spec_min(self.point3.z as int, self.point1.z as int),
                self.point2.z as int,
            ),
        }
    }

    /// The component-wise greatest of the corners.
    pub open spec fn high(&self) -> V3 {
        V3 {
            x: spec_max(
                spec_max(self.point3.x as int, self.point1.x as int),
                self.point2.x as int,
            ),
            y: spec_max(
                spec_max(self.point3.y as int, self.point1.y as int),
                self.point2.y as int,
            ),
            z: spec_max(
                spec_max(self.point3.z as int, self.point1.z as int),
                self.point2.z as int,
            ),
        }
    }

    /// The edge from the first corner to the second.
    pub open spec fn edge2(&self) -> V3 {
        self.point2@.sub(self.point1@)
    }

    /// The edge from the first corner to the third.
    pub open spec fn edge3(&self) -> V3 {
        self.point3@.sub(self.point1@)
    }

    /// The cross product of the edges from the first corner to the second
    /// and to the third: a normal of the triangle's plane whose length is
    /// twice the triangle's area. It is zero for corners on one line.
    pub open spec fn spec_normal(&self) -> V3 {
        self.edge2().cross(self.edge3())
    }

    /// Four times the squared area of the triangle: zero exactly when the
    /// corners lie on one line.
    pub open spec fn area_measure(&self) -> int {
        self.edge3().norm_sq() * self.edge2().norm_sq() - self.edge3().dot(self.edge2())
            * self.edge3().dot(self.edge2())
    }

    /// The weight of the third corner in `point`, times `area_measure`.
    pub open spec fn weight3(&self, point: V3) -> int {
        let d2 = point.sub(self.point1@);
        self.edge2().norm_sq() * self.edge3().dot(d2) - self.edge3().dot(self.edge2())
            * self.edge2().dot(d2)
    }

    /// The weight of the second corner in `point`, times `area_measure`.
    pub open spec fn weight2(&self, point: V3) -> int {
        let d2 = point.sub(self.point1@);
        self.edge3().norm_sq() * self.edge2().dot(d2) - self.edge3().dot(self.edge2())
            * self.edge3().dot(d2)
    }

    /// The projection of `point` onto the triangle's plane lies in the
    /// triangle: the triangle has an area, the weights of the second and
    /// third corner are not negative, and together they stay below one. The
    /// edge opposite the first corner is excluded.
    pub open spec fn spec_contains(&self, point: V3) -> bool {
        &&& self.area_measure() > 0
        &&& self.weight3(point) >= 0
        &&& self.weight2(point) >= 0
        &&& self.weight3(point) + self.weight2(point) < self.area_measure()
    }

    /// The plane of the triangle, with `spec_normal` as its normal.
    pub open spec fn spec_plane(&self) -> Plane {
        Plane {
            normal: Vector3 {
                x: self.spec_normal().x as i64,
                y: self.spec_normal().y as i64,
                z: self.spec_normal().z as i64,
            },
            d: (-self.spec_normal().dot(self.point1@)) as i64,
        }
    }

    /// The signed distance of `point` from the triangle's plane, scaled by
    /// the length of `spec_normal`.
    pub open spec fn spec_distance(&self, point: V3) -> int {
        point.sub(self.point1@).dot(self.spec_normal())
    }

    /// The least of the squared distances from `point` to the three edges,
    /// each rounded down to a whole number.
    pub open spec fn edge_distance_squared(&self, point: V3) -> int {
        spec_min(
            spec_min(
                spec_segment_distance_squared(self.point1@, self.point2@, point),
                spec_segment_distance_squared(self.point2@, self.point3@, point),
            ),
            spec_segment_distance_squared(self.point3@, self.point1@, point),
        )
    }

    /// The squared distance of `point` from the triangle, rounded down to a
    /// whole number: zero where the triangle contains the projection of
    /// `point`, otherwise the least squared distance to an edge.
    pub open spec fn spec_distance_squared(&self, point: V3) -> int {
        if self.spec_contains(point) {
            0
        } else {
            self.edge_distance_squared(point)
        }
    }

    /// The smallest box around the triangle.
    pub open spec fn spec_bounds(&self) -> AxisAlignedBoundingBox {
        AxisAlignedBoundingBox {
            start: Vector3 {
                x: self.low().x as i64,
                y: self.low().y as i64,
                z: self.low().z as i64,
            },
            end: Vector3 {
                x: self.high().x as i64,
                y: self.high().y as i64,
                z: self.high().z as i64,
            },
        }
    }

    /// The smallest box around the triangle.
    pub fn bounds(&self) -> (r: AxisAlignedBoundingBox)
        requires
            self.wf(),
        ensures
            r == self.spec_bounds(),
            r.in_world(),
    {
        AxisAlignedBoundingBox {
            start: Vector3::new(self.min_x(), self.min_y(), self.min_z()),
            end: Vector3::new(self.max_x(), self.max_y(), self.max_z()),
        }
    }

    /// Whether the three corners lie inside the world cube.
    pub fn is_valid(&self) -> (r: bool)
        ensures
            r == self.wf(),
    {
        self.point1.is_in_world() && self.point2.is_in_world() && self.point3.is_in_world()
    }

    pub fn min_x(&self) -> (r: i64)
        ensures
            r == self.low().x,
            r <= self.point1.x && r <= self.point2.x && r <= self.point3.x,
    {
        n_min(n_min(self.point3.x, self.point1.x), self.point2.x)
    }

    pub fn max_x(&self) -> (r: i64)
        ensures
            r == self.high().x,
            r >= self.point1.x && r >= self.point2.x && r >= self.point3.x,
    {
        n_max(n_max(self.point3.x, self.point1.x), self.point2.x)
    }

    pub fn min_y(&self) -> (r: i64)
        ensures
            r == self.low().y,
            r <= self.point1.y && r <= self.point2.y && r <= self.point3.y,
    {
        n_min(n_min(self.point3.y, self.point1.y), self.point2.y)
    }

    pub fn max_y(&self) -> (r: i64)
        ensures
            r == self.high().y,
            r >= self.point1.y && r >= self.point2.y && r >= self.point3.y,
    {
        n_max(n_max(self.point3.y, self.point1.y), self.point2.y)
    }

    pub fn min_z(&self) -> (r: i64)
        ensures
            r == self.low().z,
            r <= self.point1.z && r <= self.point2.z && r <= self.point3.z,
    {
        n_min(n_min(self.point3.z, self.point1.z), self.point2.z)
    }

    pub fn max_z(&self) -> (r: i64)
        ensures
            r == self.high().z,
            r >= self.point1.z && r >= self.point2.z && r >= self.point3.z,
    {
        n_max(n_max(self.point3.z, self.point1.z), self.point2.z)
    }

    /// The extent of the triangle along the x axis.
    pub fn x_width(&self) -> (r: i64)
        requires
            self.wf(),
        ensures
            r == self.high().x - self.low().x,
            r >= 0,
    {
        self.max_x() - self.min_x()
    }

    /// The extent of the triangle along the y axis.
    pub fn y_width(&self) -> (r: i64)
        requires
            self.wf(),
        ensures
            r == self.high().y - self.low().y,
            r >= 0,
    {
        self.max_y() - self.min_y()
    }

    /// The extent of the triangle along the z axis.
    pub fn z_width(&self) -> (r: i64)
        requires
            self.wf(),
        ensures
            r == self.high().z - self.low().z,
            r >= 0,
    {
        self.max_z() - self.min_z()
    }

    /// A normal of the triangle's plane: the cross product of the edges from
    /// the first corner to the second and to the third. Its length is twice
    /// the triangle's area, and it is zero for corners on one line.
    pub fn normal(&self) -> (r: Vector3)
        requires
            self.wf(),
        ensures
            r@ == self.spec_normal(),
            r@.within(NORMAL_MAX as int),
    {
        let a = self.point2.minus(&self.point1);
        let b = self.point3.minus(&self.point1);
        proof {
            lemma_cross_bound(a@, b@, 2 * COORD_MAX, 2 * COORD_MAX);
        }
        a.cross(&b)
    }

    /// Whether the projection of `point` onto the triangle's plane lies in
    /// the triangle. A triangle without area contains nothing.
    pub fn contains(&self, point: &Vector3) -> (r: bool)
        requires
            self.wf(),
            point@.within(REACH_MAX as int),
        ensures
            r == self.spec_contains(point@),
    {
        let d0 = self.point3.minus(&self.point1);
        let d1 = self.point2.minus(&self.point1);
        let d2 = point.minus(&self.point1);
        let d00: i128 = d0.dot(&d0);
        let d01: i128 = d0.dot(&d1);
        let d02: i128 = d0.dot(&d2);
        let d11: i128 = d1.dot(&d1);
        let d12: i128 = d1.dot(&d2);
        proof {
            lemma_dot_bound3(d0@, d0@, 200_000, 200_000);
            lemma_dot_bound3(d0@, d1@, 200_000, 200_000);
            lemma_dot_bound3(d1@, d1@, 200_000, 200_000);
            lemma_dot_bound3(d0@, d2@, 200_000, 900_000);
            lemma_dot_bound3(d1@, d2@, 200_000, 900_000);
            lemma_product_bound(d00 as int, d11 as int, 120_000_000_000, 120_000_000_000);
            lemma_product_bound(d01 as int, d01 as int, 120_000_000_000, 120_000_000_000);
            lemma_product_bound(d11 as int, d02 as int, 120_000_000_000, 540_000_000_000);
            lemma_product_bound(d01 as int, d12 as int, 120_000_000_000, 540_000_000_000);
            lemma_product_bound(d00 as int, d12 as int, 120_000_000_000, 540_000_000_000);
            lemma_product_bound(d01 as int, d02 as int, 120_000_000_000, 540_000_000_000);
        }
        let denom: i128 = d00 * d11 - d01 * d01;
        if denom <= 0 {
            return false;
        }
        let u: i128 = d11 * d02 - d01 * d12;
        let v: i128 = d00 * d12 - d01 * d02;
        u >= 0 && v >= 0 && u + v < denom
    }

    /// The point of the triangle nearest to `point`, with the squared
    /// distance to it rounded down to a whole number.
    ///
    /// Where the triangle contains the projection of `point`, the result is
    /// `point` itself at distance zero. Otherwise it is the nearest of the
    /// points that the three edges hold nearest to `point` (the first such
    /// edge on a tie, in the order first to second corner, second to third,
    /// third to first), rounded to the lattice.
    pub fn closest_point(&self, point: &Vector3) -> (r: (Vector3, i64))
        requires
            self.wf(),
            point@.within(REACH_MAX as int),
        ensures
            r.1 == self.spec_distance_squared(point@),
            self.spec_contains(point@) ==> r.0 == *point && r.1 == 0,
            !self.spec_contains(point@) ==> {
                let d12 = spec_segment_distance_squared(self.point1@, self.point2@, point@);
                let d23 = spec_segment_distance_squared(self.point2@, self.point3@, point@);
                let d31 = spec_segment_distance_squared(self.point3@, self.point1@, point@);
                &&& r.1 == self.edge_distance_squared(point@)
                &&& r.0@ == if d12 <= d23 && d12 <= d31 {
                    spec_closest_to_segment(self.point1@, self.point2@, point@)
                } else if d23 <= d31 {
                    spec_closest_to_segment(self.point2@, self.point3@, point@)
                } else {
                    spec_closest_to_segment(self.point3@, self.point1@, point@)
                }
            },
            0 <= r.1 <= 2_430_000_000_000,
    {
        if self.contains(point) {
            return (*point, 0);
        }
        let d12: i64 = segment_distance_squared(&self.point1, &self.point2, point);
        let d23: i64 = segment_distance_squared(&self.point2, &self.point3, point);
        let d31: i64 = segment_distance_squared(&self.point3, &self.point1, point);
        if d12 <= d23 && d12 <= d31 {
            (closest_to_segment(&self.point1, &self.point2, point), d12)
        } else if d23 <= d31 {
            (closest_to_segment(&self.point2, &self.point3, point), d23)
        } else {
            (closest_to_segment(&self.point3, &self.point1, point), d31)
        }
    }

    /// The plane of the triangle, with `normal()` as its normal. For corners
    /// on one line the normal is zero and the plane is no valid plane.
    pub fn to_plane(&self) -> (r: Plane)
        requires
            self.wf(),
        ensures
            r == self.spec_plane(),
            r.normal@ == self.spec_normal(),
            r.d == -self.spec_normal().dot(self.point1@),
            r.in_range(),
            forall|p: V3| #[trigger] r.spec_distance(p) == self.spec_distance(p),
    {
        let normal = self.normal();
        let plane = Plane::from_point(&normal, &self.point1);
        proof {
            assert forall|p: V3| #[trigger] plane.spec_distance(p) == self.spec_distance(p) by {
                lemma_dot_shift(p, self.point1@, normal@);
            }
        }
        plane
    }

    /// The signed distance of `point` from the triangle's plane, scaled by
    /// the length of `normal()`.
    pub fn distance(&self, point: &Vector3) -> (r: i64)
        requires
            self.wf(),
            point@.within(REACH_MAX as int),
        ensures
            r == self.spec_distance(point@),
            -216_000_000_000_000_000 <= r <= 216_000_000_000_000_000,
    {
        let normal = self.normal();
        let offset = point.minus(&self.point1);
        proof {
            lemma_dot_bound3(offset@, normal@, 900_000, NORMAL_MAX as int);
        }
        let s: i128 = offset.dot(&normal);
        s as i64
    }

    /// The coordinates of the first corner, then of the second, then of the
    /// third.
    pub fn iter(&self) -> (r: Vec<i64>)
        ensures
            r@ == seq![
                self.point1.x,
                self.point1.y,
                self.point1.z,
                self.point2.x,
                self.point2.y,
                self.point2.z,
                self.point3.x,
                self.point3.y,
                self.point3.z,
            ],
    {
        let mut out: Vec<i64> = Vec::new();
        out.push(self.point1.x);
        out.push(self.point1.y);
        out.push(self.point1.z);
        out.push(self.point2.x);
        out.push(self.point2.y);
        out.push(self.point2.z);
        out.push(self.point3.x);
        out.push(self.point3.y);
        out.push(self.point3.z);
        out
    }
}

/// The dot product distributes over a difference.
pub proof fn lemma_dot_shift(p: V3, q: V3, n: V3)
    by (nonlinear_arith)
    ensures
        p.sub(q).dot(n) == n.dot(p) - n.dot(q),
        (p.x - q.x) * n.x + (p.y - q.y) * n.y + (p.z - q.z) * n.z == (n.x * p.x + n.y * p.y + n.z
            * p.z) - (n.x * q.x + n.y * q.y + n.z * q.z),
{
}

/// A third of `v`, rounded toward negative infinity.
fn third_floor(v: i64) -> (r: i64)
    requires
        -300_000 <= v <= 300_000,
    ensures
        r == v as int / 3,
        -100_000 <= r <= 100_000,
{
    let q: i128 = div_floor(v as i128, 3);
    q as i64
}

impl Shape3D for Triangle {
    open spec fn valid(&self) -> bool {
        self.wf()
    }

    open spec fn spec_bounding_aabb(&self) -> AxisAlignedBoundingBox {
        self.spec_bounds()
    }

    open spec fn spec_bounding_sphere(&self) -> Sphere {
        self.spec_bounding_aabb().spec_bounding_sphere()
    }

    /// The mean of the three corners, each coordinate rounded toward negative
    /// infinity.
    open spec fn spec_center(&self) -> V3 {
        V3 {
            x: (self.point1.x + self.point2.x + self.point3.x) / 3,
            y: (self.point1.y + self.point2.y + self.point3.y) / 3,
            z: (self.point1.z + self.point2.z + self.point3.z) / 3,
        }
    }

    open spec fn is_unbounded(&self) -> bool {
        false
    }

    open spec fn can_translate(&self, offset: V3) -> bool {
        &&& fits_i64(self.point1.x + offset.x)
        &&& fits_i64(self.point1.y + offset.y)
        &&& fits_i64(self.point1.z + offset.z)
        &&& fits_i64(self.point2.x + offset.x)
        &&& fits_i64(self.point2.y + offset.y)
        &&& fits_i64(self.point2.z + offset.z)
        &&& fits_i64(self.point3.x + offset.x)
        &&& fits_i64(self.point3.y + offset.y)
        &&& fits_i64(self.point3.z + offset.z)
    }

    open spec fn translated(&self, offset: V3) -> Self {
        Triangle {
            point1: Vector3 {
                x: (self.point1.x + offset.x) as i64,
                y: (self.point1.y + offset.y) as i64,
                z: (self.point1.z + offset.z) as i64,
            },
            point2: Vector3 {
                x: (self.point2.x + offset.x) as i64,
                y: (self.point2.y + offset.y) as i64,
                z: (self.point2.z + offset.z) as i64,
            },
            point3: Vector3 {
                x: (self.point3.x + offset.x) as i64,
                y: (self.point3.y + offset.y) as i64,
                z: (self.point3.z + offset.z) as i64,
            },
        }
    }

    open spec fn can_recenter(&self, point: V3) -> bool {
        &&& point.within(COORD_MAX as int)
        &&& self.point1@.add(point.sub(self.spec_center())).within(COORD_MAX as int)
        &&& self.point2@.add(point.sub(self.spec_center())).within(COORD_MAX as int)
        &&& self.point3@.add(point.sub(self.spec_center())).within(COORD_MAX as int)
    }

    /// The triangle moved by the offset from its center to `point`.
    open spec fn recentered(&self, point: V3) -> Self {
        self.translated(point.sub(self.spec_center()))
    }

    fn bounding_aabb(&self) -> (r: AxisAlignedBoundingBox)
        ensures
            r.wf(),
    {
        self.bounds()
    }

    fn bounding_sphere(&self) -> (r: Sphere) {
        self.bounding_aabb().bounding_sphere()
    }

    fn center(&self) -> (r: Vector3)
        ensures
            r.in_world(),
    {
        Vector3::new(
            third_floor(self.point1.x + self.point2.x + self.point3.x),
            third_floor(self.point1.y + self.point2.y + self.point3.y),
            third_floor(self.point1.z + self.point2.z + self.point3.z),
        )
    }

    fn translate(&self, point: &Vector3) -> (r: Self)
        ensures
            r.point1@ == self.point1@.add(point@),
            r.point2@ == self.point2@.add(point@),
            r.point3@ == self.point3@.add(point@),
    {
        Triangle {
            point1: self.point1.plus(point),
            point2: self.point2.plus(point),
            point3: self.point3.plus(point),
        }
    }

    fn translate_mut(&mut self, value: &Vector3)
        ensures
            final(self).point1@ == old(self).point1@.add(value@),
            final(self).point2@ == old(self).point2@.add(value@),
            final(self).point3@ == old(self).point3@.add(value@),
    {
        self.point1 = self.point1.plus(value);
        self.point2 = self.point2.plus(value);
        self.point3 = self.point3.plus(value);
    }

    fn set_center(&self, point: &Vector3) -> (r: Self) {
        let mut t = *self;
        t.set_center_mut(point);
        t
    }

    fn set_center_mut(&mut self, new_center: &Vector3) {
        let center = self.center();
        let dist1 = self.point1.minus(&center);
        let dist2 = self.point2.minus(&center);
        let dist3 = self.point3.minus(&center);
        self.point1 = new_center.plus(&dist1);
        self.point2 = new_center.plus(&dist2);
        self.point3 = new_center.plus(&dist3);
    }

    proof fn lemma_translate_moves_center(&self, offset: V3) {
    }

    proof fn lemma_recenter_sets_center(&self, point: V3) {
    }

    proof fn lemma_translate_zero(&self) {
    }
}

} // verus!

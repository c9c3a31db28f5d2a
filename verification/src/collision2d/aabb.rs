//! Axis-aligned boxes of the plane.
use vstd::prelude::*;
use crate::collision2d::circle::Circle;
use crate::collision2d::Shape2D;
use crate::collision_resolution::CollisionResolution;
use crate::scalar::{
    ceil_div, ceil_sqrt, div_ceil, half_floor, in_range, isqrt_ceil, lemma_root_below,
    lemma_square_bound, n_abs,
    n_clamp, n_max, n_max_value, n_min, n_min_value, spec_abs, spec_clamp, spec_max, spec_min,
    spec_sign, wide_mul,
};
use crate::vector::{fits_i64, lemma_norm_sq_bound2, Vector2, V2};

verus! {

/// An axis-aligned box given by two opposite corners, in either order.
#[derive(Clone, Copy, Debug, PartialEq, Eq, Structural)]
pub struct AxisAlignedBoundingBox {
    pub start: Vector2,
    pub end: Vector2,
}

impl AxisAlignedBoundingBox {
    /// Both corners lie inside the range of the lattice.
    pub open spec fn wf(&self) -> bool {
        self.start.in_range() && self.end.in_range()
    }

    pub open spec fn spec_width(&self) -> int {
        spec_abs(self.start.x - self.end.x)
    }

    pub open spec fn spec_height(&self) -> int {
        spec_abs(self.start.y - self.end.y)
    }

    /// Width and height: twice the half extents.
    pub open spec fn extent2(&self) -> V2 {
        V2 { x: self.spec_width(), y: self.spec_height() }
    }

    /// The sum of the two corners: twice the center, which is exact where the
    /// center itself falls between lattice points.
    pub open spec fn center2(&self) -> V2 {
        self.start@.add(self.end@)
    }

    /// The component-wise least corner.
    pub open spec fn low(&self) -> V2 {
        V2 {
            x: spec_min(self.start.x as int, self.end.x as int),
            y: spec_min(self.start.y as int, self.end.y as int),
        }
    }

    /// The component-wise greatest corner.
    pub open spec fn high(&self) -> V2 {
        V2 {
            x: spec_max(self.start.x as int, self.end.x as int),
            y: spec_max(self.start.y as int, self.end.y as int),
        }
    }

    /// `point` lies in the box, border included.
    pub open spec fn holds(&self, point: V2) -> bool {
        &&& self.low().x <= point.x <= self.high().x
        &&& self.low().y <= point.y <= self.high().y
    }

    /// Whether both corners lie inside the range of the lattice.
    pub fn is_valid(&self) -> (r: bool)
        ensures
            r == self.wf(),
    {
        self.start.is_in_range() && self.end.is_in_range()
    }

    pub fn width(&self) -> (r: i64)
        requires
            self.wf(),
        ensures
            r == self.spec_width(),
    {
        n_abs(self.start.x - self.end.x)
    }

    pub fn height(&self) -> (r: i64)
        requires
            self.wf(),
        ensures
            r == self.spec_height(),
    {
        n_abs(self.start.y - self.end.y)
    }

    /// Half the width, rounded down to a whole unit.
    pub fn half_width(&self) -> (r: i64)
        requires
            self.wf(),
        ensures
            r == self.spec_width() / 2,
    {
        self.width() / 2
    }

    /// Half the height, rounded down to a whole unit.
    pub fn half_height(&self) -> (r: i64)
        requires
            self.wf(),
        ensures
            r == self.spec_height() / 2,
    {
        self.height() / 2
    }

    /// The component-wise least and greatest corners.
    pub fn min_max(&self) -> (r: (Vector2, Vector2))
        ensures
            r.0@ == self.low(),
            r.1@ == self.high(),
    {
        let min_vec = Vector2::new(n_min(self.start.x, self.end.x), n_min(self.start.y, self.end.y));
        let max_vec = Vector2::new(n_max(self.start.x, self.end.x), n_max(self.start.y, self.end.y));
        (min_vec, max_vec)
    }

    /// The point of the box nearest to `point`: `point` itself where the box
    /// holds it, otherwise its projection onto the border.
    pub fn closest_point(&self, point: &Vector2) -> (r: Vector2)
        ensures
            r.x == spec_clamp(point.x as int, self.low().x, self.high().x),
            r.y == spec_clamp(point.y as int, self.low().y, self.high().y),
            self.holds(r@),
            self.holds(point@) ==> r == *point,
    {
        let (min_vec, max_vec) = self.min_max();
        Vector2::new(
            n_clamp(point.x, min_vec.x, max_vec.x),
            n_clamp(point.y, min_vec.y, max_vec.y),
        )
    }

    /// The greatest of width and height with its axis; the height when they
    /// are equal.
    pub fn largest_dim(&self) -> (r: (usize, i64))
        requires
            self.wf(),
        ensures
            r.0 == self.extent2().max_index(),
            r.1 == self.extent2().at(r.0 as int),
            r.1 >= self.spec_width() && r.1 >= self.spec_height(),
    {
        Vector2::new(self.width(), self.height()).max_component()
    }

    /// The least of width and height with its axis; the width when they are
    /// equal.
    pub fn smallest_dim(&self) -> (r: (usize, i64))
        requires
            self.wf(),
        ensures
            r.0 == self.extent2().min_index(),
            r.1 == self.extent2().at(r.0 as int),
            r.1 <= self.spec_width() && r.1 <= self.spec_height(),
    {
        Vector2::new(self.width(), self.height()).min_component()
    }

    /// Twice the offset from the other box's center to this one's.
    pub open spec fn offset2(&self, other: &AxisAlignedBoundingBox) -> V2 {
        self.center2().sub(other.center2())
    }

    /// Twice the overlap of the two boxes on each axis: the sum of the half
    /// extents less the distance between the centers, doubled.
    pub open spec fn overlap2(&self, other: &AxisAlignedBoundingBox) -> V2 {
        self.extent2().add(other.extent2()).sub(self.offset2(other).abs())
    }

    /// The boxes overlap on both axes by more than nothing.
    pub open spec fn overlaps(&self, other: &AxisAlignedBoundingBox) -> bool {
        self.overlap2(other).x > 0 && self.overlap2(other).y > 0
    }

    /// The contact between two boxes, as `get_aabb_collision` reports it.
    pub open spec fn spec_aabb_collision(&self, other: &AxisAlignedBoundingBox) -> Option<
        CollisionResolution<Vector2>,
    > {
        let axis = self.overlap2(other).min_index();
        let normal = V2::axis(axis, spec_sign(self.offset2(other).at(axis)));
        if self.overlaps(other) {
            Some(
                CollisionResolution::<Vector2>::spec_along(
                    normal,
                    self.overlap2(other).at(axis) / 2,
                ),
            )
        } else {
            None
        }
    }

    /// The contact between two boxes.
    ///
    /// There is one exactly when the boxes overlap on every axis. The contact
    /// axis is the one of least overlap, the first such axis on a tie. The
    /// normal is the unit vector of that axis, pointing from the other box's
    /// center toward this one's (in the positive direction where the centers
    /// agree on that axis). The depth is the overlap on the contact axis,
    /// which between boxes of the lattice is a whole number.
    pub fn get_aabb_collision(&self, aabb: &AxisAlignedBoundingBox) -> (r: Option<
        CollisionResolution<Vector2>,
    >)
        requires
            self.wf(),
            aabb.wf(),
        ensures
            r == self.spec_aabb_collision(aabb),
            r.is_some() <==> self.overlaps(aabb),
            r matches Some(c) ==> {
                let axis = self.overlap2(aabb).min_index();
                &&& c.direction@ == V2::axis(axis, spec_sign(self.offset2(aabb).at(axis)))
                &&& c.is_unit()
                &&& c.penetration == self.overlap2(aabb).at(axis) / 2
                &&& 2 * c.penetration == self.overlap2(aabb).at(axis)
                &&& c.penetration > 0
            },
    {
        let n2 = Vector2::new(
            self.start.x + self.end.x - (aabb.start.x + aabb.end.x),
            self.start.y + self.end.y - (aabb.start.y + aabb.end.y),
        );
        let overlap2 = Vector2::new(
            self.width() + aabb.width() - n_abs(n2.x),
            self.height() + aabb.height() - n_abs(n2.y),
        );
        if overlap2.x > 0 && overlap2.y > 0 {
            let (index, twice) = overlap2.min_component();
            let normal = if index == 0 {
                Vector2::new(if n2.x < 0 { -1 } else { 1 }, 0)
            } else {
                Vector2::new(0, if n2.y < 0 { -1 } else { 1 })
            };
            Some(CollisionResolution::<Vector2>::along(&normal, twice / 2))
        } else {
            None
        }
    }

    /// The four corners: for each x of `start` then `end`, each y of `start`
    /// then `end`.
    pub fn corners(&self) -> (r: [Vector2; 4])
        ensures
            r[0] == (Vector2 { x: self.start.x, y: self.start.y }),
            r[1] == (Vector2 { x: self.start.x, y: self.end.y }),
            r[2] == (Vector2 { x: self.end.x, y: self.start.y }),
            r[3] == (Vector2 { x: self.end.x, y: self.end.y }),
    {
        [
            Vector2::new(self.start.x, self.start.y),
            Vector2::new(self.start.x, self.end.y),
            Vector2::new(self.end.x, self.start.y),
            Vector2::new(self.end.x, self.end.y),
        ]
    }

    /// The coordinates of `start`, then those of `end`.
    pub fn iter(&self) -> (r: Vec<i64>)
        ensures
            r@ == seq![self.start.x, self.start.y, self.end.x, self.end.y],
    {
        let mut out: Vec<i64> = Vec::new();
        out.push(self.start.x);
        out.push(self.start.y);
        out.push(self.end.x);
        out.push(self.end.y);
        out
    }

    /// Twice the offset from the circle's center to the box's center.
    pub open spec fn circle_offset2(&self, circle: &Circle) -> V2 {
        self.center2().sub(circle.center@.scale(2))
    }

    /// The circle's center lies in the box, border included.
    pub open spec fn holds_center(&self, circle: &Circle) -> bool {
        &&& spec_abs(self.circle_offset2(circle).x) <= self.spec_width()
        &&& spec_abs(self.circle_offset2(circle).y) <= self.spec_height()
    }

    /// Twice the offset from the box's center to the point of the border
    /// that the circle is measured against, taken in the direction of
    /// `circle_offset2`.
    ///
    /// For a center outside the box it is the offset clamped to the half
    /// extents. For a center inside, the offset is moved onto a face along the
    /// axis on which its magnitude is least (the first on a tie): the positive
    /// face where the offset is positive on that axis, the negative face
    /// otherwise.
    pub open spec fn face2(&self, circle: &Circle) -> V2 {
        let n = self.circle_offset2(circle);
        let e = self.extent2();
        let clamped = V2 { x: spec_clamp(n.x, -e.x, e.x), y: spec_clamp(n.y, -e.y, e.y) };
        if self.holds_center(circle) {
            if n.abs().min_index() == 0 {
                V2 { x: if clamped.x > 0 { e.x } else { -e.x }, y: clamped.y }
            } else {
                V2 { x: clamped.x, y: if clamped.y > 0 { e.y } else { -e.y } }
            }
        } else {
            clamped
        }
    }

    /// The square of twice the distance from the circle's center to the point
    /// `face2`.
    pub open spec fn gap2_sq(&self, circle: &Circle) -> int {
        self.circle_offset2(circle).sub(self.face2(circle)).norm_sq()
    }

    /// The box and the circle are in contact: the circle's center lies in the
    /// box, or no further from it than the radius.
    pub open spec fn touches_circle(&self, circle: &Circle) -> bool {
        self.holds_center(circle) || self.gap2_sq(circle) <= 4 * (circle.radius * circle.radius)
    }

    /// The contact between a box and a circle, as `get_circle_collision`
    /// reports it.
    pub open spec fn spec_circle_collision(&self, circle: &Circle) -> Option<
        CollisionResolution<Vector2>,
    > {
        let n = self.circle_offset2(circle);
        if self.touches_circle(circle) {
            Some(
                CollisionResolution::<Vector2>::spec_along(
                    n,
                    circle.radius - ceil_sqrt(ceil_div(self.gap2_sq(circle), 4)),
                ),
            )
        } else {
            None
        }
    }

    /// The contact between a box and a circle.
    ///
    /// There is one when the circle's center lies in the box or no further
    /// from the box than the radius. The normal points from the circle's
    /// center to the box's center: the direction is the unit normal where the
    /// centers differ along one axis only, and twice the offset between them
    /// otherwise. The depth is
    /// the radius less the distance from the circle's center to the point
    /// `face2`, rounded down to a whole unit; for a small circle deep inside a
    /// box it is negative.
    pub fn get_circle_collision(&self, circle: &Circle) -> (r: Option<CollisionResolution<Vector2>>)
        requires
            self.wf(),
            circle.wf(),
        ensures
            r == self.spec_circle_collision(circle),
            r.is_some() <==> self.touches_circle(circle),
            r matches Some(c) ==> {
                &&& c.direction@ == self.circle_offset2(circle).direction()
                &&& c.wf()
                &&& self.circle_offset2(circle).is_axial() ==> c.is_unit()
                &&& c.penetration == circle.radius - ceil_sqrt(
                    ceil_div(self.gap2_sq(circle), 4),
                )
            },
    {
        let n = Vector2::new(
            self.start.x + self.end.x - 2 * circle.center.x,
            self.start.y + self.end.y - 2 * circle.center.y,
        );
        let extent = Vector2::new(self.width(), self.height());
        let mut closest = Vector2::new(
            n_clamp(n.x, -extent.x, extent.x),
            n_clamp(n.y, -extent.y, extent.y),
        );
        let inside = if n.x == closest.x && n.y == closest.y {
            let (index, _) = n.abs().min_component();
            if index == 0 {
                closest.x = if closest.x > 0 { extent.x } else { -extent.x };
            } else {
                closest.y = if closest.y > 0 { extent.y } else { -extent.y };
            }
            true
        } else {
            false
        };
        let gap = n.minus(&closest);
        let d: i128 = gap.magnitude_squared();
        proof {
            lemma_norm_sq_bound2(gap@, 6_442_450_944);
            lemma_square_bound(circle.radius as int, 2_147_483_648);
        }
        if d > 4 * wide_mul(circle.radius, circle.radius) && !inside {
            return None;
        }
        let root: i128 = isqrt_ceil(div_ceil(d, 4));
        proof {
            lemma_root_below(
                ceil_div(d as int, 4),
                root as int,
                6_442_450_944,
            );
        }
        Some(CollisionResolution::<Vector2>::along(&n, circle.radius - (root as i64)))
    }
    /// The smallest box that holds both boxes.
    pub open spec fn spec_union(self, rhs: AxisAlignedBoundingBox) -> AxisAlignedBoundingBox {
        AxisAlignedBoundingBox {
            start: Vector2 {
                x: spec_min(self.low().x, rhs.low().x) as i64,
                y: spec_min(self.low().y, rhs.low().y) as i64,
            },
            end: Vector2 {
                x: spec_max(self.high().x, rhs.high().x) as i64,
                y: spec_max(self.high().y, rhs.high().y) as i64,
            },
        }
    }

    /// The box around the origin and the first `count` of `boxes`: the sum of
    /// those boxes, starting from the empty box at the origin.
    pub open spec fn spec_sum(boxes: Seq<AxisAlignedBoundingBox>, count: nat) -> AxisAlignedBoundingBox
        decreases count,
    {
        if count == 0 {
            AxisAlignedBoundingBox { start: Vector2 { x: 0, y: 0 }, end: Vector2 { x: 0, y: 0 } }
        } else {
            Self::spec_sum(boxes, (count - 1) as nat).spec_union(boxes[count - 1])
        }
    }

    /// The smallest box that holds the origin and every box of `boxes`.
    pub fn sum(boxes: &[AxisAlignedBoundingBox]) -> (r: AxisAlignedBoundingBox)
        ensures
            r == Self::spec_sum(boxes@, boxes@.len()),
    {
        let mut total = AxisAlignedBoundingBox { start: Vector2::zeros(), end: Vector2::zeros() };
        let mut i: usize = 0;
        while i < boxes.len()
            invariant
                i <= boxes@.len(),
                total == Self::spec_sum(boxes@, i as nat),
            decreases boxes@.len() - i,
        {
            total = total + boxes[i];
            i = i + 1;
        }
        total
    }

    /// The box whose `start` is the component-wise least and whose `end` is
    /// the component-wise greatest of the first `count` of `points`. With no
    /// point, `start` holds the largest scalar and `end` the smallest.
    pub open spec fn spec_from_iter(points: Seq<Vector2>, count: nat) -> AxisAlignedBoundingBox
        decreases count,
    {
        if count == 0 {
            AxisAlignedBoundingBox {
                start: Vector2 { x: i64::MAX, y: i64::MAX },
                end: Vector2 { x: i64::MIN, y: i64::MIN },
            }
        } else {
            let rest = Self::spec_from_iter(points, (count - 1) as nat);
            let point = points[count - 1];
            AxisAlignedBoundingBox {
                start: Vector2 {
                    x: spec_min(point.x as int, rest.start.x as int) as i64,
                    y: spec_min(point.y as int, rest.start.y as int) as i64,
                },
                end: Vector2 {
                    x: spec_max(point.x as int, rest.end.x as int) as i64,
                    y: spec_max(point.y as int, rest.end.y as int) as i64,
                },
            }
        }
    }

    /// The smallest box around `points`.
    pub fn from_iter(points: &[Vector2]) -> (r: AxisAlignedBoundingBox)
        ensures
            r == Self::spec_from_iter(points@, points@.len()),
            forall|i: int| 0 <= i < points@.len() ==> r.holds(#[trigger] points@[i]@),
    {
        let mut start = Vector2::from_element(n_max_value());
        let mut end = Vector2::from_element(n_min_value());
        let mut i: usize = 0;
        while i < points.len()
            invariant
                i <= points@.len(),
                (AxisAlignedBoundingBox { start, end }) == Self::spec_from_iter(points@, i as nat),
                forall|j: int|
                    0 <= j < i ==> (AxisAlignedBoundingBox { start, end }).holds(
                        #[trigger] points@[j]@,
                    ),
            decreases points@.len() - i,
        {
            let v = points[i];
            start = Vector2::new(n_min(v.x, start.x), n_min(v.y, start.y));
            end = Vector2::new(n_max(v.x, end.x), n_max(v.y, end.y));
            i = i + 1;
        }
        AxisAlignedBoundingBox { start, end }
    }
}

impl core::ops::Add for AxisAlignedBoundingBox {
    type Output = AxisAlignedBoundingBox;

    /// The smallest box that holds both boxes.
    fn add(self, rhs: AxisAlignedBoundingBox) -> (r: AxisAlignedBoundingBox)
        ensures
            r.start@ == (V2 {
                x: spec_min(self.low().x, rhs.low().x),
                y: spec_min(self.low().y, rhs.low().y),
            }),
            r.end@ == (V2 {
                x: spec_max(self.high().x, rhs.high().x),
                y: spec_max(self.high().y, rhs.high().y),
            }),
    {
        AxisAlignedBoundingBox {
            start: Vector2::new(
                n_min(n_min(self.start.x, self.end.x), n_min(rhs.start.x, rhs.end.x)),
                n_min(n_min(self.start.y, self.end.y), n_min(rhs.start.y, rhs.end.y)),
            ),
            end: Vector2::new(
                n_max(n_max(self.start.x, self.end.x), n_max(rhs.start.x, rhs.end.x)),
                n_max(n_max(self.start.y, self.end.y), n_max(rhs.start.y, rhs.end.y)),
            ),
        }
    }
}

impl vstd::std_specs::ops::AddSpecImpl for AxisAlignedBoundingBox {
    open spec fn obeys_add_spec() -> bool {
        true
    }

    open spec fn add_req(self, rhs: AxisAlignedBoundingBox) -> bool {
        true
    }

    open spec fn add_spec(self, rhs: AxisAlignedBoundingBox) -> AxisAlignedBoundingBox {
        self.spec_union(rhs)
    }
}

impl core::ops::Mul<i64> for AxisAlignedBoundingBox {
    type Output = AxisAlignedBoundingBox;

    /// Both corners scaled by `rhs`.
    fn mul(self, rhs: i64) -> (r: AxisAlignedBoundingBox)
        ensures
            r.start@ == self.start@.scale(rhs as int),
            r.end@ == self.end@.scale(rhs as int),
    {
        AxisAlignedBoundingBox { start: self.start.scaled(rhs), end: self.end.scaled(rhs) }
    }
}

impl vstd::std_specs::ops::MulSpecImpl<i64> for AxisAlignedBoundingBox {
    open spec fn obeys_mul_spec() -> bool {
        true
    }

    open spec fn mul_req(self, rhs: i64) -> bool {
        &&& fits_i64(self.start.x * rhs)
        &&& fits_i64(self.start.y * rhs)
        &&& fits_i64(self.end.x * rhs)
        &&& fits_i64(self.end.y * rhs)
    }

    open spec fn mul_spec(self, rhs: i64) -> AxisAlignedBoundingBox {
        AxisAlignedBoundingBox {
            start: Vector2 { x: (self.start.x * rhs) as i64, y: (self.start.y * rhs) as i64 },
            end: Vector2 { x: (self.end.x * rhs) as i64, y: (self.end.y * rhs) as i64 },
        }
    }
}

impl Shape2D for AxisAlignedBoundingBox {
    open spec fn valid(&self) -> bool {
        self.wf()
    }

    open spec fn spec_bounding_aabb(&self) -> AxisAlignedBoundingBox {
        *self
    }

    open spec fn spec_bounding_sphere(&self) -> Circle {
        Circle {
            center: Vector2 { x: self.spec_center().x as i64, y: self.spec_center().y as i64 },
            radius: spec_max(self.spec_height(), self.spec_width()) as i64,
        }
    }

    /// The midpoint of the two corners, each coordinate rounded down to the
    /// lattice.
    open spec fn spec_center(&self) -> V2 {
        V2 { x: self.center2().x / 2, y: self.center2().y / 2 }
    }

    open spec fn can_translate(&self, offset: V2) -> bool {
        &&& fits_i64(self.start.x + offset.x)
        &&& fits_i64(self.start.y + offset.y)
        &&& fits_i64(self.end.x + offset.x)
        &&& fits_i64(self.end.y + offset.y)
    }

    open spec fn translated(&self, offset: V2) -> Self {
        AxisAlignedBoundingBox {
            start: Vector2 {
                x: (self.start.x + offset.x) as i64,
                y: (self.start.y + offset.y) as i64,
            },
            end: Vector2 { x: (self.end.x + offset.x) as i64, y: (self.end.y + offset.y) as i64 },
        }
    }

    open spec fn can_recenter(&self, point: V2) -> bool {
        &&& in_range(point.x - self.spec_width() / 2)
        &&& in_range(point.x - self.spec_width() / 2 + self.spec_width())
        &&& in_range(point.y - self.spec_height() / 2)
        &&& in_range(point.y - self.spec_height() / 2 + self.spec_height())
    }

    /// The box of the same extents around `point`: it starts at `point` less
    /// the half extents, each rounded down to a whole unit, and ends one full
    /// extent further.
    open spec fn recentered(&self, point: V2) -> Self {
        AxisAlignedBoundingBox {
            start: Vector2 {
                x: (point.x - self.spec_width() / 2) as i64,
                y: (point.y - self.spec_height() / 2) as i64,
            },
            end: Vector2 {
                x: (point.x - self.spec_width() / 2 + self.spec_width()) as i64,
                y: (point.y - self.spec_height() / 2 + self.spec_height()) as i64,
            },
        }
    }

    fn bounding_aabb(&self) -> (r: AxisAlignedBoundingBox) {
        *self
    }

    fn bounding_sphere(&self) -> (r: Circle) {
        let (_, radius) = Vector2::new(self.width(), self.height()).max_component();
        Circle { center: self.center(), radius }
    }

    fn center(&self) -> (r: Vector2) {
        Vector2::new(
            half_floor(self.start.x + self.end.x),
            half_floor(self.start.y + self.end.y),
        )
    }

    fn translate(&self, point: &Vector2) -> (r: Self)
        ensures
            r.start@ == self.start@.add(point@),
            r.end@ == self.end@.add(point@),
    {
        AxisAlignedBoundingBox { start: self.start.plus(point), end: self.end.plus(point) }
    }

    fn translate_mut(&mut self, point: &Vector2)
        ensures
            final(self).start@ == old(self).start@.add(point@),
            final(self).end@ == old(self).end@.add(point@),
    {
        self.start = self.start.plus(point);
        self.end = self.end.plus(point);
    }

    fn set_center(&self, point: &Vector2) -> (r: Self)
        ensures
            r.extent2() == self.extent2(),
    {
        let extent = Vector2::new(self.width(), self.height());
        let offset = Vector2::new(self.half_width(), self.half_height());
        let start = point.minus(&offset);
        AxisAlignedBoundingBox { start, end: start.plus(&extent) }
    }

    fn set_center_mut(&mut self, point: &Vector2)
        ensures
            final(self).extent2() == old(self).extent2(),
    {
        let extent = Vector2::new(self.width(), self.height());
        let offset = Vector2::new(self.half_width(), self.half_height());
        self.start = point.minus(&offset);
        self.end = self.start.plus(&extent);
    }

    proof fn lemma_translate_moves_center(&self, offset: V2) {
    }

    proof fn lemma_recenter_sets_center(&self, point: V2) {
    }

    proof fn lemma_translate_zero(&self) {
    }
}

} // verus!

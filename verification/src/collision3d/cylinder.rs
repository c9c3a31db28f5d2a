//! Cylinders along a coordinate axis.
use vstd::prelude::*;
use crate::collision2d::aabb::AxisAlignedBoundingBox as AABB2D;
use crate::collision2d::Circle;
use crate::collision3d::aabb::AxisAlignedBoundingBox;
use crate::collision3d::sphere::Sphere;
use crate::collision3d::{Axis, Shape3D};
use crate::collision_resolution::CollisionResolution;
use crate::scalar::{in_range, n_max, spec_max, RANGE_MAX};
use crate::vector::{fits_i64, lemma_direction2, Vector2, Vector3, V3};

verus! {

/// A cylinder whose axis runs along a coordinate axis.
#[derive(Clone, Copy, Debug, PartialEq, Eq, Structural)]
pub struct Cylinder {
    pub center: Vector3,
    pub half_height: i64,
    pub radius: i64,
    pub axis: Axis,
}

/// What a cylinder shows when looked at along a coordinate axis: a rectangle
/// from the side, a circle along its own axis.
#[derive(Clone, Copy, Debug, PartialEq, Eq, Structural)]
pub enum CylinderShape {
    AABB(AABB2D),
    Circle(Circle),
}

impl CylinderShape {
    /// The rectangle or circle lies inside the range of the lattice.
    pub open spec fn wf(&self) -> bool {
        match self {
            CylinderShape::AABB(a) => a.wf(),
            CylinderShape::Circle(a) => a.wf(),
        }
    }

    /// The contact between two such shapes, as `get_collision` reports it.
    pub open spec fn spec_collision(&self, other: &CylinderShape) -> Option<
        CollisionResolution<Vector2>,
    > {
        match self {
            CylinderShape::AABB(a) => match other {
                CylinderShape::AABB(b) => a.spec_aabb_collision(b),
                CylinderShape::Circle(b) => a.spec_circle_collision(b),
            },
            CylinderShape::Circle(a) => match other {
                CylinderShape::AABB(b) => match b.spec_circle_collision(a) {
                    Some(c) => Some(c.flipped()),
                    None => None,
                },
                CylinderShape::Circle(b) => a.spec_circle_collision(b),
            },
        }
    }

    /// The contact between two such shapes: the query that fits the two
    /// kinds, and for a circle against a rectangle that of the rectangle
    /// against the circle with the normal reversed.
    pub fn get_collision(&self, other: &CylinderShape) -> (r: Option<CollisionResolution<Vector2>>)
        requires
            self.wf(),
            other.wf(),
        ensures
            r == self.spec_collision(other),
            r matches Some(c) ==> c.wf(),
    {
        proof {
            match self.spec_collision(other) {
                Some(c) => {
                    lemma_direction2(c.direction@);
                },
                None => {},
            }
        }
        match self {
            CylinderShape::AABB(a) => match other {
                CylinderShape::AABB(b) => a.get_aabb_collision(b),
                CylinderShape::Circle(b) => a.get_circle_collision(b),
            },
            CylinderShape::Circle(a) => match other {
                CylinderShape::AABB(b) => match b.get_circle_collision(a) {
                    Some(c) => Some(c.flip()),
                    None => None,
                },
                CylinderShape::Circle(b) => a.get_circle_collision(b),
            },
        }
    }
}

impl Cylinder {
    /// Half the extent of the cylinder along `axis`: the half height along
    /// its own axis, the radius along the others.
    pub open spec fn spec_half_height(&self, axis: Axis) -> int {
        if axis == self.axis {
            self.half_height as int
        } else {
            self.radius as int
        }
    }

    /// Neither extent is negative and the cylinder lies inside the range of
    /// the lattice.
    pub open spec fn wf(&self) -> bool {
        &&& 0 <= self.half_height
        &&& 0 <= self.radius
        &&& in_range(self.center.x - self.spec_half_height(Axis::X))
        &&& in_range(self.center.x + self.spec_half_height(Axis::X))
        &&& in_range(self.center.y - self.spec_half_height(Axis::Y))
        &&& in_range(self.center.y + self.spec_half_height(Axis::Y))
        &&& in_range(self.center.z - self.spec_half_height(Axis::Z))
        &&& in_range(self.center.z + self.spec_half_height(Axis::Z))
    }

    /// Whether neither extent is negative and the cylinder lies inside the
    /// range of the lattice.
    pub fn is_valid(&self) -> (r: bool)
        ensures
            r == self.wf(),
    {
        if !(0 <= self.half_height && self.half_height <= 2 * RANGE_MAX && 0 <= self.radius
            && self.radius <= 2 * RANGE_MAX && self.center.is_in_range()) {
            return false;
        }
        let x: i64 = self.half_height(Axis::X);
        let y: i64 = self.half_height(Axis::Y);
        let z: i64 = self.half_height(Axis::Z);
        -RANGE_MAX <= self.center.x - x && self.center.x + x <= RANGE_MAX && -RANGE_MAX
            <= self.center.y - y && self.center.y + y <= RANGE_MAX && -RANGE_MAX <= self.center.z
            - z && self.center.z + z <= RANGE_MAX
    }

    /// The cylinder along `axis` that fills the box along that axis and
    /// reaches the box's faces along the wider of the other two. The extents
    /// are the box's half extents and the center its midpoint, each rounded
    /// down to a whole unit.
    pub fn from_aabb(aabb: &AxisAlignedBoundingBox, axis: Axis) -> (r: Cylinder)
        requires
            aabb.wf(),
        ensures
            r.axis == axis,
            r.center@ == aabb.spec_midpoint(),
            r.half_height == aabb.extent2().at(axis.index()) / 2,
            r.radius == match axis {
                Axis::X => spec_max(aabb.spec_height() / 2, aabb.spec_depth() / 2),
                Axis::Y => spec_max(aabb.spec_width() / 2, aabb.spec_depth() / 2),
                Axis::Z => spec_max(aabb.spec_width() / 2, aabb.spec_height() / 2),
            },
    {
        let (half_height, radius) = match axis {
            Axis::X => (aabb.half_width(), n_max(aabb.half_height(), aabb.half_depth())),
            Axis::Y => (aabb.half_height(), n_max(aabb.half_width(), aabb.half_depth())),
            Axis::Z => (aabb.half_depth(), n_max(aabb.half_width(), aabb.half_height())),
        };
        Cylinder { center: aabb.midpoint(), half_height, radius, axis }
    }

    /// The extent of the cylinder along its own axis.
    pub fn height(&self) -> (r: i64)
        requires
            self.wf(),
        ensures
            r == 2 * self.half_height,
    {
        self.half_height * 2
    }

    /// The extent of the cylinder across its own axis.
    pub fn diameter(&self) -> (r: i64)
        requires
            self.wf(),
        ensures
            r == 2 * self.radius,
    {
        self.radius * 2
    }

    /// Half the extent of the cylinder along `axis`: the half height along
    /// its own axis, the radius along the others.
    pub fn half_height(&self, axis: Axis) -> (r: i64)
        ensures
            r == self.spec_half_height(axis),
    {
        if axis == self.axis {
            self.half_height
        } else {
            self.radius
        }
    }

    /// The coordinate of the center on `axis`.
    pub fn get_position(&self, axis: Axis) -> (r: i64)
        ensures
            r == self.center@.at(axis.index()),
    {
        match axis {
            Axis::X => self.center.x,
            Axis::Y => self.center.y,
            Axis::Z => self.center.z,
        }
    }

    /// What the cylinder shows when looked at along the axis that is neither
    /// `horizontal` nor `vertical`: a rectangle where one of the two is the
    /// cylinder's own axis, a circle otherwise.
    pub open spec fn spec_shape(&self, horizontal: Axis, vertical: Axis) -> CylinderShape {
        let x = self.center@.at(horizontal.index());
        let y = self.center@.at(vertical.index());
        if self.axis == horizontal || self.axis == vertical {
            CylinderShape::AABB(
                AABB2D {
                    start: Vector2 {
                        x: (x - self.spec_half_height(horizontal)) as i64,
                        y: (y - self.spec_half_height(vertical)) as i64,
                    },
                    end: Vector2 {
                        x: (x + self.spec_half_height(horizontal)) as i64,
                        y: (y + self.spec_half_height(vertical)) as i64,
                    },
                },
            )
        } else {
            CylinderShape::Circle(
                Circle { center: Vector2 { x: x as i64, y: y as i64 }, radius: self.radius },
            )
        }
    }

    /// What the cylinder shows when looked at along the axis that is neither
    /// `horizontal` nor `vertical`.
    pub fn get_shape(&self, horizontal: Axis, vertical: Axis) -> (r: CylinderShape)
        requires
            self.wf(),
            horizontal != vertical,
        ensures
            r == self.spec_shape(horizontal, vertical),
            r.wf(),
    {
        let center = Vector2::new(self.get_position(horizontal), self.get_position(vertical));
        if self.axis == horizontal || self.axis == vertical {
            let x: i64 = self.half_height(horizontal);
            let y: i64 = self.half_height(vertical);
            let v = Vector2::new(x, y);
            CylinderShape::AABB(AABB2D { start: center.minus(&v), end: center.plus(&v) })
        } else {
            CylinderShape::Circle(Circle { center, radius: self.radius })
        }
    }

    /// The index of the least of three penetrations, the first on a tie.
    pub open spec fn least(a: int, b: int, c: int) -> int {
        if b < a {
            if c < b {
                2
            } else {
                1
            }
        } else if c < a {
            2
        } else {
            0
        }
    }

    /// The contact in space that the contacts of the three views make up.
    ///
    /// There is none where a view shows none. Otherwise it is that of the
    /// view with the least penetration, the first such view on a tie. The
    /// view along z gives its normal to x and y, the view along x gives the
    /// first component of its normal to z and the second to y, and the view
    /// along y gives the first to x and the second to z.
    pub open spec fn spec_combine(
        along_z: Option<CollisionResolution<Vector2>>,
        along_x: Option<CollisionResolution<Vector2>>,
        along_y: Option<CollisionResolution<Vector2>>,
    ) -> Option<CollisionResolution<Vector3>> {
        match (along_z, along_x, along_y) {
            (Some(a), Some(b), Some(c)) => {
                let index = Self::least(
                    a.penetration as int,
                    b.penetration as int,
                    c.penetration as int,
                );
                if index == 0 {
                    Some(
                        CollisionResolution {
                            direction: Vector3 { x: a.direction.x, y: a.direction.y, z: 0 },
                            length_squared: a.length_squared,
                            penetration: a.penetration,
                        },
                    )
                } else if index == 1 {
                    Some(
                        CollisionResolution {
                            direction: Vector3 { x: 0, y: b.direction.y, z: b.direction.x },
                            length_squared: b.length_squared,
                            penetration: b.penetration,
                        },
                    )
                } else {
                    Some(
                        CollisionResolution {
                            direction: Vector3 { x: c.direction.x, y: 0, z: c.direction.y },
                            length_squared: c.length_squared,
                            penetration: c.penetration,
                        },
                    )
                }
            },
            _ => None,
        }
    }

    /// The contact in space that the contacts of the three views make up: in
    /// `collisions`, first the view along z (axes x and y), then the view
    /// along x (axes z and y), then the view along y (axes x and z).
    pub fn get_collision(collisions: &[Option<CollisionResolution<Vector2>>; 3]) -> (r: Option<
        CollisionResolution<Vector3>,
    >)
        ensures
            r == Self::spec_combine(collisions[0], collisions[1], collisions[2]),
            (forall|i: int| 0 <= i < 3 ==> (#[trigger] collisions[i] matches Some(c) ==> c.wf()))
                ==> (r matches Some(c) ==> c.wf()),
    {
        proof {
            match (collisions[0], collisions[1], collisions[2]) {
                (Some(a), Some(b), Some(c)) => {
                    lemma_flat_length(a.direction.x as int, a.direction.y as int);
                    lemma_flat_length(b.direction.x as int, b.direction.y as int);
                    lemma_flat_length(c.direction.x as int, c.direction.y as int);
                },
                _ => {},
            }
        }
        let a = match collisions[0] {
            Some(a) => a,
            None => {
                return None;
            },
        };
        let b = match collisions[1] {
            Some(b) => b,
            None => {
                return None;
            },
        };
        let c = match collisions[2] {
            Some(c) => c,
            None => {
                return None;
            },
        };
        let mut index: usize = 0;
        let mut least: i64 = a.penetration;
        if b.penetration < least {
            index = 1;
            least = b.penetration;
        }
        if c.penetration < least {
            index = 2;
        }
        let rval = if index == 0 {
            CollisionResolution {
                direction: Vector3::new(a.direction.x, a.direction.y, 0),
                length_squared: a.length_squared,
                penetration: a.penetration,
            }
        } else if index == 1 {
            CollisionResolution {
                direction: Vector3::new(0, b.direction.y, b.direction.x),
                length_squared: b.length_squared,
                penetration: b.penetration,
            }
        } else {
            CollisionResolution {
                direction: Vector3::new(c.direction.x, 0, c.direction.y),
                length_squared: c.length_squared,
                penetration: c.penetration,
            }
        };
        Some(rval)
    }

    /// The contact between a cylinder and a sphere, as `get_sphere_collision`
    /// reports it: what the three views of the two shapes make up.
    pub open spec fn spec_sphere_collision(&self, sphere: &Sphere) -> Option<
        CollisionResolution<Vector3>,
    > {
        Self::spec_combine(
            self.spec_shape(Axis::X, Axis::Y).spec_collision(
                &CylinderShape::Circle(sphere.spec_circle(Axis::X, Axis::Y)),
            ),
            self.spec_shape(Axis::Z, Axis::Y).spec_collision(
                &CylinderShape::Circle(sphere.spec_circle(Axis::Z, Axis::Y)),
            ),
            self.spec_shape(Axis::X, Axis::Z).spec_collision(
                &CylinderShape::Circle(sphere.spec_circle(Axis::X, Axis::Z)),
            ),
        )
    }

    /// The contact between a cylinder and a sphere.
    ///
    /// Both shapes are looked at along each coordinate axis, and the two
    /// views tested against each other in the plane. There is no contact
    /// where a pair of views shows none; otherwise the three contacts make up
    /// the contact in space as `get_collision` says.
    pub fn get_sphere_collision(&self, sphere: &Sphere) -> (r: Option<CollisionResolution<Vector3>>)
        requires
            self.wf(),
            sphere.wf(),
        ensures
            r == self.spec_sphere_collision(sphere),
            r matches Some(c) ==> c.wf(),
    {
        let axes = [(Axis::X, Axis::Y), (Axis::Z, Axis::Y), (Axis::X, Axis::Z)];
        let mut collisions: [Option<CollisionResolution<Vector2>>; 3] = [None, None, None];
        let mut index: usize = 0;
        while index < 3
            invariant
                index <= 3,
                self.wf(),
                sphere.wf(),
                axes[0] == (Axis::X, Axis::Y),
                axes[1] == (Axis::Z, Axis::Y),
                axes[2] == (Axis::X, Axis::Z),
                forall|i: int|
                    0 <= i < index ==> #[trigger] collisions[i] == self.spec_shape(
                        axes[i].0,
                        axes[i].1,
                    ).spec_collision(&CylinderShape::Circle(sphere.spec_circle(axes[i].0, axes[i].1))),
                forall|i: int| 0 <= i < 3 ==> (#[trigger] collisions[i] matches Some(c) ==> c.wf()),
            decreases 3 - index,
        {
            let (horizontal, vertical) = axes[index];
            let found = self.get_shape(horizontal, vertical).get_collision(
                &CylinderShape::Circle(sphere.to_circle(horizontal, vertical)),
            );
            collisions.set(index, found);
            index = index + 1;
        }
        Self::get_collision(&collisions)
    }

    /// The contact between a cylinder and a box, as `get_aabb_collision`
    /// reports it: what the three views of the two shapes make up.
    pub open spec fn spec_aabb_collision(&self, aabb: &AxisAlignedBoundingBox) -> Option<
        CollisionResolution<Vector3>,
    > {
        Self::spec_combine(
            self.spec_shape(Axis::X, Axis::Y).spec_collision(
                &CylinderShape::AABB(aabb.spec_2d(Axis::X, Axis::Y)),
            ),
            self.spec_shape(Axis::Z, Axis::Y).spec_collision(
                &CylinderShape::AABB(aabb.spec_2d(Axis::Z, Axis::Y)),
            ),
            self.spec_shape(Axis::X, Axis::Z).spec_collision(
                &CylinderShape::AABB(aabb.spec_2d(Axis::X, Axis::Z)),
            ),
        )
    }

    /// The contact between a cylinder and a box.
    ///
    /// Both shapes are looked at along each coordinate axis, and the two
    /// views tested against each other in the plane. There is no contact
    /// where a pair of views shows none; otherwise the three contacts make up
    /// the contact in space as `get_collision` says.
    pub fn get_aabb_collision(&self, aabb: &AxisAlignedBoundingBox) -> (r: Option<
        CollisionResolution<Vector3>,
    >)
        requires
            self.wf(),
            aabb.wf(),
        ensures
            r == self.spec_aabb_collision(aabb),
            r matches Some(c) ==> c.wf(),
    {
        let axes = [(Axis::X, Axis::Y), (Axis::Z, Axis::Y), (Axis::X, Axis::Z)];
        let mut collisions: [Option<CollisionResolution<Vector2>>; 3] = [None, None, None];
        let mut index: usize = 0;
        while index < 3
            invariant
                index <= 3,
                self.wf(),
                aabb.wf(),
                axes[0] == (Axis::X, Axis::Y),
                axes[1] == (Axis::Z, Axis::Y),
                axes[2] == (Axis::X, Axis::Z),
                forall|i: int|
                    0 <= i < index ==> #[trigger] collisions[i] == self.spec_shape(
                        axes[i].0,
                        axes[i].1,
                    ).spec_collision(&CylinderShape::AABB(aabb.spec_2d(axes[i].0, axes[i].1))),
                forall|i: int| 0 <= i < 3 ==> (#[trigger] collisions[i] matches Some(c) ==> c.wf()),
            decreases 3 - index,
        {
            let (horizontal, vertical) = axes[index];
            let found = self.get_shape(horizontal, vertical).get_collision(
                &CylinderShape::AABB(aabb.to_2d(horizontal, vertical)),
            );
            collisions.set(index, found);
            index = index + 1;
        }
        Self::get_collision(&collisions)
    }

    /// The smallest box around the cylinder.
    pub open spec fn spec_bounds(&self) -> AxisAlignedBoundingBox {
        AxisAlignedBoundingBox {
            start: Vector3 {
                x: (self.center.x - self.spec_half_height(Axis::X)) as i64,
                y: (self.center.y - self.spec_half_height(Axis::Y)) as i64,
                z: (self.center.z - self.spec_half_height(Axis::Z)) as i64,
            },
            end: Vector3 {
                x: (self.center.x + self.spec_half_height(Axis::X)) as i64,
                y: (self.center.y + self.spec_half_height(Axis::Y)) as i64,
                z: (self.center.z + self.spec_half_height(Axis::Z)) as i64,
            },
        }
    }
}

/// A vector of the plane keeps its length when it is laid into space.
proof fn lemma_flat_length(x: int, y: int)
    by (nonlinear_arith)
    ensures
        x * x + y * y + 0 * 0 == x * x + y * y,
        0 * 0 + y * y + x * x == x * x + y * y,
        x * x + 0 * 0 + y * y == x * x + y * y,
{
}

impl Shape3D for Cylinder {
    open spec fn valid(&self) -> bool {
        self.wf()
    }

    open spec fn spec_bounding_aabb(&self) -> AxisAlignedBoundingBox {
        self.spec_bounds()
    }

    /// The sphere around the center whose radius is the greater of half
    /// height and radius.
    open spec fn spec_bounding_sphere(&self) -> Sphere {
        Sphere {
            center: self.center,
            radius: spec_max(self.radius as int, self.half_height as int) as i64,
        }
    }

    open spec fn spec_center(&self) -> V3 {
        self.center@
    }

    open spec fn is_unbounded(&self) -> bool {
        false
    }

    open spec fn can_translate(&self, offset: V3) -> bool {
        &&& fits_i64(self.center.x + offset.x)
        &&& fits_i64(self.center.y + offset.y)
        &&& fits_i64(self.center.z + offset.z)
    }

    open spec fn translated(&self, offset: V3) -> Self {
        Cylinder {
            center: Vector3 {
                x: (self.center.x + offset.x) as i64,
                y: (self.center.y + offset.y) as i64,
                z: (self.center.z + offset.z) as i64,
            },
            half_height: self.half_height,
            radius: self.radius,
            axis: self.axis,
        }
    }

    open spec fn can_recenter(&self, point: V3) -> bool {
        &&& in_range(point.x - self.spec_half_height(Axis::X))
        &&& in_range(point.x + self.spec_half_height(Axis::X))
        &&& in_range(point.y - self.spec_half_height(Axis::Y))
        &&& in_range(point.y + self.spec_half_height(Axis::Y))
        &&& in_range(point.z - self.spec_half_height(Axis::Z))
        &&& in_range(point.z + self.spec_half_height(Axis::Z))
    }

    open spec fn recentered(&self, point: V3) -> Self {
        Cylinder {
            center: Vector3 { x: point.x as i64, y: point.y as i64, z: point.z as i64 },
            half_height: self.half_height,
            radius: self.radius,
            axis: self.axis,
        }
    }

    fn bounding_aabb(&self) -> (r: AxisAlignedBoundingBox)
        ensures
            r.wf(),
    {
        let v = Vector3::new(
            self.half_height(Axis::X),
            self.half_height(Axis::Y),
            self.half_height(Axis::Z),
        );
        let start = self.center.minus(&v);
        let end = self.center.plus(&v);
        AxisAlignedBoundingBox { start, end }
    }

    fn bounding_sphere(&self) -> (r: Sphere) {
        Sphere { center: self.center, radius: n_max(self.radius, self.half_height) }
    }

    fn center(&self) -> (r: Vector3) {
        self.center
    }

    fn translate(&self, point: &Vector3) -> (r: Self)
        ensures
            r.center@ == self.center@.add(point@),
    {
        Cylinder {
            center: self.center.plus(point),
            half_height: self.half_height,
            radius: self.radius,
            axis: self.axis,
        }
    }

    fn translate_mut(&mut self, point: &Vector3)
        ensures
            final(self).center@ == old(self).center@.add(point@),
    {
        self.center = self.center.plus(point);
    }

    fn set_center(&self, point: &Vector3) -> (r: Self)
        ensures
            r.center == *point,
    {
        let mut c = *self;
        c.set_center_mut(point);
        c
    }

    fn set_center_mut(&mut self, point: &Vector3)
        ensures
            final(self).center == *point,
    {
        self.center = *point;
    }

    proof fn lemma_translate_moves_center(&self, offset: V3) {
    }

    proof fn lemma_recenter_sets_center(&self, point: V3) {
    }

    proof fn lemma_translate_zero(&self) {
    }
}

} // verus!

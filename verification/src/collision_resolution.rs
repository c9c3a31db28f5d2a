//! The result of a contact query.
use vstd::prelude::*;
use crate::scalar::{floor_sqrt, scaled_down, wide_mul};
use crate::vector::{lemma_direction2, lemma_direction3, Vector2, Vector3, DOT_MAX, V2, V3};

verus! {

/// A contact between two shapes: the direction along which to separate them
/// and the depth by which they overlap, in whole lattice units.
///
/// The unit normal of a contact is `direction` divided by its length. The
/// lattice can hold a unit vector only along a coordinate axis, so the
/// queries report the direction with its squared length: for a contact along
/// an axis `direction` is the unit normal itself and `length_squared` is one;
/// for any other contact `direction` is an exact vector of the length that
/// `length_squared` gives, and the unit normal is no lattice vector.
#[derive(Clone, Copy, Debug, PartialEq, Eq, Structural)]
pub struct CollisionResolution<T> {
    pub direction: T,
    pub length_squared: i128,
    pub penetration: i64,
}

/// One component of a force of the size `penetration` along a direction: the
/// component `d` of the direction times `penetration`, divided by the length
/// of the direction, its magnitude rounded down to a whole unit. A direction
/// without length gives no force.
pub open spec fn force_component(d: int, penetration: int, length_squared: int) -> int {
    let x = d * penetration;
    if length_squared <= 0 {
        0
    } else if x >= 0 {
        floor_sqrt((x * x) / length_squared)
    } else {
        -floor_sqrt((x * x) / length_squared)
    }
}

fn force_along(d: i64, penetration: i64, length_squared: i128) -> (r: i64)
    requires
        -i64::MAX <= d * penetration <= i64::MAX,
    ensures
        r == force_component(d as int, penetration as int, length_squared as int),
        length_squared == 1 ==> r == d * penetration,
{
    let x: i128 = wide_mul(d, penetration);
    if length_squared <= 0 {
        0
    } else if x >= 0 {
        scaled_down(x as i64, length_squared)
    } else {
        proof {
            assert((-x) * (-x) == x * x) by (nonlinear_arith);
        }
        -scaled_down((-x) as i64, length_squared)
    }
}

impl CollisionResolution<Vector2> {
    /// `length_squared` is the squared length of `direction`.
    pub open spec fn wf(&self) -> bool {
        self.length_squared == self.direction@.norm_sq()
    }

    /// The direction is the unit normal of the contact.
    pub open spec fn is_unit(&self) -> bool {
        self.wf() && self.length_squared == 1
    }

    /// The contact of the given depth whose normal points along `v`.
    pub open spec fn spec_along(v: V2, penetration: int) -> Self {
        CollisionResolution {
            direction: Vector2 { x: v.direction().x as i64, y: v.direction().y as i64 },
            length_squared: v.direction().norm_sq() as i128,
            penetration: penetration as i64,
        }
    }

    /// The same contact seen from the other shape.
    pub open spec fn flipped(self) -> Self {
        CollisionResolution {
            direction: Vector2 { x: (-self.direction.x) as i64, y: (-self.direction.y) as i64 },
            length_squared: self.length_squared,
            penetration: self.penetration,
        }
    }

    /// The contact of the given depth whose normal points along `v`: its
    /// direction is the unit normal where `v` runs along a coordinate axis,
    /// and `v` itself otherwise.
    pub fn along(v: &Vector2, penetration: i64) -> (r: Self)
        requires
            v@.within(DOT_MAX as int),
        ensures
            r == Self::spec_along(v@, penetration as int),
            r.direction@ == v@.direction(),
            r.penetration == penetration,
            r.wf(),
            v@.is_axial() ==> r.is_unit(),
    {
        proof {
            lemma_direction2(v@);
        }
        let direction = v.to_direction();
        let length_squared: i128 = direction.magnitude_squared();
        CollisionResolution { direction, length_squared, penetration }
    }

    /// The force that undoes the contact: a vector along the normal of the
    /// length of the penetration. It is exact for a unit direction; otherwise
    /// the magnitude of each component is rounded down to a whole unit.
    pub fn total_force(&self) -> (r: Vector2)
        requires
            -i64::MAX <= self.direction.x * self.penetration <= i64::MAX,
            -i64::MAX <= self.direction.y * self.penetration <= i64::MAX,
        ensures
            r.x == force_component(
                self.direction.x as int,
                self.penetration as int,
                self.length_squared as int,
            ),
            r.y == force_component(
                self.direction.y as int,
                self.penetration as int,
                self.length_squared as int,
            ),
            self.length_squared == 1 ==> r@ == self.direction@.scale(self.penetration as int),
    {
        Vector2 {
            x: force_along(self.direction.x, self.penetration, self.length_squared),
            y: force_along(self.direction.y, self.penetration, self.length_squared),
        }
    }

    /// The same contact seen from the other shape: the direction is reversed,
    /// its length and the penetration are kept.
    pub fn flip(&self) -> (r: Self)
        requires
            self.direction.x > i64::MIN,
            self.direction.y > i64::MIN,
        ensures
            r == self.flipped(),
            r.direction@ == self.direction@.neg(),
            r.length_squared == self.length_squared,
            r.penetration == self.penetration,
    {
        CollisionResolution {
            direction: self.direction.negated(),
            length_squared: self.length_squared,
            penetration: self.penetration,
        }
    }
}

impl CollisionResolution<Vector3> {
    /// `length_squared` is the squared length of `direction`.
    pub open spec fn wf(&self) -> bool {
        self.length_squared == self.direction@.norm_sq()
    }

    /// The direction is the unit normal of the contact.
    pub open spec fn is_unit(&self) -> bool {
        self.wf() && self.length_squared == 1
    }

    /// The contact of the given depth whose normal points along `v`.
    pub open spec fn spec_along(v: V3, penetration: int) -> Self {
        CollisionResolution {
            direction: Vector3 {
                x: v.direction().x as i64,
                y: v.direction().y as i64,
                z: v.direction().z as i64,
            },
            length_squared: v.direction().norm_sq() as i128,
            penetration: penetration as i64,
        }
    }

    /// The same contact seen from the other shape.
    pub open spec fn flipped(self) -> Self {
        CollisionResolution {
            direction: Vector3 {
                x: (-self.direction.x) as i64,
                y: (-self.direction.y) as i64,
                z: (-self.direction.z) as i64,
            },
            length_squared: self.length_squared,
            penetration: self.penetration,
        }
    }

    /// The contact of the given depth whose normal points along `v`: its
    /// direction is the unit normal where `v` runs along a coordinate axis,
    /// and `v` itself otherwise.
    pub fn along(v: &Vector3, penetration: i64) -> (r: Self)
        requires
            v@.within(DOT_MAX as int),
        ensures
            r == Self::spec_along(v@, penetration as int),
            r.direction@ == v@.direction(),
            r.penetration == penetration,
            r.wf(),
            v@.is_axial() ==> r.is_unit(),
    {
        proof {
            lemma_direction3(v@);
        }
        let direction = v.to_direction();
        let length_squared: i128 = direction.magnitude_squared();
        CollisionResolution { direction, length_squared, penetration }
    }

    /// The contact of the given depth whose normal points along `normal`.
    pub fn new(normal: &Vector3, penetration: i64) -> (r: Self)
        requires
            normal@.within(DOT_MAX as int),
        ensures
            r == Self::spec_along(normal@, penetration as int),
            r.wf(),
    {
        Self::along(normal, penetration)
    }

    /// The force that undoes the contact: a vector along the normal of the
    /// length of the penetration. It is exact for a unit direction; otherwise
    /// the magnitude of each component is rounded down to a whole unit.
    pub fn total_force(&self) -> (r: Vector3)
        requires
            -i64::MAX <= self.direction.x * self.penetration <= i64::MAX,
            -i64::MAX <= self.direction.y * self.penetration <= i64::MAX,
            -i64::MAX <= self.direction.z * self.penetration <= i64::MAX,
        ensures
            r.x == force_component(
                self.direction.x as int,
                self.penetration as int,
                self.length_squared as int,
            ),
            r.y == force_component(
                self.direction.y as int,
                self.penetration as int,
                self.length_squared as int,
            ),
            r.z == force_component(
                self.direction.z as int,
                self.penetration as int,
                self.length_squared as int,
            ),
            self.length_squared == 1 ==> r@ == self.direction@.scale(self.penetration as int),
    {
        Vector3 {
            x: force_along(self.direction.x, self.penetration, self.length_squared),
            y: force_along(self.direction.y, self.penetration, self.length_squared),
            z: force_along(self.direction.z, self.penetration, self.length_squared),
        }
    }

    /// The same contact seen from the other shape: the direction is reversed,
    /// its length and the penetration are kept.
    pub fn flip(&self) -> (r: Self)
        requires
            self.direction.x > i64::MIN,
            self.direction.y > i64::MIN,
            self.direction.z > i64::MIN,
        ensures
            r == self.flipped(),
            r.direction@ == self.direction@.neg(),
            r.length_squared == self.length_squared,
            r.penetration == self.penetration,
    {
        CollisionResolution {
            direction: self.direction.negated(),
            length_squared: self.length_squared,
            penetration: self.penetration,
        }
    }
}

} // verus!

//! Shapes of space and the capability that they share.
pub mod aabb;
pub mod capsule;
pub mod cylinder;
pub mod plane;
pub mod ray;
pub mod sphere;
pub mod triangle;

use vstd::prelude::*;
use crate::vector::{Vector3, V3};
pub use aabb::AxisAlignedBoundingBox;
pub use capsule::Capsule;
pub use cylinder::{Cylinder, CylinderShape};
pub use plane::Plane;
pub use ray::Ray;
pub use sphere::Sphere;
pub use triangle::Triangle;

verus! {

/// A coordinate axis.
#[derive(Clone, Copy, Debug, PartialEq, Eq, Structural)]
pub enum Axis {
    X,
    Y,
    Z,
}

impl Axis {
    /// 0 for x, 1 for y, 2 for z.
    pub open spec fn index(self) -> int {
        match self {
            Axis::X => 0,
            Axis::Y => 1,
            Axis::Z => 2,
        }
    }
}

/// Points that a query constructs (a contact point on a capsule's axis, say)
/// may leave the world cube, but stay within this bound.
pub const REACH_MAX: i64 = 800_000;

/// What every shape of space offers: bounding volumes, a reference point, and
/// moving the shape by an offset or to a new reference point.
pub trait Shape3D: Sized {
    /// The shape is well formed and, unless it is unbounded, lies inside the
    /// range of the lattice (a box, a sphere, a cylinder) or inside the world
    /// cube (a triangle, a capsule).
    spec fn valid(&self) -> bool;

    spec fn spec_bounding_aabb(&self) -> AxisAlignedBoundingBox;

    spec fn spec_bounding_sphere(&self) -> Sphere;

    spec fn spec_center(&self) -> V3;

    /// The shape has no bounds, so that it has no center of its own and
    /// stays where it is when asked to move.
    spec fn is_unbounded(&self) -> bool;

    /// The shape can be moved by `offset`: its coordinates stay scalars.
    spec fn can_translate(&self, offset: V3) -> bool;

    /// The shape moved by `offset`.
    spec fn translated(&self, offset: V3) -> Self;

    /// Moving the reference point to `point` keeps the shape valid.
    spec fn can_recenter(&self, point: V3) -> bool;

    /// The shape with its reference point moved to `point`.
    spec fn recentered(&self, point: V3) -> Self;

    /// The smallest axis-aligned box around the shape; for an unbounded shape
    /// the box of all scalars.
    fn bounding_aabb(&self) -> (r: AxisAlignedBoundingBox)
        requires
            self.valid(),
        ensures
            r == self.spec_bounding_aabb(),
    ;

    /// A sphere around the shape, not necessarily the smallest.
    fn bounding_sphere(&self) -> (r: Sphere)
        requires
            self.valid(),
        ensures
            r == self.spec_bounding_sphere(),
    ;

    /// The reference point of the shape.
    fn center(&self) -> (r: Vector3)
        requires
            self.valid(),
        ensures
            r@ == self.spec_center(),
    ;

    /// A copy of the shape moved by `point`: every coordinate is offset by
    /// `point`, whatever the shape and the offset.
    fn translate(&self, point: &Vector3) -> (r: Self)
        requires
            self.can_translate(point@),
        ensures
            r == self.translated(point@),
    ;

    /// A copy of the shape with its reference point at `point`.
    fn set_center(&self, point: &Vector3) -> (r: Self)
        requires
            self.valid(),
            self.can_recenter(point@),
        ensures
            r == self.recentered(point@),
            r.valid(),
    ;

    /// Moves the shape by `point`, as `translate` does.
    fn translate_mut(&mut self, point: &Vector3)
        requires
            old(self).can_translate(point@),
        ensures
            *final(self) == old(self).translated(point@),
    ;

    /// Moves the reference point of the shape to `point`.
    fn set_center_mut(&mut self, point: &Vector3)
        requires
            old(self).valid(),
            old(self).can_recenter(point@),
        ensures
            *final(self) == old(self).recentered(point@),
            final(self).valid(),
    ;

    /// Moving a bounded shape moves its center along; an unbounded shape
    /// stays as it is.
    proof fn lemma_translate_moves_center(&self, offset: V3)
        requires
            self.can_translate(offset),
        ensures
            !self.is_unbounded() ==> self.translated(offset).spec_center() == self.spec_center().add(
                offset,
            ),
            self.is_unbounded() ==> self.translated(offset) == *self,
    ;

    /// A bounded shape moved to a new reference point has its center there;
    /// an unbounded shape stays as it is.
    proof fn lemma_recenter_sets_center(&self, point: V3)
        requires
            self.valid(),
            self.can_recenter(point),
        ensures
            !self.is_unbounded() ==> self.recentered(point).spec_center() == point,
            self.is_unbounded() ==> self.recentered(point) == *self,
    ;

    /// Moving a shape by the zero vector is always possible and leaves every
    /// coordinate as it was.
    proof fn lemma_translate_zero(&self)
        ensures
            self.can_translate(V3 { x: 0, y: 0, z: 0 }),
            self.translated(V3 { x: 0, y: 0, z: 0 }) == *self,
    ;
}

} // verus!

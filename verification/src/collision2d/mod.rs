//! Shapes of the plane and the capability that they share.
pub mod aabb;
pub mod circle;

use vstd::prelude::*;
use crate::vector::{Vector2, V2};
pub use aabb::AxisAlignedBoundingBox;
pub use circle::Circle;

verus! {

/// What every shape of the plane offers: bounding volumes, a reference point,
/// and moving the shape by an offset or to a new reference point.
pub trait Shape2D: Sized {
    /// The shape is well formed and lies inside the range of the lattice.
    spec fn valid(&self) -> bool;

    spec fn spec_bounding_aabb(&self) -> AxisAlignedBoundingBox;

    spec fn spec_bounding_sphere(&self) -> Circle;

    spec fn spec_center(&self) -> V2;

    /// The shape can be moved by `offset`: its coordinates stay scalars.
    spec fn can_translate(&self, offset: V2) -> bool;

    /// The shape moved by `offset`.
    spec fn translated(&self, offset: V2) -> Self;

    /// Moving the reference point to `point` keeps the shape inside the range
    /// of the lattice.
    spec fn can_recenter(&self, point: V2) -> bool;

    /// The shape with its reference point moved to `point`.
    spec fn recentered(&self, point: V2) -> Self;

    /// The smallest axis-aligned box around the shape.
    fn bounding_aabb(&self) -> (r: AxisAlignedBoundingBox)
        requires
            self.valid(),
        ensures
            r == self.spec_bounding_aabb(),
    ;

    /// A circle around the shape, not necessarily the smallest.
    fn bounding_sphere(&self) -> (r: Circle)
        requires
            self.valid(),
        ensures
            r == self.spec_bounding_sphere(),
    ;

    /// The reference point of the shape.
    fn center(&self) -> (r: Vector2)
        requires
            self.valid(),
        ensures
            r@ == self.spec_center(),
    ;

    /// A copy of the shape moved by `point`: every coordinate is offset by
    /// `point`, whatever the shape and the offset.
    fn translate(&self, point: &Vector2) -> (r: Self)
        requires
            self.can_translate(point@),
        ensures
            r == self.translated(point@),
    ;

    /// A copy of the shape with its reference point at `point`.
    fn set_center(&self, point: &Vector2) -> (r: Self)
        requires
            self.valid(),
            self.can_recenter(point@),
        ensures
            r == self.recentered(point@),
            r.valid(),
    ;

    /// Moves the shape by `point`, as `translate` does.
    fn translate_mut(&mut self, point: &Vector2)
        requires
            old(self).can_translate(point@),
        ensures
            *final(self) == old(self).translated(point@),
    ;

    /// Moves the reference point of the shape to `point`.
    fn set_center_mut(&mut self, point: &Vector2)
        requires
            old(self).valid(),
            old(self).can_recenter(point@),
        ensures
            *final(self) == old(self).recentered(point@),
            final(self).valid(),
    ;

    /// Moving a shape moves its center along.
    proof fn lemma_translate_moves_center(&self, offset: V2)
        requires
            self.can_translate(offset),
        ensures
            self.translated(offset).spec_center() == self.spec_center().add(offset),
    ;

    /// A shape moved to a new reference point has its center there.
    proof fn lemma_recenter_sets_center(&self, point: V2)
        requires
            self.valid(),
            self.can_recenter(point),
        ensures
            self.recentered(point).spec_center() == point,
    ;

    /// Moving a shape by the zero vector is always possible and leaves every
    /// coordinate as it was.
    proof fn lemma_translate_zero(&self)
        ensures
            self.can_translate(V2 { x: 0, y: 0 }),
            self.translated(V2 { x: 0, y: 0 }) == *self,
    ;
}

} // verus!

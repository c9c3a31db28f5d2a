//! Lattice vectors in two and three dimensions, and the integer vectors that
//! model them in contracts.
use vstd::prelude::*;
use crate::scalar::{
    lemma_product_bound, lemma_square_bound, n_abs, spec_abs, spec_sign, COORD_MAX, RANGE_MAX,
};

verus! {

/// A mathematical vector of two integers: the model of a [`Vector2`].
pub struct V2 {
    pub x: int,
    pub y: int,
}

/// A mathematical vector of three integers: the model of a [`Vector3`].
pub struct V3 {
    pub x: int,
    pub y: int,
    pub z: int,
}

impl V2 {
    pub open spec fn add(self, other: V2) -> V2 {
        V2 { x: self.x + other.x, y: self.y + other.y }
    }

    pub open spec fn sub(self, other: V2) -> V2 {
        V2 { x: self.x - other.x, y: self.y - other.y }
    }

    pub open spec fn neg(self) -> V2 {
        V2 { x: -self.x, y: -self.y }
    }

    pub open spec fn scale(self, k: int) -> V2 {
        V2 { x: self.x * k, y: self.y * k }
    }

    pub open spec fn abs(self) -> V2 {
        V2 { x: spec_abs(self.x), y: spec_abs(self.y) }
    }

    pub open spec fn dot(self, other: V2) -> int {
        self.x * other.x + self.y * other.y
    }

    pub open spec fn norm_sq(self) -> int {
        self.dot(self)
    }

    /// Every component lies in `-bound ..= bound`.
    pub open spec fn within(self, bound: int) -> bool {
        -bound <= self.x <= bound && -bound <= self.y <= bound
    }

    /// The component on axis `index` (0 for x, anything else for y).
    pub open spec fn at(self, index: int) -> int {
        if index == 0 {
            self.x
        } else {
            self.y
        }
    }

    /// The index of the least component, the first one on a tie.
    pub open spec fn min_index(self) -> int {
        if self.y < self.x {
            1
        } else {
            0
        }
    }

    /// The index of the greatest component; among equal ones the last.
    pub open spec fn max_index(self) -> int {
        if self.y >= self.x {
            1
        } else {
            0
        }
    }

    /// The vector runs along a coordinate axis: one component alone is not
    /// zero.
    pub open spec fn is_axial(self) -> bool {
        (self.y == 0 && self.x != 0) || (self.x == 0 && self.y != 0)
    }

    /// The direction of the vector, as short as the lattice can hold it: the
    /// unit vector of the axis for a vector along a coordinate axis, which is
    /// then of unit length; any other vector itself.
    pub open spec fn direction(self) -> V2 {
        if self.y == 0 && self.x != 0 {
            V2 { x: spec_sign(self.x), y: 0 }
        } else if self.x == 0 && self.y != 0 {
            V2 { x: 0, y: spec_sign(self.y) }
        } else {
            self
        }
    }

    /// The vector that is `value` on axis `index` and zero elsewhere.
    pub open spec fn axis(index: int, value: int) -> V2 {
        if index == 0 {
            V2 { x: value, y: 0 }
        } else {
            V2 { x: 0, y: value }
        }
    }
}

impl V3 {
    pub open spec fn add(self, other: V3) -> V3 {
        V3 { x: self.x + other.x, y: self.y + other.y, z: self.z + other.z }
    }

    pub open spec fn sub(self, other: V3) -> V3 {
        V3 { x: self.x - other.x, y: self.y - other.y, z: self.z - other.z }
    }

    pub open spec fn neg(self) -> V3 {
        V3 { x: -self.x, y: -self.y, z: -self.z }
    }

    pub open spec fn scale(self, k: int) -> V3 {
        V3 { x: self.x * k, y: self.y * k, z: self.z * k }
    }

    pub open spec fn abs(self) -> V3 {
        V3 { x: spec_abs(self.x), y: spec_abs(self.y), z: spec_abs(self.z) }
    }

    pub open spec fn dot(self, other: V3) -> int {
        self.x * other.x + self.y * other.y + self.z * other.z
    }

    pub open spec fn cross(self, other: V3) -> V3 {
        V3 {
            x: self.y * other.z - self.z * other.y,
            y: self.z * other.x - self.x * other.z,
            z: self.x * other.y - self.y * other.x,
        }
    }

    pub open spec fn norm_sq(self) -> int {
        self.dot(self)
    }

    /// Every component lies in `-bound ..= bound`.
    pub open spec fn within(self, bound: int) -> bool {
        &&& -bound <= self.x <= bound
        &&& -bound <= self.y <= bound
        &&& -bound <= self.z <= bound
    }

    /// The component on axis `index` (0 for x, 1 for y, anything else for z).
    pub open spec fn at(self, index: int) -> int {
        if index == 0 {
            self.x
        } else if index == 1 {
            self.y
        } else {
            self.z
        }
    }

    /// The index of the least component, the first one on a tie.
    pub open spec fn min_index(self) -> int {
        if self.y < self.x {
            if self.z < self.y {
                2
            } else {
                1
            }
        } else if self.z < self.x {
            2
        } else {
            0
        }
    }

    /// The index of the greatest component; among equal ones the last.
    pub open spec fn max_index(self) -> int {
        if self.y >= self.x {
            if self.z >= self.y {
                2
            } else {
                1
            }
        } else if self.z >= self.x {
            2
        } else {
            0
        }
    }

    /// The vector runs along a coordinate axis: one component alone is not
    /// zero.
    pub open spec fn is_axial(self) -> bool {
        ||| self.y == 0 && self.z == 0 && self.x != 0
        ||| self.x == 0 && self.z == 0 && self.y != 0
        ||| self.x == 0 && self.y == 0 && self.z != 0
    }

    /// The direction of the vector, as short as the lattice can hold it: the
    /// unit vector of the axis for a vector along a coordinate axis, which is
    /// then of unit length; any other vector itself.
    pub open spec fn direction(self) -> V3 {
        if self.y == 0 && self.z == 0 && self.x != 0 {
            V3 { x: spec_sign(self.x), y: 0, z: 0 }
        } else if self.x == 0 && self.z == 0 && self.y != 0 {
            V3 { x: 0, y: spec_sign(self.y), z: 0 }
        } else if self.x == 0 && self.y == 0 && self.z != 0 {
            V3 { x: 0, y: 0, z: spec_sign(self.z) }
        } else {
            self
        }
    }

    /// The vector that is `value` on axis `index` and zero elsewhere.
    pub open spec fn axis(index: int, value: int) -> V3 {
        if index == 0 {
            V3 { x: value, y: 0, z: 0 }
        } else if index == 1 {
            V3 { x: 0, y: value, z: 0 }
        } else {
            V3 { x: 0, y: 0, z: value }
        }
    }
}

/// The direction of a vector along a coordinate axis has unit length, and
/// the direction of the opposite vector is the opposite direction, of the
/// same length.
pub proof fn lemma_direction2(v: V2)
    ensures
        v.is_axial() ==> v.direction().norm_sq() == 1,
        v.neg().direction() == v.direction().neg(),
        v.neg().direction().norm_sq() == v.direction().norm_sq(),
{
    let d = v.direction();
    assert(v.is_axial() ==> d.x * d.x + d.y * d.y == 1) by (nonlinear_arith)
        requires
            v.is_axial() ==> (d.x == 1 || d.x == -1) && d.y == 0 || (d.y == 1 || d.y == -1) && d.x
                == 0,
    ;
    assert((-d.x) * (-d.x) + (-d.y) * (-d.y) == d.x * d.x + d.y * d.y) by (nonlinear_arith);
}

/// The direction of a vector along a coordinate axis has unit length, and
/// the direction of the opposite vector is the opposite direction, of the
/// same length.
pub proof fn lemma_direction3(v: V3)
    ensures
        v.is_axial() ==> v.direction().norm_sq() == 1,
        v.neg().direction() == v.direction().neg(),
        v.neg().direction().norm_sq() == v.direction().norm_sq(),
{
    let d = v.direction();
    assert(v.is_axial() ==> d.x * d.x + d.y * d.y + d.z * d.z == 1) by (nonlinear_arith)
        requires
            v.is_axial() ==> {
                ||| (d.x == 1 || d.x == -1) && d.y == 0 && d.z == 0
                ||| (d.y == 1 || d.y == -1) && d.x == 0 && d.z == 0
                ||| (d.z == 1 || d.z == -1) && d.x == 0 && d.y == 0
            },
    ;
    assert((-d.x) * (-d.x) + (-d.y) * (-d.y) + (-d.z) * (-d.z) == d.x * d.x + d.y * d.y + d.z
        * d.z) by (nonlinear_arith);
}

/// The squared length of a bounded vector is bounded.
pub proof fn lemma_norm_sq_bound2(v: V2, m: int)
    requires
        v.within(m),
    ensures
        0 <= v.norm_sq() <= 2 * (m * m),
{
    lemma_square_bound(v.x, m);
    lemma_square_bound(v.y, m);
}

/// The squared length of a bounded vector is bounded.
pub proof fn lemma_norm_sq_bound3(v: V3, m: int)
    requires
        v.within(m),
    ensures
        0 <= v.norm_sq() <= 3 * (m * m),
{
    lemma_square_bound(v.x, m);
    lemma_square_bound(v.y, m);
    lemma_square_bound(v.z, m);
}

/// The dot product of two bounded vectors is bounded.
pub proof fn lemma_dot_bound3(a: V3, b: V3, ma: int, mb: int)
    requires
        a.within(ma),
        b.within(mb),
    ensures
        -3 * (ma * mb) <= a.dot(b) <= 3 * (ma * mb),
{
    lemma_product_bound(a.x, b.x, ma, mb);
    lemma_product_bound(a.y, b.y, ma, mb);
    lemma_product_bound(a.z, b.z, ma, mb);
}

/// Each component of the cross product of two bounded vectors is bounded.
pub proof fn lemma_cross_bound(a: V3, b: V3, ma: int, mb: int)
    requires
        a.within(ma),
        b.within(mb),
    ensures
        a.cross(b).within(2 * (ma * mb)),
{
    lemma_product_bound(a.y, b.z, ma, mb);
    lemma_product_bound(a.z, b.y, ma, mb);
    lemma_product_bound(a.z, b.x, ma, mb);
    lemma_product_bound(a.x, b.z, ma, mb);
    lemma_product_bound(a.x, b.y, ma, mb);
    lemma_product_bound(a.y, b.x, ma, mb);
}

proof fn lemma_expand_product(a1: int, a2: int, a3: int, b1: int, b2: int, b3: int)
    by (nonlinear_arith)
    ensures
        (a1 + a2 + a3) * (b1 + b2 + b3) == a1 * b1 + a1 * b2 + a1 * b3 + a2 * b1 + a2 * b2 + a2
            * b3 + a3 * b1 + a3 * b2 + a3 * b3,
{
}

proof fn lemma_expand_square(p: int, q: int, r: int)
    by (nonlinear_arith)
    ensures
        (p + q + r) * (p + q + r) == p * p + q * q + r * r + 2 * (p * q) + 2 * (p * r) + 2 * (q
            * r),
{
}

proof fn lemma_expand_difference(p: int, q: int)
    by (nonlinear_arith)
    ensures
        (p - q) * (p - q) == p * p + q * q - 2 * (p * q),
        (p - q) * (p - q) >= 0,
{
}

proof fn lemma_regroup(a: int, b: int, c: int, d: int)
    by (nonlinear_arith)
    ensures
        (a * a) * (b * b) == (a * b) * (a * b),
        (a * b) * (c * d) == (a * d) * (c * b),
{
}

/// Lagrange's identity: the squared lengths of two vectors, multiplied, are
/// the square of their dot product plus the squared length of their cross
/// product. The dot product is therefore bounded by the lengths.
pub proof fn lemma_lagrange(a: V3, b: V3)
    ensures
        a.norm_sq() * b.norm_sq() == a.dot(b) * a.dot(b) + a.cross(b).norm_sq(),
        a.cross(b).norm_sq() >= 0,
        a.dot(b) * a.dot(b) <= a.norm_sq() * b.norm_sq(),
{
    lemma_expand_product(a.x * a.x, a.y * a.y, a.z * a.z, b.x * b.x, b.y * b.y, b.z * b.z);
    lemma_expand_square(a.x * b.x, a.y * b.y, a.z * b.z);
    lemma_expand_difference(a.y * b.z, a.z * b.y);
    lemma_expand_difference(a.z * b.x, a.x * b.z);
    lemma_expand_difference(a.x * b.y, a.y * b.x);
    lemma_regroup(a.x, b.x, a.x, b.x);
    lemma_regroup(a.x, b.y, a.x, b.y);
    lemma_regroup(a.x, b.z, a.x, b.z);
    lemma_regroup(a.y, b.x, a.y, b.x);
    lemma_regroup(a.y, b.y, a.y, b.y);
    lemma_regroup(a.y, b.z, a.y, b.z);
    lemma_regroup(a.z, b.x, a.z, b.x);
    lemma_regroup(a.z, b.y, a.z, b.y);
    lemma_regroup(a.z, b.z, a.z, b.z);
    lemma_regroup(a.x, b.x, a.y, b.y);
    lemma_regroup(a.x, b.x, a.z, b.z);
    lemma_regroup(a.y, b.y, a.z, b.z);
    lemma_regroup(a.y, b.z, a.z, b.y);
    lemma_regroup(a.z, b.x, a.x, b.z);
    lemma_regroup(a.x, b.y, a.y, b.x);
}

proof fn lemma_triple(p: int, q: int, r: int)
    by (nonlinear_arith)
    ensures
        p * (q * r) == q * (p * r),
        p * (q * r) == r * (p * q),
        p * (q * r) == q * (r * p),
        p * (q * r) == r * (q * p),
{
}

proof fn lemma_spread(p: int, q: int, r: int)
    by (nonlinear_arith)
    ensures
        p * (q - r) == p * q - p * r,
{
}

/// The cross product of two vectors is at right angles to both.
pub proof fn lemma_cross_is_orthogonal(a: V3, b: V3)
    ensures
        a.dot(a.cross(b)) == 0,
        b.dot(a.cross(b)) == 0,
{
    lemma_spread(a.x, a.y * b.z, a.z * b.y);
    lemma_spread(a.y, a.z * b.x, a.x * b.z);
    lemma_spread(a.z, a.x * b.y, a.y * b.x);
    lemma_spread(b.x, a.y * b.z, a.z * b.y);
    lemma_spread(b.y, a.z * b.x, a.x * b.z);
    lemma_spread(b.z, a.x * b.y, a.y * b.x);
    lemma_triple(a.x, a.y, b.z);
    lemma_triple(a.x, a.z, b.y);
    lemma_triple(a.y, a.z, b.x);
    lemma_triple(a.y, a.x, b.z);
    lemma_triple(a.z, a.x, b.y);
    lemma_triple(a.z, a.y, b.x);
    lemma_triple(b.x, a.y, b.z);
    lemma_triple(b.x, a.z, b.y);
    lemma_triple(b.y, a.z, b.x);
    lemma_triple(b.y, a.x, b.z);
    lemma_triple(b.z, a.x, b.y);
    lemma_triple(b.z, a.y, b.x);
}

/// A point or direction of the plane with lattice coordinates.
#[derive(Clone, Copy, Debug, PartialEq, Eq, Structural)]
pub struct Vector2 {
    pub x: i64,
    pub y: i64,
}

/// A point or direction of space with lattice coordinates.
#[derive(Clone, Copy, Debug, PartialEq, Eq, Structural)]
pub struct Vector3 {
    pub x: i64,
    pub y: i64,
    pub z: i64,
}

impl View for Vector2 {
    type V = V2;

    open spec fn view(&self) -> V2 {
        V2 { x: self.x as int, y: self.y as int }
    }
}

impl View for Vector3 {
    type V = V3;

    open spec fn view(&self) -> V3 {
        V3 { x: self.x as int, y: self.y as int, z: self.z as int }
    }
}

/// The largest component magnitude for which `Vector3::dot` is defined: the
/// three products and their sums then fit in 128 bits.
pub const DOT_MAX: i64 = 0x4000_0000_0000_0000;

/// The largest component magnitude for which `Vector3::cross` is defined: the
/// products and their differences then fit in 64 bits.
pub const CROSS_MAX: i64 = 0x4000_0000;

/// `v` fits in an `i64`.
pub open spec fn fits_i64(v: int) -> bool {
    i64::MIN <= v <= i64::MAX
}

/// The dot product through nalgebra's `Matrix::dot`, which for a
/// three-dimensional vector multiplies the components pairwise and adds the
/// three products from left to right. The components are widened to 128 bits
/// first; the bound keeps every product and sum in range.
#[verifier::external_body]
fn lattice_dot(a: &Vector3, b: &Vector3) -> (r: i128)
    requires
        a@.within(DOT_MAX as int),
        b@.within(DOT_MAX as int),
    ensures
        r == a@.dot(b@),
{
    let u = nalgebra::Vector3::new(a.x as i128, a.y as i128, a.z as i128);
    let v = nalgebra::Vector3::new(b.x as i128, b.y as i128, b.z as i128);
    u.dot(&v)
}

/// The cross product through nalgebra's `Matrix::cross`, which for two
/// three-dimensional column vectors computes each component as a difference
/// of two products. The bound keeps every product and difference in range.
#[verifier::external_body]
fn lattice_cross(a: &Vector3, b: &Vector3) -> (r: Vector3)
    requires
        a@.within(CROSS_MAX as int),
        b@.within(CROSS_MAX as int),
    ensures
        r@ == a@.cross(b@),
{
    let u = nalgebra::Vector3::new(a.x, a.y, a.z);
    let v = nalgebra::Vector3::new(b.x, b.y, b.z);
    let w = u.cross(&v);
    Vector3 { x: w.x, y: w.y, z: w.z }
}

impl Vector2 {
    /// Both coordinates lie inside the world square.
    pub open spec fn in_world(&self) -> bool {
        self@.within(COORD_MAX as int)
    }

    /// Both coordinates lie inside the range of the lattice.
    pub open spec fn in_range(&self) -> bool {
        self@.within(RANGE_MAX as int)
    }

    /// Whether both coordinates lie inside the range of the lattice.
    pub fn is_in_range(&self) -> (r: bool)
        ensures
            r == self.in_range(),
    {
        -RANGE_MAX <= self.x && self.x <= RANGE_MAX && -RANGE_MAX <= self.y && self.y
            <= RANGE_MAX
    }

    pub fn new(x: i64, y: i64) -> (r: Vector2)
        ensures
            r.x == x,
            r.y == y,
    {
        Vector2 { x, y }
    }

    /// The vector whose components are all `value`.
    pub fn from_element(value: i64) -> (r: Vector2)
        ensures
            r.x == value,
            r.y == value,
    {
        Vector2 { x: value, y: value }
    }

    pub fn zeros() -> (r: Vector2)
        ensures
            r.x == 0,
            r.y == 0,
    {
        Vector2 { x: 0, y: 0 }
    }

    /// Whether both coordinates lie inside the world square.
    pub fn is_in_world(&self) -> (r: bool)
        ensures
            r == self.in_world(),
    {
        -COORD_MAX <= self.x && self.x <= COORD_MAX && -COORD_MAX <= self.y && self.y
            <= COORD_MAX
    }

    /// The component-wise sum.
    pub fn plus(&self, other: &Vector2) -> (r: Vector2)
        requires
            fits_i64(self.x + other.x),
            fits_i64(self.y + other.y),
        ensures
            r@ == self@.add(other@),
    {
        Vector2 { x: self.x + other.x, y: self.y + other.y }
    }

    /// The component-wise difference.
    pub fn minus(&self, other: &Vector2) -> (r: Vector2)
        requires
            fits_i64(self.x - other.x),
            fits_i64(self.y - other.y),
        ensures
            r@ == self@.sub(other@),
    {
        Vector2 { x: self.x - other.x, y: self.y - other.y }
    }

    /// The opposite vector.
    pub fn negated(&self) -> (r: Vector2)
        requires
            self.x > i64::MIN,
            self.y > i64::MIN,
        ensures
            r@ == self@.neg(),
    {
        Vector2 { x: -self.x, y: -self.y }
    }

    /// Every component multiplied by `k`.
    pub fn scaled(&self, k: i64) -> (r: Vector2)
        requires
            fits_i64(self.x * k),
            fits_i64(self.y * k),
        ensures
            r@ == self@.scale(k as int),
    {
        Vector2 { x: self.x * k, y: self.y * k }
    }

    /// The component-wise absolute value.
    pub fn abs(&self) -> (r: Vector2)
        requires
            self.x > i64::MIN,
            self.y > i64::MIN,
        ensures
            r@ == self@.abs(),
    {
        Vector2 { x: n_abs(self.x), y: n_abs(self.y) }
    }

    /// The dot product.
    pub fn dot(&self, other: &Vector2) -> (r: i128)
        requires
            self@.within(DOT_MAX as int),
            other@.within(DOT_MAX as int),
        ensures
            r == self@.dot(other@),
    {
        let a = Vector3 { x: self.x, y: self.y, z: 0 };
        let b = Vector3 { x: other.x, y: other.y, z: 0 };
        lattice_dot(&a, &b)
    }

    /// The squared length.
    pub fn magnitude_squared(&self) -> (r: i128)
        requires
            self@.within(DOT_MAX as int),
        ensures
            r == self@.norm_sq(),
    {
        self.dot(self)
    }

    /// The direction of the vector, as short as the lattice can hold it: of
    /// unit length for a vector along a coordinate axis, the vector itself
    /// otherwise.
    pub fn to_direction(&self) -> (r: Vector2)
        ensures
            r@ == self@.direction(),
    {
        if self.y == 0 && self.x != 0 {
            Vector2 { x: if self.x < 0 { -1 } else { 1 }, y: 0 }
        } else if self.x == 0 && self.y != 0 {
            Vector2 { x: 0, y: if self.y < 0 { -1 } else { 1 } }
        } else {
            *self
        }
    }

    /// The least component with its index; the first one on a tie.
    pub fn min_component(&self) -> (r: (usize, i64))
        ensures
            r.0 == self@.min_index(),
            r.1 == self@.at(r.0 as int),
            r.1 <= self.x && r.1 <= self.y,
    {
        if self.y < self.x {
            (1, self.y)
        } else {
            (0, self.x)
        }
    }

    /// The greatest component with its index; among equal ones the last.
    pub fn max_component(&self) -> (r: (usize, i64))
        ensures
            r.0 == self@.max_index(),
            r.1 == self@.at(r.0 as int),
            r.1 >= self.x && r.1 >= self.y,
    {
        if self.y >= self.x {
            (1, self.y)
        } else {
            (0, self.x)
        }
    }
}

impl Vector3 {
    /// All three coordinates lie inside the world cube.
    pub open spec fn in_world(&self) -> bool {
        self@.within(COORD_MAX as int)
    }

    /// All three coordinates lie inside the range of the lattice.
    pub open spec fn in_range(&self) -> bool {
        self@.within(RANGE_MAX as int)
    }

    /// Whether all three coordinates lie inside the range of the lattice.
    pub fn is_in_range(&self) -> (r: bool)
        ensures
            r == self.in_range(),
    {
        -RANGE_MAX <= self.x && self.x <= RANGE_MAX && -RANGE_MAX <= self.y && self.y
            <= RANGE_MAX && -RANGE_MAX <= self.z && self.z <= RANGE_MAX
    }

    pub fn new(x: i64, y: i64, z: i64) -> (r: Vector3)
        ensures
            r.x == x,
            r.y == y,
            r.z == z,
    {
        Vector3 { x, y, z }
    }

    /// The vector whose components are all `value`.
    pub fn from_element(value: i64) -> (r: Vector3)
        ensures
            r.x == value,
            r.y == value,
            r.z == value,
    {
        Vector3 { x: value, y: value, z: value }
    }

    pub fn zeros() -> (r: Vector3)
        ensures
            r.x == 0,
            r.y == 0,
            r.z == 0,
    {
        Vector3 { x: 0, y: 0, z: 0 }
    }

    /// Whether all three coordinates lie inside the world cube.
    pub fn is_in_world(&self) -> (r: bool)
        ensures
            r == self.in_world(),
    {
        -COORD_MAX <= self.x && self.x <= COORD_MAX && -COORD_MAX <= self.y && self.y
            <= COORD_MAX && -COORD_MAX <= self.z && self.z <= COORD_MAX
    }

    /// The component-wise sum.
    pub fn plus(&self, other: &Vector3) -> (r: Vector3)
        requires
            fits_i64(self.x + other.x),
            fits_i64(self.y + other.y),
            fits_i64(self.z + other.z),
        ensures
            r@ == self@.add(other@),
    {
        Vector3 { x: self.x + other.x, y: self.y + other.y, z: self.z + other.z }
    }

    /// The component-wise difference.
    pub fn minus(&self, other: &Vector3) -> (r: Vector3)
        requires
            fits_i64(self.x - other.x),
            fits_i64(self.y - other.y),
            fits_i64(self.z - other.z),
        ensures
            r@ == self@.sub(other@),
    {
        Vector3 { x: self.x - other.x, y: self.y - other.y, z: self.z - other.z }
    }

    /// The opposite vector.
    pub fn negated(&self) -> (r: Vector3)
        requires
            self.x > i64::MIN,
            self.y > i64::MIN,
            self.z > i64::MIN,
        ensures
            r@ == self@.neg(),
    {
        Vector3 { x: -self.x, y: -self.y, z: -self.z }
    }

    /// Every component multiplied by `k`.
    pub fn scaled(&self, k: i64) -> (r: Vector3)
        requires
            fits_i64(self.x * k),
            fits_i64(self.y * k),
            fits_i64(self.z * k),
        ensures
            r@ == self@.scale(k as int),
    {
        Vector3 { x: self.x * k, y: self.y * k, z: self.z * k }
    }

    /// The component-wise absolute value.
    pub fn abs(&self) -> (r: Vector3)
        requires
            self.x > i64::MIN,
            self.y > i64::MIN,
            self.z > i64::MIN,
        ensures
            r@ == self@.abs(),
    {
        Vector3 { x: n_abs(self.x), y: n_abs(self.y), z: n_abs(self.z) }
    }

    /// The dot product.
    pub fn dot(&self, other: &Vector3) -> (r: i128)
        requires
            self@.within(DOT_MAX as int),
            other@.within(DOT_MAX as int),
        ensures
            r == self@.dot(other@),
    {
        lattice_dot(self, other)
    }

    /// The cross product.
    pub fn cross(&self, other: &Vector3) -> (r: Vector3)
        requires
            self@.within(CROSS_MAX as int),
            other@.within(CROSS_MAX as int),
        ensures
            r@ == self@.cross(other@),
    {
        lattice_cross(self, other)
    }

    /// The squared length.
    pub fn magnitude_squared(&self) -> (r: i128)
        requires
            self@.within(DOT_MAX as int),
        ensures
            r == self@.norm_sq(),
    {
        lattice_dot(self, self)
    }

    /// The direction of the vector, as short as the lattice can hold it: of
    /// unit length for a vector along a coordinate axis, the vector itself
    /// otherwise.
    pub fn to_direction(&self) -> (r: Vector3)
        ensures
            r@ == self@.direction(),
    {
        if self.y == 0 && self.z == 0 && self.x != 0 {
            Vector3 { x: if self.x < 0 { -1 } else { 1 }, y: 0, z: 0 }
        } else if self.x == 0 && self.z == 0 && self.y != 0 {
            Vector3 { x: 0, y: if self.y < 0 { -1 } else { 1 }, z: 0 }
        } else if self.x == 0 && self.y == 0 && self.z != 0 {
            Vector3 { x: 0, y: 0, z: if self.z < 0 { -1 } else { 1 } }
        } else {
            *self
        }
    }

    /// The least component with its index; the first one on a tie.
    pub fn min_component(&self) -> (r: (usize, i64))
        ensures
            r.0 == self@.min_index(),
            r.1 == self@.at(r.0 as int),
            r.1 <= self.x && r.1 <= self.y && r.1 <= self.z,
    {
        if self.y < self.x {
            if self.z < self.y {
                (2, self.z)
            } else {
                (1, self.y)
            }
        } else if self.z < self.x {
            (2, self.z)
        } else {
            (0, self.x)
        }
    }

    /// The greatest component with its index; among equal ones the last.
    pub fn max_component(&self) -> (r: (usize, i64))
        ensures
            r.0 == self@.max_index(),
            r.1 == self@.at(r.0 as int),
            r.1 >= self.x && r.1 >= self.y && r.1 >= self.z,
    {
        if self.y >= self.x {
            if self.z >= self.y {
                (2, self.z)
            } else {
                (1, self.y)
            }
        } else if self.z >= self.x {
            (2, self.z)
        } else {
            (0, self.x)
        }
    }
}

} // verus!

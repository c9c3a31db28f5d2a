//! Planes.
use vstd::prelude::*;
use crate::collision3d::aabb::AxisAlignedBoundingBox;
use crate::collision3d::sphere::Sphere;
use crate::collision3d::triangle::Triangle;
use crate::collision3d::{Shape3D, REACH_MAX};
use crate::scalar::{
    div_floor, is_zero, lemma_quotient_bound, n_max_value, n_min_value, wide_mul, COORD_MAX,
};
use crate::vector::{lemma_dot_bound3, lemma_norm_sq_bound3, Vector3, V3};

verus! {

/// The largest magnitude of a component of a plane's normal: eight times the
/// square of `COORD_MAX`, which covers the normal of every valid triangle.
pub const NORMAL_MAX: i64 = 80_000_000_000;

/// The largest magnitude of a plane's offset `d`.
pub const OFFSET_MAX: i64 = 24_000_000_000_000_000;

/// The plane of the points `p` with `normal . p + d == 0`.
///
/// The normal is any non-zero lattice vector. Distances from the plane are
/// reported scaled by the length of the normal, which keeps them exact; they
/// are true distances where the normal has unit length.
#[derive(Clone, Copy, Debug, PartialEq, Eq, Structural)]
pub struct Plane {
    pub normal: Vector3,
    pub d: i64,
}

/// `a / b` rounded toward negative infinity, for a divisor of either sign.
pub open spec fn floor_ratio(a: int, b: int) -> int {
    if b > 0 {
        a / b
    } else {
        (-a) / (-b)
    }
}

impl Plane {
    /// The normal and the offset are within their bounds.
    pub open spec fn in_range(&self) -> bool {
        self.normal@.within(NORMAL_MAX as int) && -OFFSET_MAX <= self.d <= OFFSET_MAX
    }

    /// The plane is in range and its normal is not the zero vector.
    pub open spec fn wf(&self) -> bool {
        self.in_range() && self.normal@ != (V3 { x: 0, y: 0, z: 0 })
    }

    /// The signed distance of `point` from the plane, scaled by the length of
    /// the normal.
    pub open spec fn spec_distance(&self, point: V3) -> int {
        self.normal@.dot(point) + self.d
    }

    /// Whether the plane is in range and its normal is not the zero vector.
    pub fn is_valid(&self) -> (r: bool)
        ensures
            r == self.wf(),
    {
        -NORMAL_MAX <= self.normal.x && self.normal.x <= NORMAL_MAX && -NORMAL_MAX
            <= self.normal.y && self.normal.y <= NORMAL_MAX && -NORMAL_MAX <= self.normal.z
            && self.normal.z <= NORMAL_MAX && -OFFSET_MAX <= self.d && self.d <= OFFSET_MAX && !(
        self.normal.x == 0 && self.normal.y == 0 && self.normal.z == 0)
    }

    /// The plane of a triangle, with the triangle's normal as its normal. For
    /// corners on one line the normal is zero and the plane is no valid
    /// plane.
    pub fn from(triangle: &Triangle) -> (r: Plane)
        requires
            triangle.wf(),
        ensures
            r == triangle.spec_plane(),
            r.in_range(),
    {
        triangle.to_plane()
    }

    /// The plane through `point` with the given normal.
    pub fn from_point(normal: &Vector3, point: &Vector3) -> (r: Plane)
        requires
            normal@.within(NORMAL_MAX as int),
            point.in_world(),
        ensures
            r.normal == *normal,
            r.d == -normal@.dot(point@),
            r.in_range(),
            r.spec_distance(point@) == 0,
    {
        proof {
            lemma_dot_bound3(normal@, point@, NORMAL_MAX as int, COORD_MAX as int);
        }
        let d: i128 = -normal.dot(point);
        Plane { normal: *normal, d: d as i64 }
    }

    /// The signed distance of `point` from the plane, scaled by the length of
    /// the normal: positive on the side that the normal points to.
    pub fn distance(&self, point: &Vector3) -> (r: i64)
        requires
            self.in_range(),
            point@.within(REACH_MAX as int),
        ensures
            r == self.spec_distance(point@),
            -216_000_000_000_000_000 <= r <= 216_000_000_000_000_000,
    {
        proof {
            lemma_dot_bound3(self.normal@, point@, NORMAL_MAX as int, REACH_MAX as int);
        }
        let s: i128 = self.normal.dot(point) + (self.d as i128);
        s as i64
    }

    /// A lattice point on or next to the plane: on the first axis along which
    /// the normal is not zero, the point where the plane meets that axis,
    /// rounded toward negative infinity.
    pub fn random_point(&self) -> (r: Vector3)
        requires
            self.wf(),
        ensures
            self.normal.x != 0 ==> r@ == (V3 {
                x: floor_ratio(-self.d, self.normal.x as int),
                y: 0,
                z: 0,
            }),
            self.normal.x == 0 && self.normal.y != 0 ==> r@ == (V3 {
                x: 0,
                y: floor_ratio(-self.d, self.normal.y as int),
                z: 0,
            }),
            self.normal.x == 0 && self.normal.y == 0 ==> r@ == (V3 {
                x: 0,
                y: 0,
                z: floor_ratio(-self.d, self.normal.z as int),
            }),
    {
        if !is_zero(self.normal.x) {
            return Vector3::new(axis_crossing(self.d, self.normal.x), 0, 0);
        }
        if !is_zero(self.normal.y) {
            return Vector3::new(0, axis_crossing(self.d, self.normal.y), 0);
        }
        Vector3::new(0, 0, axis_crossing(self.d, self.normal.z))
    }

    /// The point of the plane nearest to `point`, each coordinate rounded
    /// toward positive infinity; exact where the normal has unit length.
    pub fn closest_point(&self, point: &Vector3) -> (r: Vector3)
        requires
            self.wf(),
            point@.within(REACH_MAX as int),
        ensures
            r.x == point.x - (self.normal.x * self.spec_distance(point@))
                / self.normal@.norm_sq(),
            r.y == point.y - (self.normal.y * self.spec_distance(point@))
                / self.normal@.norm_sq(),
            r.z == point.z - (self.normal.z * self.spec_distance(point@))
                / self.normal@.norm_sq(),
            self.normal@.norm_sq() == 1 ==> self.spec_distance(r@) == 0,
    {
        let s: i64 = self.distance(point);
        let nn: i128 = self.normal.magnitude_squared();
        proof {
            lemma_norm_sq_bound3(self.normal@, NORMAL_MAX as int);
            lemma_norm_sq_positive(self.normal@);
        }
        let x: i64 = point.x - shift_along(self.normal.x, s, nn);
        let y: i64 = point.y - shift_along(self.normal.y, s, nn);
        let z: i64 = point.z - shift_along(self.normal.z, s, nn);
        proof {
            if nn == 1 {
                lemma_unit_projection(self.normal@, point@, self.d as int);
            }
        }
        Vector3::new(x, y, z)
    }
}

impl Shape3D for Plane {
    open spec fn valid(&self) -> bool {
        self.wf()
    }

    /// The box of all scalars.
    open spec fn spec_bounding_aabb(&self) -> AxisAlignedBoundingBox {
        AxisAlignedBoundingBox {
            start: Vector3 { x: i64::MIN, y: i64::MIN, z: i64::MIN },
            end: Vector3 { x: i64::MAX, y: i64::MAX, z: i64::MAX },
        }
    }

    /// The sphere around the origin with the largest scalar as its radius.
    open spec fn spec_bounding_sphere(&self) -> Sphere {
        Sphere { center: Vector3 { x: 0, y: 0, z: 0 }, radius: i64::MAX }
    }

    /// A plane has no center; the origin stands for it.
    open spec fn spec_center(&self) -> V3 {
        V3 { x: 0, y: 0, z: 0 }
    }

    open spec fn is_unbounded(&self) -> bool {
        true
    }

    open spec fn can_translate(&self, offset: V3) -> bool {
        true
    }

    /// A plane stays where it is.
    open spec fn translated(&self, offset: V3) -> Self {
        *self
    }

    open spec fn can_recenter(&self, point: V3) -> bool {
        true
    }

    /// A plane stays where it is.
    open spec fn recentered(&self, point: V3) -> Self {
        *self
    }

    fn bounding_aabb(&self) -> (r: AxisAlignedBoundingBox) {
        AxisAlignedBoundingBox {
            start: Vector3::from_element(n_min_value()),
            end: Vector3::from_element(n_max_value()),
        }
    }

    fn bounding_sphere(&self) -> (r: Sphere) {
        Sphere { center: Vector3::from_element(0), radius: n_max_value() }
    }

    fn center(&self) -> (r: Vector3) {
        Vector3::from_element(0)
    }

    fn translate_mut(&mut self, _point: &Vector3) {
    }

    fn set_center_mut(&mut self, _point: &Vector3) {
    }

    fn translate(&self, _point: &Vector3) -> (r: Self) {
        *self
    }

    fn set_center(&self, _point: &Vector3) -> (r: Self) {
        *self
    }

    proof fn lemma_translate_moves_center(&self, offset: V3) {
    }

    proof fn lemma_recenter_sets_center(&self, point: V3) {
    }

    proof fn lemma_translate_zero(&self) {
    }
}

/// With a unit normal, moving a point against the normal by its distance
/// lands on the plane.
proof fn lemma_unit_projection(n: V3, p: V3, d: int)
    by (nonlinear_arith)
    requires
        n.x * n.x + n.y * n.y + n.z * n.z == 1,
    ensures
        ({
            let s = n.x * p.x + n.y * p.y + n.z * p.z + d;
            n.x * (p.x - (n.x * s) / 1) + n.y * (p.y - (n.y * s) / 1) + n.z * (p.z - (n.z * s) / 1)
                + d == 0
        }),
{
}

/// A vector other than zero has a positive squared length.
pub proof fn lemma_norm_sq_positive(v: V3)
    by (nonlinear_arith)
    requires
        v != (V3 { x: 0, y: 0, z: 0 }),
    ensures
        v.x * v.x + v.y * v.y + v.z * v.z > 0,
        v.norm_sq() > 0,
        v.x * v.x <= v.norm_sq(),
        v.y * v.y <= v.norm_sq(),
        v.z * v.z <= v.norm_sq(),
{
}

/// Where a plane with offset `d` meets an axis along which its normal has the
/// component `n`: `-d / n`, rounded toward negative infinity.
fn axis_crossing(d: i64, n: i64) -> (r: i64)
    requires
        n != 0,
        -OFFSET_MAX <= d <= OFFSET_MAX,
        n > i64::MIN,
    ensures
        r == floor_ratio(-d, n as int),
{
    let q: i128 = if n > 0 {
        div_floor(-(d as i128), n as i128)
    } else {
        div_floor(d as i128, -(n as i128))
    };
    proof {
        let a: int = if n > 0 { -(d as int) } else { d as int };
        let b: int = if n > 0 { n as int } else { -(n as int) };
        lemma_quotient_bound(a, b, OFFSET_MAX as int);
    }
    q as i64
}

/// The part of the way from a point to a plane that runs along one axis:
/// `n * s / nn`, rounded toward negative infinity, for a component `n` of the
/// normal, a scaled distance `s` and the squared length `nn` of the normal.
fn shift_along(n: i64, s: i64, nn: i128) -> (r: i64)
    requires
        nn > 0,
        n * n <= nn,
        -216_000_000_000_000_000 <= s <= 216_000_000_000_000_000,
    ensures
        r == (n * s) / (nn as int),
        -216_000_000_000_000_000 <= r <= 216_000_000_000_000_000,
{
    let product: i128 = wide_mul(n, s);
    let q: i128 = div_floor(product, nn);
    proof {
        lemma_shift_bound(n as int, s as int, nn as int, 216_000_000_000_000_000);
    }
    q as i64
}

proof fn lemma_shift_bound(n: int, s: int, nn: int, m: int)
    requires
        nn > 0,
        n * n <= nn,
        -m <= s <= m,
    ensures
        -m <= (n * s) / nn <= m,
{
    let a = n * s;
    vstd::arithmetic::div_mod::lemma_fundamental_div_mod(a, nn);
    let q = a / nn;
    let r = a % nn;
    assert(-m <= q <= m) by (nonlinear_arith)
        requires
            a == n * s,
            a == nn * q + r,
            0 <= r < nn,
            n * n <= nn,
            -m <= s <= m,
    ;
}

} // verus!

//! Capsules.
use vstd::prelude::*;
use crate::collision3d::aabb::AxisAlignedBoundingBox;
use crate::collision3d::plane::Plane;
use crate::collision3d::ray::Ray;
use crate::collision3d::sphere::Sphere;
use crate::collision3d::triangle::Triangle;
use crate::collision3d::{Shape3D, REACH_MAX};
use crate::collision_resolution::CollisionResolution;
use crate::scalar::{
    ceil_sqrt, half_floor, isqrt_ceil, lemma_root_below, spec_max, spec_min, wide_mul,
    COORD_MAX,
};
use crate::segment::{closest_to_segment, spec_closest_to_segment};
use crate::vector::{fits_i64, lemma_norm_sq_bound3, Vector3, V3};

verus! {

/// A capsule: the segment from `start` to `end`, swept by a sphere of radius
/// `radius`.
#[derive(Clone, Copy, Debug, PartialEq, Eq, Structural)]
pub struct Capsule {
    pub start: Vector3,
    pub end: Vector3,
    pub radius: i64,
}

/// The better of a contact found so far and a new candidate: the candidate
/// where it is a contact and closer to the triangle than the one found so
/// far, which must be strictly closer to replace it.
pub open spec fn nearer(
    found: Option<(i64, CollisionResolution<Vector3>)>,
    key: i64,
    hit: Option<CollisionResolution<Vector3>>,
) -> Option<(i64, CollisionResolution<Vector3>)> {
    match hit {
        Some(c) => match found {
            Some(f) => if key < f.0 {
                Some((key, c))
            } else {
                found
            },
            None => Some((key, c)),
        },
        None => found,
    }
}

impl Capsule {
    /// The radius is not negative and the capsule lies inside the world cube.
    pub open spec fn wf(&self) -> bool {
        &&& 0 <= self.radius
        &&& self.start@.sub(
            V3 { x: self.radius as int, y: self.radius as int, z: self.radius as int },
        ).within(COORD_MAX as int)
        &&& self.start@.add(
            V3 { x: self.radius as int, y: self.radius as int, z: self.radius as int },
        ).within(COORD_MAX as int)
        &&& self.end@.sub(
            V3 { x: self.radius as int, y: self.radius as int, z: self.radius as int },
        ).within(COORD_MAX as int)
        &&& self.end@.add(
            V3 { x: self.radius as int, y: self.radius as int, z: self.radius as int },
        ).within(COORD_MAX as int)
    }

    /// The vector from `start` to `end`: the direction of the capsule's axis.
    pub open spec fn spec_axis(&self) -> V3 {
        self.end@.sub(self.start@)
    }

    /// The length of the axis, rounded up to a whole unit.
    pub open spec fn spec_span(&self) -> int {
        ceil_sqrt(self.spec_axis().norm_sq())
    }

    /// The point of the axis nearest to `point`, rounded to the lattice.
    pub open spec fn spec_closest_point(&self, point: V3) -> Vector3 {
        let c = spec_closest_to_segment(self.start@, self.end@, point);
        Vector3 { x: c.x as i64, y: c.y as i64, z: c.z as i64 }
    }

    /// The smallest box around the spheres at the two ends.
    pub open spec fn spec_bounds(&self) -> AxisAlignedBoundingBox {
        AxisAlignedBoundingBox {
            start: Vector3 {
                x: (spec_min(self.start.x as int, self.end.x as int) - self.radius) as i64,
                y: (spec_min(self.start.y as int, self.end.y as int) - self.radius) as i64,
                z: (spec_min(self.start.z as int, self.end.z as int) - self.radius) as i64,
            },
            end: Vector3 {
                x: (spec_max(self.start.x as int, self.end.x as int) + self.radius) as i64,
                y: (spec_max(self.start.y as int, self.end.y as int) + self.radius) as i64,
                z: (spec_max(self.start.z as int, self.end.z as int) + self.radius) as i64,
            },
        }
    }

    /// The smallest box around the capsule: the sum of the boxes around the
    /// spheres at its two ends.
    pub fn bounds(&self) -> (r: AxisAlignedBoundingBox)
        requires
            self.wf(),
        ensures
            r == self.spec_bounds(),
            r.in_world(),
    {
        let (start, end) = self.to_spheres();
        start.bounds() + end.bounds()
    }

    /// Whether the radius is not negative and the capsule lies inside the
    /// world cube.
    pub fn is_valid(&self) -> (r: bool)
        ensures
            r == self.wf(),
    {
        0 <= self.radius && self.radius <= COORD_MAX && self.start.is_in_world()
            && self.end.is_in_world() && -COORD_MAX <= self.start.x - self.radius && self.start.x
            + self.radius <= COORD_MAX && -COORD_MAX <= self.start.y - self.radius
            && self.start.y + self.radius <= COORD_MAX && -COORD_MAX <= self.start.z
            - self.radius && self.start.z + self.radius <= COORD_MAX && -COORD_MAX <= self.end.x
            - self.radius && self.end.x + self.radius <= COORD_MAX && -COORD_MAX <= self.end.y
            - self.radius && self.end.y + self.radius <= COORD_MAX && -COORD_MAX <= self.end.z
            - self.radius && self.end.z + self.radius <= COORD_MAX
    }

    /// The whole extent of the capsule along its axis: the length of the
    /// axis, rounded up to a whole unit, and the radius at either end.
    pub fn distance(&self) -> (r: i64)
        requires
            self.wf(),
        ensures
            r == self.spec_span() + 2 * self.radius,
            0 <= self.spec_span() <= 346_411,
            self.spec_span() * self.spec_span() >= self.spec_axis().norm_sq(),
    {
        let axis = self.direction();
        let len: i128 = axis.magnitude_squared();
        proof {
            lemma_norm_sq_bound3(axis@, 200_000);
        }
        let span: i128 = isqrt_ceil(len);
        proof {
            lemma_root_below(len as int, span as int, 346_411);
        }
        (span as i64) + 2 * self.radius
    }

    /// The direction of the axis: the vector from `start` to `end`. It is an
    /// exact direction, not a unit vector.
    pub fn direction(&self) -> (r: Vector3)
        requires
            self.wf(),
        ensures
            r@ == self.spec_axis(),
            r@.within(200_000),
    {
        self.end.minus(&self.start)
    }

    /// The point of the axis nearest to `point`, rounded to the lattice.
    pub fn closest_point(&self, point: &Vector3) -> (r: Vector3)
        requires
            self.wf(),
            point@.within(REACH_MAX as int),
        ensures
            r == self.spec_closest_point(point@),
            r.in_world(),
    {
        closest_to_segment(&self.start, &self.end, point)
    }

    /// A pair of points, one on each axis, that are near each other: on the
    /// other capsule the point nearest to this capsule's start, and on this
    /// capsule the point nearest to that one. They approximate the pair of
    /// nearest points.
    pub fn closest_points(&self, capsule: &Capsule) -> (r: (Vector3, Vector3))
        requires
            self.wf(),
            capsule.wf(),
        ensures
            r.1 == capsule.spec_closest_point(self.start@),
            r.0 == self.spec_closest_point(r.1@),
            r.0.in_world() && r.1.in_world(),
    {
        let other_closest = capsule.closest_point(&self.start);
        let this_closest = self.closest_point(&other_closest);
        (this_closest, other_closest)
    }

    /// The contact between two capsules, as `get_capsule_collision` reports
    /// it.
    pub open spec fn spec_capsule_collision(&self, capsule: &Capsule) -> Option<
        CollisionResolution<Vector3>,
    > {
        let other = capsule.spec_closest_point(self.start@);
        let this = self.spec_closest_point(other@);
        if self.spec_bounds().overlaps(&capsule.spec_bounds()) {
            (Sphere { center: this, radius: self.radius }).spec_sphere_collision(
                &Sphere { center: other, radius: capsule.radius },
            )
        } else {
            None
        }
    }

    /// The contact between two capsules.
    ///
    /// There is none unless the bounding boxes overlap. Otherwise it is the
    /// contact between two spheres, one of each capsule's radius, around the
    /// points of `closest_points`.
    pub fn get_capsule_collision(&self, capsule: &Capsule) -> (r: Option<
        CollisionResolution<Vector3>,
    >)
        requires
            self.wf(),
            capsule.wf(),
        ensures
            r == self.spec_capsule_collision(capsule),
            r matches Some(c) ==> c.wf(),
    {
        if self.bounds().get_aabb_collision(&capsule.bounds()).is_none() {
            return None;
        }
        let (point1, point2) = self.closest_points(capsule);
        (Sphere { center: point1, radius: self.radius }).get_sphere_collision(
            &Sphere { center: point2, radius: capsule.radius },
        )
    }

    /// The parameter `num / den` along the axis, counted from `start` toward
    /// `end` in units of the axis, lies on the capsule: between zero, at
    /// `start`, and `distance()`, measured in units of the axis' rounded
    /// length. With `strict`, the two ends are excluded.
    pub open spec fn on_axis(&self, num: int, den: int, strict: bool) -> bool {
        if strict {
            0 < num && num * self.spec_span() < den * (self.spec_span() + 2 * self.radius)
        } else {
            0 <= num && num * self.spec_span() <= den * (self.spec_span() + 2 * self.radius)
        }
    }

    /// The ray along the capsule's axis.
    pub open spec fn spec_ray(&self) -> Ray {
        Ray {
            point: self.start,
            direction: Vector3 {
                x: self.spec_axis().x as i64,
                y: self.spec_axis().y as i64,
                z: self.spec_axis().z as i64,
            },
        }
    }

    /// The point where the line of the axis meets `plane`, rounded to the
    /// lattice, if it lies on the capsule.
    pub open spec fn spec_crossing(&self, plane: &Plane, strict: bool) -> Option<Vector3> {
        match self.spec_ray().spec_crossing(plane) {
            Some(t) => if self.on_axis(t.0, t.1, strict) {
                let p = self.spec_ray().spec_point_at(t.0, t.1);
                Some(Vector3 { x: p.x as i64, y: p.y as i64, z: p.z as i64 })
            } else {
                None
            },
            None => None,
        }
    }

    /// The point where the line of the axis meets `plane`, rounded to the
    /// lattice, if it lies on the capsule.
    pub fn crossing(&self, plane: &Plane, strict: bool) -> (r: Option<Vector3>)
        requires
            self.wf(),
            plane.in_range(),
        ensures
            r == self.spec_crossing(plane, strict),
            r matches Some(p) ==> p@.within(REACH_MAX as int),
    {
        let ray = Ray::from(self);
        assert(ray == self.spec_ray());
        match ray.intersects_plane(plane) {
            Some((num, den)) => {
                let reach: i64 = self.distance();
                let span: i64 = reach - 2 * self.radius;
                let along: i128 = wide_mul(num, span);
                let limit: i128 = wide_mul(den, reach);
                let on_axis = if strict {
                    0 < num && along < limit
                } else {
                    0 <= num && along <= limit
                };
                if on_axis {
                    proof {
                        lemma_on_axis(
                            ray.direction@,
                            num as int,
                            den as int,
                            span as int,
                            reach as int,
                        );
                    }
                    Some(ray.get_point_at(num, den))
                } else {
                    None
                }
            },
            None => None,
        }
    }

    /// The contact between a capsule and a plane, as `get_plane_collision`
    /// reports it.
    pub open spec fn spec_plane_collision(&self, plane: &Plane) -> Option<
        CollisionResolution<Vector3>,
    > {
        match self.spec_crossing(plane, false) {
            Some(center) => (Sphere { center, radius: self.radius }).spec_plane_collision(plane),
            None => None,
        }
    }

    /// The contact between a capsule and a plane.
    ///
    /// There is none where the axis runs along the plane, or where the line
    /// of the axis meets the plane outside the capsule. Otherwise it is the
    /// contact between the plane and a sphere of the capsule's radius around
    /// the point where the axis meets the plane.
    pub fn get_plane_collision(&self, plane: &Plane) -> (r: Option<CollisionResolution<Vector3>>)
        requires
            self.wf(),
            plane.wf(),
        ensures
            r == self.spec_plane_collision(plane),
            r matches Some(c) ==> c.wf(),
    {
        match self.crossing(plane, false) {
            Some(center) => (Sphere { center, radius: self.radius }).get_plane_collision(plane),
            None => None,
        }
    }

    /// The contact of a sphere of the capsule's radius around `point` with
    /// the triangle, keyed by the squared distance of `point` from the
    /// triangle, if it is nearer than what was found so far.
    pub open spec fn spec_consider(
        &self,
        found: Option<(i64, CollisionResolution<Vector3>)>,
        point: Vector3,
        triangle: &Triangle,
        double_sided: bool,
    ) -> Option<(i64, CollisionResolution<Vector3>)> {
        nearer(
            found,
            triangle.spec_distance_squared(point@) as i64,
            (Sphere { center: point, radius: self.radius }).spec_triangle_collision(
                triangle,
                double_sided,
            ),
        )
    }

    fn consider(
        &self,
        found: Option<(i64, CollisionResolution<Vector3>)>,
        point: &Vector3,
        triangle: &Triangle,
        double_sided: bool,
    ) -> (r: Option<(i64, CollisionResolution<Vector3>)>)
        requires
            self.wf(),
            triangle.wf(),
            point@.within(REACH_MAX as int),
        ensures
            r == self.spec_consider(found, *point, triangle, double_sided),
            (found matches Some(f) ==> f.1.wf()) ==> (r matches Some(f) ==> f.1.wf()),
    {
        let (_, key) = triangle.closest_point(point);
        let hit = (Sphere { center: *point, radius: self.radius }).get_triangle_collision(
            triangle,
            double_sided,
        );
        match hit {
            Some(c) => match found {
                Some(f) => if key < f.0 {
                    Some((key, c))
                } else {
                    found
                },
                None => Some((key, c)),
            },
            None => found,
        }
    }

    /// The contact between a capsule and a triangle, as
    /// `get_triangle_collision` reports it.
    pub open spec fn spec_triangle_collision(
        &self,
        triangle: &Triangle,
        double_sided: bool,
    ) -> Option<CollisionResolution<Vector3>> {
        let first = self.spec_consider(None, self.start, triangle, double_sided);
        let second = self.spec_consider(first, self.end, triangle, double_sided);
        let third = match self.spec_crossing(&triangle.spec_plane(), true) {
            Some(point) => self.spec_consider(second, point, triangle, double_sided),
            None => second,
        };
        if self.spec_bounds().overlaps(&triangle.spec_bounds()) {
            match third {
                Some(f) => Some(f.1),
                None => None,
            }
        } else {
            None
        }
    }

    /// The contact between a capsule and a triangle.
    ///
    /// There is none unless the bounding boxes overlap. The candidates for
    /// the contact point are the start of the axis, its end, and the point
    /// where the axis meets the triangle's plane, if that lies strictly
    /// inside the capsule. They are ranked by their squared distance from the
    /// triangle, in that order on a tie. The contact is that of a sphere of
    /// the capsule's radius around the first candidate for which such a
    /// sphere touches the triangle.
    pub fn get_triangle_collision(&self, triangle: &Triangle, double_sided: bool) -> (r: Option<
        CollisionResolution<Vector3>,
    >)
        requires
            self.wf(),
            triangle.wf(),
        ensures
            r == self.spec_triangle_collision(triangle, double_sided),
            r matches Some(c) ==> c.wf(),
    {
        if self.bounds().get_aabb_collision(&triangle.bounds()).is_none() {
            return None;
        }
        let plane = triangle.to_plane();
        let mut found: Option<(i64, CollisionResolution<Vector3>)> = None;
        found = self.consider(found, &self.start, triangle, double_sided);
        found = self.consider(found, &self.end, triangle, double_sided);
        match self.crossing(&plane, true) {
            Some(point) => {
                found = self.consider(found, &point, triangle, double_sided);
            },
            None => {},
        }
        match found {
            Some(f) => Some(f.1),
            None => None,
        }
    }

    /// The spheres at the two ends of the capsule.
    pub fn to_spheres(&self) -> (r: (Sphere, Sphere))
        ensures
            r.0 == (Sphere { center: self.start, radius: self.radius }),
            r.1 == (Sphere { center: self.end, radius: self.radius }),
            self.wf() ==> r.0.wf() && r.1.wf(),
    {
        let radius: i64 = self.radius;
        (Sphere { radius, center: self.start }, Sphere { radius, center: self.end })
    }
}

/// A point at a parameter on the capsule is no further from the start than
/// the capsule is long.
proof fn lemma_on_axis(u: V3, num: int, den: int, span: int, reach: int)
    requires
        den > 0,
        0 <= num,
        num * span <= den * reach,
        0 <= span <= reach,
        u.norm_sq() <= span * span,
    ensures
        -reach <= (u.x * num) / den <= reach,
        -reach <= (u.y * num) / den <= reach,
        -reach <= (u.z * num) / den <= reach,
{
    assert(u.x * u.x <= span * span && u.y * u.y <= span * span && u.z * u.z <= span * span)
        by (nonlinear_arith)
        requires
            u.x * u.x + u.y * u.y + u.z * u.z <= span * span,
    ;
    lemma_part_on_axis(u.x, num, den, span, reach);
    lemma_part_on_axis(u.y, num, den, span, reach);
    lemma_part_on_axis(u.z, num, den, span, reach);
}

proof fn lemma_part_on_axis(d: int, num: int, den: int, span: int, reach: int)
    requires
        den > 0,
        0 <= num,
        num * span <= den * reach,
        0 <= span <= reach,
        d * d <= span * span,
    ensures
        -reach <= (d * num) / den <= reach,
{
    assert(-span <= d <= span) by (nonlinear_arith)
        requires
            d * d <= span * span,
            0 <= span,
    ;
    assert(-(den * reach) <= d * num <= den * reach) by (nonlinear_arith)
        requires
            -span <= d <= span,
            0 <= num,
            num * span <= den * reach,
    ;
    let a = d * num;
    vstd::arithmetic::div_mod::lemma_fundamental_div_mod(a, den);
    let q = a / den;
    let r = a % den;
    assert(-reach <= q <= reach) by (nonlinear_arith)
        requires
            a == den * q + r,
            0 <= r < den,
            -(den * reach) <= a <= den * reach,
            den > 0,
    ;
}

impl Shape3D for Capsule {
    open spec fn valid(&self) -> bool {
        self.wf()
    }

    open spec fn spec_bounding_aabb(&self) -> AxisAlignedBoundingBox {
        self.spec_bounds()
    }

    open spec fn spec_bounding_sphere(&self) -> Sphere {
        self.spec_bounding_aabb().spec_bounding_sphere()
    }

    /// The midpoint of the axis, each coordinate rounded down to the lattice.
    open spec fn spec_center(&self) -> V3 {
        V3 {
            x: (self.start.x + self.end.x) / 2,
            y: (self.start.y + self.end.y) / 2,
            z: (self.start.z + self.end.z) / 2,
        }
    }

    open spec fn is_unbounded(&self) -> bool {
        false
    }

    open spec fn can_translate(&self, offset: V3) -> bool {
        &&& fits_i64(self.start.x + offset.x)
        &&& fits_i64(self.start.y + offset.y)
        &&& fits_i64(self.start.z + offset.z)
        &&& fits_i64(self.end.x + offset.x)
        &&& fits_i64(self.end.y + offset.y)
        &&& fits_i64(self.end.z + offset.z)
    }

    open spec fn translated(&self, offset: V3) -> Self {
        Capsule {
            start: Vector3 {
                x: (self.start.x + offset.x) as i64,
                y: (self.start.y + offset.y) as i64,
                z: (self.start.z + offset.z) as i64,
            },
            end: Vector3 {
                x: (self.end.x + offset.x) as i64,
                y: (self.end.y + offset.y) as i64,
                z: (self.end.z + offset.z) as i64,
            },
            radius: self.radius,
        }
    }

    open spec fn can_recenter(&self, point: V3) -> bool {
        let offset = point.sub(self.spec_center());
        let r = V3 { x: self.radius as int, y: self.radius as int, z: self.radius as int };
        &&& point.within(COORD_MAX as int)
        &&& self.start@.add(offset).sub(r).within(COORD_MAX as int)
        &&& self.start@.add(offset).add(r).within(COORD_MAX as int)
        &&& self.end@.add(offset).sub(r).within(COORD_MAX as int)
        &&& self.end@.add(offset).add(r).within(COORD_MAX as int)
    }

    /// The capsule moved by the offset from its center to `point`.
    open spec fn recentered(&self, point: V3) -> Self {
        self.translated(point.sub(self.spec_center()))
    }

    fn bounding_aabb(&self) -> (r: AxisAlignedBoundingBox)
        ensures
            r.wf(),
    {
        self.bounds()
    }

    fn bounding_sphere(&self) -> (r: Sphere) {
        self.bounding_aabb().bounding_sphere()
    }

    fn center(&self) -> (r: Vector3)
        ensures
            r.in_world(),
    {
        Vector3::new(
            half_floor(self.start.x + self.end.x),
            half_floor(self.start.y + self.end.y),
            half_floor(self.start.z + self.end.z),
        )
    }

    fn translate(&self, point: &Vector3) -> (r: Self)
        ensures
            r.start@ == self.start@.add(point@),
            r.end@ == self.end@.add(point@),
            r.radius == self.radius,
    {
        Capsule {
            radius: self.radius,
            start: self.start.plus(point),
            end: self.end.plus(point),
        }
    }

    fn translate_mut(&mut self, point: &Vector3)
        ensures
            final(self).start@ == old(self).start@.add(point@),
            final(self).end@ == old(self).end@.add(point@),
            final(self).radius == old(self).radius,
    {
        self.start = self.start.plus(point);
        self.end = self.end.plus(point);
    }

    fn set_center(&self, point: &Vector3) -> (r: Self) {
        let mut c = *self;
        c.set_center_mut(point);
        c
    }

    fn set_center_mut(&mut self, new_center: &Vector3) {
        let center = self.center();
        let start_dist = self.start.minus(&center);
        let end_dist = self.end.minus(&center);
        self.start = new_center.plus(&start_dist);
        self.end = new_center.plus(&end_dist);
    }

    proof fn lemma_translate_moves_center(&self, offset: V3) {
    }

    proof fn lemma_recenter_sets_center(&self, point: V3) {
    }

    proof fn lemma_translate_zero(&self) {
    }
}

} // verus!

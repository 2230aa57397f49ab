//! Sampling primitives: the probability densities of the direction samplers,
//! and the pixel-jitter mapping.
//!
//! The samplers draw directions on spheres and hemispheres through
//! trigonometric maps, which are floating-point work and live with the
//! renderer's outer shell.  What the estimator divides by — each sampler's
//! probability density — is exact, and is stated here in symbolic form: a
//! `Density` is a coefficient in thousandths, over pi or not, so `1/(2*pi)`
//! is `Density { coef: 500, over_pi: true }` with no rounding at all.

use vstd::prelude::*;
use vstd::arithmetic::div_mod::{lemma_div_by_multiple, lemma_div_is_ordered, lemma_div_pos_is_pos};
use vstd::arithmetic::mul::{lemma_mul_inequality, lemma_mul_nonnegative};
use crate::math::{in_range, Vec2, Vec3, FIX_ONE};
use crate::shapes::{Cuboid, Shape};
use crate::spectrum::Ratio;

verus! {

/// An exact probability density: `coef` thousandths, divided by pi when
/// `over_pi` is set.
#[derive(Clone, Copy, Debug, PartialEq, Eq, Structural)]
pub struct Density {
    pub coef: i64,
    pub over_pi: bool,
}

impl Density {
    pub open spec fn wf(self) -> bool {
        0 <= self.coef && in_range(self.coef as int)
    }

    /// The exact quotient of two densities with the same pi factor: the pi
    /// cancels and the result is the plain fraction of the coefficients.
    pub fn div(self, other: Density) -> (r: Ratio)
        requires
            self.wf(),
            other.wf(),
            self.over_pi == other.over_pi,
            other.coef > 0,
        ensures
            r.num == self.coef,
            r.den == other.coef,
            r.wf(),
    {
        Ratio { num: self.coef, den: other.coef }
    }
}

/// Maps a unit-square random sample to a sub-pixel offset, given the physical
/// dimensions of one pixel.  Used only by the camera.
pub struct UniformSampler2 {
    pub dims: Vec2,
}

impl UniformSampler2 {
    pub fn new(dims: Vec2) -> (s: UniformSampler2)
        ensures
            s.dims == dims,
    {
        UniformSampler2 { dims }
    }

    /// Scales a sample `(u, v)`, each in `[0, FIX_ONE]` thousandths of one,
    /// to a point inside a `dims`-sized rectangle.  The products are exact;
    /// only the final drop back to thousandths rounds toward negative
    /// infinity.
    pub fn sample(&self, u: i64, v: i64) -> (r: Vec2)
        requires
            0 <= u <= FIX_ONE,
            0 <= v <= FIX_ONE,
            0 <= self.dims.x <= FIX_ONE * FIX_ONE,
            0 <= self.dims.y <= FIX_ONE * FIX_ONE,
        ensures
            r.x == (u * self.dims.x) / (FIX_ONE as int),
            r.y == (v * self.dims.y) / (FIX_ONE as int),
    {
        let dx = self.dims.x;
        let dy = self.dims.y;
        assert(0 <= u * dx <= 1_000_000_000 && 0 <= v * dy <= 1_000_000_000)
            by (nonlinear_arith)
            requires
                0 <= u <= 1000,
                0 <= v <= 1000,
                0 <= dx <= 1_000_000,
                0 <= dy <= 1_000_000,
        ;
        Vec2 { x: (u * dx) / FIX_ONE, y: (v * dy) / FIX_ONE }
    }
}

/// Uniform directions over the full sphere; density `1/(4*pi)`.
pub struct UniformSphereSampler;

impl UniformSphereSampler {
    /// Every direction this sampler draws has the same likelihood.
    pub fn density(&self) -> (d: Density)
        ensures
            d.coef == 250 && d.over_pi,
            d.wf(),
    {
        Density { coef: 250, over_pi: true }
    }
}

/// Uniform directions over the hemisphere about a normal; density `1/(2*pi)`
/// exactly, for every direction drawn.
pub struct UniformHemisphereSampler;

impl UniformHemisphereSampler {
    pub fn density(&self) -> (d: Density)
        ensures
            d.coef == 500 && d.over_pi,
            d.wf(),
    {
        Density { coef: 500, over_pi: true }
    }
}

/// Cosine-weighted directions over the hemisphere about a normal; density
/// `cos(theta)/pi`, the importance-sampling distribution matched to a
/// Lambertian surface.
pub struct CosineWeightedHemisphereSampler;

impl CosineWeightedHemisphereSampler {
    /// The density of a drawn direction whose cosine against the normal is
    /// `cos_theta` (in thousandths).
    pub fn density(&self, cos_theta: i64) -> (d: Density)
        requires
            0 <= cos_theta <= FIX_ONE,
        ensures
            d.coef == cos_theta && d.over_pi,
            d.wf(),
    {
        Density { coef: cos_theta, over_pi: true }
    }
}

/// The number of distinct values of a 32-bit random sample: a sample `u`
/// stands for the exact fraction `u / 4294967296` of one.
pub open spec fn sample_den() -> int {
    4294967296
}

/// Which cuboid face pair the sample `u` selects: the first index whose
/// cumulative face-area ratio exceeds `u`, compared exactly by
/// cross-multiplication.
pub open spec fn selected_face(c: Cuboid, u: u32) -> int {
    if c.face_area_x() * sample_den() > u * c.total_area() {
        0
    } else if (c.face_area_x() + c.face_area_y()) * sample_den() > u * c.total_area() {
        1
    } else {
        2
    }
}

/// Cumulative face area below the selected face.
pub open spec fn face_lo(c: Cuboid, u: u32) -> int {
    if selected_face(c, u) == 0 {
        0
    } else if selected_face(c, u) == 1 {
        c.face_area_x()
    } else {
        c.face_area_x() + c.face_area_y()
    }
}

/// Cumulative face area up to and including the selected face.
pub open spec fn face_hi(c: Cuboid, u: u32) -> int {
    if selected_face(c, u) == 0 {
        c.face_area_x()
    } else if selected_face(c, u) == 1 {
        c.face_area_x() + c.face_area_y()
    } else {
        c.total_area()
    }
}

/// How far into the selected face's sample range `u` lies, over the common
/// denominator `total_area * sample_den`.
pub open spec fn face_offset(c: Cuboid, u: u32) -> int {
    u * c.total_area() - face_lo(c, u) * sample_den()
}

/// The width of the selected face's sample range, over the same denominator.
pub open spec fn face_span(c: Cuboid, u: u32) -> int {
    (face_hi(c, u) - face_lo(c, u)) * sample_den()
}

/// Whether `u` falls in the first half of the face's range, which selects
/// the face on the positive side of its axis.
pub open spec fn positive_side(c: Cuboid, u: u32) -> bool {
    2 * face_offset(c, u) < face_span(c, u)
}

/// The sample's position within the chosen half of the face's range: the
/// remapped sample `2m` (positive side) or `2m - 1` (negative side), over
/// the denominator `face_span`.
pub open spec fn half_offset(c: Cuboid, u: u32) -> int {
    if positive_side(c, u) {
        2 * face_offset(c, u)
    } else {
        2 * face_offset(c, u) - face_span(c, u)
    }
}

/// The affine map of the fraction `num2 / (2 * den)` of the unit interval
/// onto the extent `[-h, h]`, rounded toward zero.
pub open spec fn centered(num2: int, den: int, h: int) -> int {
    if num2 >= den {
        ((num2 - den) * h) / den
    } else {
        -(((den - num2) * h) / den)
    }
}

/// A fraction `n/q` of a nonnegative length `h` is between zero and `h`.
proof fn lemma_scaled_fraction_bounded(n: int, h: int, q: int)
    requires
        0 <= n <= q,
        0 <= h,
        0 < q,
    ensures
        0 <= (n * h) / q <= h,
{
    lemma_mul_nonnegative(n, h);
    lemma_div_pos_is_pos(n * h, q);
    lemma_mul_inequality(n, q, h);
    lemma_div_is_ordered(n * h, q * h, q);
    lemma_div_by_multiple(h, q);
    assert(q * h == h * q);
}

/// Maps a sample numerator `num2` over denominator `2 * den` from the range
/// `[0, 2*den)` to a coordinate in `[-h, h]`: the affine map `2m - 1` of the
/// unit interval onto the extent of one cuboid face, rounded toward zero.
fn centered_coord(num2: u128, den: u128, h: i64) -> (a: i64)
    requires
        0 < den,
        num2 < 2 * den,
        den <= 2_000_000_000_000_000_000_000_000_000,
        0 <= h <= 100_000_000,
    ensures
        -h <= a <= h,
        a == centered(num2 as int, den as int, h as int),
{
    let n: u128 = if num2 >= den {
        num2 - den
    } else {
        den - num2
    };
    assert(n * (h as u128) <= 2_000_000_000_000_000_000_000_000_000 * 100_000_000)
        by (nonlinear_arith)
        requires
            n <= den <= 2_000_000_000_000_000_000_000_000_000,
            0 <= (h as u128) <= 100_000_000,
    ;
    let m: u128 = (n * (h as u128)) / den;
    proof {
        lemma_scaled_fraction_bounded(n as int, h as int, den as int);
    }
    if num2 >= den {
        m as i64
    } else {
        -(m as i64)
    }
}

/// Uniform sampling of a point on a cuboid's surface, in the cuboid's local
/// frame.  A face pair is selected with probability proportional to its
/// area, the sign bit splits the pair, and the remaining sample range is
/// remapped across the face — all in exact integer arithmetic; only the
/// final drop to thousandths rounds.
pub struct UniformCuboidSampler<'a> {
    pub cuboid: &'a Cuboid,
}

impl<'a> UniformCuboidSampler<'a> {
    pub fn new(cuboid: &'a Cuboid) -> (s: UniformCuboidSampler<'a>)
        ensures
            s.cuboid == cuboid,
    {
        UniformCuboidSampler { cuboid }
    }

    /// Samples the surface point selected by the fractions `u` and `v` (each
    /// over `sample_den`), and the density `1 / (2 * total_area)` with its
    /// denominator intact.  A fully degenerate cuboid has no surface and
    /// yields its center with density one.
    pub fn sample(&self, u: u32, v: u32) -> (r: (Vec3, Ratio))
        requires
            self.cuboid.wf(),
        ensures
            r.1.wf(),
            self.cuboid.total_area() == 0 ==> r.0 == (Vec3 { x: 0, y: 0, z: 0 }) && r.1.num == 1
                && r.1.den == 1,
            self.cuboid.total_area() > 0 ==> {
                &&& self.cuboid.on_surface(r.0)
                &&& r.1.num == 1_000_000
                &&& r.1.den == 2 * self.cuboid.total_area()
                &&& (selected_face(*self.cuboid, u) == 0 ==> r.0.x == if positive_side(
                    *self.cuboid,
                    u,
                ) {
                    self.cuboid.half_extents.x as int
                } else {
                    -self.cuboid.half_extents.x as int
                })
                &&& (selected_face(*self.cuboid, u) == 1 ==> r.0.y == if positive_side(
                    *self.cuboid,
                    u,
                ) {
                    self.cuboid.half_extents.y as int
                } else {
                    -self.cuboid.half_extents.y as int
                })
                &&& (selected_face(*self.cuboid, u) == 2 ==> r.0.z == if positive_side(
                    *self.cuboid,
                    u,
                ) {
                    self.cuboid.half_extents.z as int
                } else {
                    -self.cuboid.half_extents.z as int
                })
                &&& (selected_face(*self.cuboid, u) == 0 ==> r.0.y == centered(
                    2 * half_offset(*self.cuboid, u),
                    face_span(*self.cuboid, u),
                    self.cuboid.half_extents.y as int,
                ) && r.0.z == centered(2 * v, sample_den(), self.cuboid.half_extents.z as int))
                &&& (selected_face(*self.cuboid, u) == 1 ==> r.0.x == centered(
                    2 * half_offset(*self.cuboid, u),
                    face_span(*self.cuboid, u),
                    self.cuboid.half_extents.x as int,
                ) && r.0.z == centered(2 * v, sample_den(), self.cuboid.half_extents.z as int))
                &&& (selected_face(*self.cuboid, u) == 2 ==> r.0.x == centered(
                    2 * half_offset(*self.cuboid, u),
                    face_span(*self.cuboid, u),
                    self.cuboid.half_extents.x as int,
                ) && r.0.y == centered(2 * v, sample_den(), self.cuboid.half_extents.y as int))
            },
    {
        let hx = self.cuboid.half_extents.x;
        let hy = self.cuboid.half_extents.y;
        let hz = self.cuboid.half_extents.z;
        assert(0 <= 4 * hy * hz <= 100_000_000_000_000_000
            && 0 <= 4 * hx * hz <= 100_000_000_000_000_000
            && 0 <= 4 * hx * hy <= 100_000_000_000_000_000)
            by (nonlinear_arith)
            requires
                0 <= hx <= 100_000_000,
                0 <= hy <= 100_000_000,
                0 <= hz <= 100_000_000,
        ;
        let ax: i64 = 4 * hy * hz;
        let ay: i64 = 4 * hx * hz;
        let az: i64 = 4 * hx * hy;
        let t: i64 = ax + ay + az;
        if t == 0 {
            return (Vec3 { x: 0, y: 0, z: 0 }, Ratio { num: 1, den: 1 });
        }
        let two32: u128 = 4294967296;
        assert((u as u128) * (t as u128) < (t as u128) * two32 && (u as u128) * (t as u128)
            <= 4294967296 * 300_000_000_000_000_000) by (nonlinear_arith)
            requires
                (u as u128) < 4294967296,
                two32 == 4294967296,
                0 < (t as u128) <= 300_000_000_000_000_000,
        ;
        let ut: u128 = (u as u128) * (t as u128);
        let c1: i64 = ax + ay;
        let ghost cub = *self.cuboid;
        let (lo, hi): (i64, i64) = if (ax as u128) * two32 > ut {
            assert(selected_face(cub, u) == 0);
            (0, ax)
        } else if (c1 as u128) * two32 > ut {
            assert(selected_face(cub, u) == 1);
            (ax, c1)
        } else {
            assert(selected_face(cub, u) == 2);
            (c1, t)
        };
        assert(face_lo(cub, u) == lo && face_hi(cub, u) == hi);
        let p: u128 = ut - (lo as u128) * two32;
        let q: u128 = ((hi - lo) as u128) * two32;
        assert(p == face_offset(cub, u) && q == face_span(cub, u));
        assert(p < q);
        let side_positive: bool = 2 * p < q;
        assert(side_positive == positive_side(cub, u));
        let pp: u128 = if side_positive {
            2 * p
        } else {
            2 * p - q
        };
        assert(pp < q);
        assert(pp == half_offset(cub, u));
        let point: Vec3 = if (ax as u128) * two32 > ut {
            let sx: i64 = if side_positive {
                hx
            } else {
                -hx
            };
            Vec3 { x: sx, y: centered_coord(2 * pp, q, hy), z: centered_coord(2 * (v as u128), two32, hz) }
        } else if (c1 as u128) * two32 > ut {
            let sy: i64 = if side_positive {
                hy
            } else {
                -hy
            };
            Vec3 { x: centered_coord(2 * pp, q, hx), y: sy, z: centered_coord(2 * (v as u128), two32, hz) }
        } else {
            let sz: i64 = if side_positive {
                hz
            } else {
                -hz
            };
            Vec3 { x: centered_coord(2 * pp, q, hx), y: centered_coord(2 * (v as u128), two32, hy), z: sz }
        };
        (point, Ratio { num: 1_000_000, den: 2 * t })
    }
}

/// The fallback for shapes without a surface sampler: the object's own
/// origin with density one — a documented approximation, not an exact
/// surface distribution.
pub struct OriginSampler;

impl OriginSampler {
    pub fn sample(&self, position: Vec3) -> (r: (Vec3, Ratio))
        ensures
            r.0 == position,
            r.1.num == 1 && r.1.den == 1,
            r.1.wf(),
    {
        (position, Ratio { num: 1, den: 1 })
    }
}

/// The outcome of sampling a point on a placed shape's surface.
pub enum SurfaceSample {
    /// A fully determined point with its exact density.
    At { point: Vec3, pdf: Ratio },
    /// A point on a sphere: the direction is left to the uniform sphere
    /// sampler (a trigonometric map owned by the shell); the density is that
    /// sampler's, `1/(4*pi)`.
    OnSphere { center: Vec3, radius: i64 },
}

/// Uniform surface sampling across shape variants, dispatching to the
/// sampler each shape supports.
pub struct UniformShapeSampler;

impl UniformShapeSampler {
    /// Samples a surface point of `shape` placed at `position` (translation,
    /// in thousandths).  Cuboids are sampled exactly here; balls report the
    /// sphere whose direction the shell draws; other shapes fall back to the
    /// origin approximation.
    pub fn sample(&self, shape: &Shape, position: Vec3, u: u32, v: u32) -> (r: SurfaceSample)
        requires
            shape.wf(),
            position.bounded(),
        ensures
            match *shape {
                Shape::Cuboid(c) => {
                    &&& c.total_area() > 0 ==> (r matches SurfaceSample::At { point, pdf } && {
                        &&& c.on_surface(
                            Vec3 {
                                x: (point.x - position.x) as i64,
                                y: (point.y - position.y) as i64,
                                z: (point.z - position.z) as i64,
                            },
                        )
                        &&& pdf.num == 1_000_000
                        &&& pdf.den == 2 * c.total_area()
                    })
                    &&& c.total_area() == 0 ==> (r matches SurfaceSample::At { point, pdf }
                        && point == position && pdf.num == 1 && pdf.den == 1)
                },
                Shape::Ball(b) => r matches SurfaceSample::OnSphere { center, radius }
                    && center == position && radius == b.radius,
                _ => r matches SurfaceSample::At { point, pdf } && point == position && pdf.num
                    == 1 && pdf.den == 1,
            },
    {
        match shape {
            Shape::Cuboid(c) => {
                let sampler = UniformCuboidSampler::new(c);
                let (local, pdf) = sampler.sample(u, v);
                let point = local.add(position);
                assert(local.x == point.x - position.x && local.y == point.y - position.y
                    && local.z == point.z - position.z);
                SurfaceSample::At { point, pdf }
            },
            Shape::Ball(b) => SurfaceSample::OnSphere { center: position, radius: b.radius },
            _ => {
                let (point, pdf) = OriginSampler.sample(position);
                SurfaceSample::At { point, pdf }
            },
        }
    }
}

} // verus!

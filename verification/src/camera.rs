//! The camera's pixel grid and the per-pixel Monte Carlo accumulator.
//!
//! The camera's world placement and the normalization of ray directions are
//! floating-point work owned by the shell; what stands here is the pixel
//! grid arithmetic — which point of the focal plane a (pixel, jitter) pair
//! aims at — and the running-mean accumulation of radiance samples, the
//! statistical driver of the whole renderer.

use vstd::prelude::*;
use crate::math::{Vec2, Vec3, FIX_ONE};
use crate::spectrum::{Spectrum, SpectrumRatio};

verus! {

/// Step-by-step construction of a camera.
pub struct CameraBuilder {
    pub focal_length: i64,
    pub screen_dimensions: Vec2,
    pub resolution_x: usize,
    pub resolution_y: usize,
}

/// A camera: focal length and physical screen size in thousandths of a
/// unit, resolution in pixels, and the derived physical size of one pixel.
pub struct Camera {
    pub focal_length: i64,
    pub screen_dimensions: Vec2,
    pub resolution_x: usize,
    pub resolution_y: usize,
    pub pixel_dimensions: Vec2,
}

impl CameraBuilder {
    /// The builder's bounds: a screen of at most a thousand units on a side
    /// and a resolution of at most a million pixels on a side, which keep
    /// every focal-plane coordinate inside `i64`.
    pub open spec fn wf(self) -> bool {
        &&& 0 <= self.focal_length <= 1_000_000
        &&& 0 <= self.screen_dimensions.x <= 1_000_000
        &&& 0 <= self.screen_dimensions.y <= 1_000_000
        &&& 0 < self.resolution_x <= 1_000_000
        &&& 0 < self.resolution_y <= 1_000_000
    }

    pub fn new() -> (b: CameraBuilder)
        ensures
            b.focal_length == FIX_ONE,
            b.screen_dimensions.x == FIX_ONE && b.screen_dimensions.y == FIX_ONE,
            b.resolution_x == 100 && b.resolution_y == 100,
            b.wf(),
    {
        CameraBuilder {
            focal_length: FIX_ONE,
            screen_dimensions: Vec2 { x: FIX_ONE, y: FIX_ONE },
            resolution_x: 100,
            resolution_y: 100,
        }
    }

    pub fn focal_length(self, new_focal_length: i64) -> (b: CameraBuilder)
        requires
            0 <= new_focal_length <= 1_000_000,
        ensures
            b.focal_length == new_focal_length,
            b.screen_dimensions == self.screen_dimensions,
            b.resolution_x == self.resolution_x && b.resolution_y == self.resolution_y,
    {
        CameraBuilder { focal_length: new_focal_length, ..self }
    }

    pub fn screen_dimensions(self, new_dimensions: Vec2) -> (b: CameraBuilder)
        requires
            0 <= new_dimensions.x <= 1_000_000,
            0 <= new_dimensions.y <= 1_000_000,
        ensures
            b.screen_dimensions == new_dimensions,
            b.focal_length == self.focal_length,
            b.resolution_x == self.resolution_x && b.resolution_y == self.resolution_y,
    {
        CameraBuilder { screen_dimensions: new_dimensions, ..self }
    }

    pub fn resolution(self, new_x: usize, new_y: usize) -> (b: CameraBuilder)
        requires
            0 < new_x <= 1_000_000,
            0 < new_y <= 1_000_000,
        ensures
            b.resolution_x == new_x && b.resolution_y == new_y,
            b.focal_length == self.focal_length,
            b.screen_dimensions == self.screen_dimensions,
    {
        CameraBuilder { resolution_x: new_x, resolution_y: new_y, ..self }
    }

    /// Derives the physical size of one pixel: the screen size divided by
    /// the resolution, rounded down to thousandths.
    pub fn build(self) -> (c: Camera)
        requires
            self.wf(),
        ensures
            c.focal_length == self.focal_length,
            c.screen_dimensions == self.screen_dimensions,
            c.resolution_x == self.resolution_x && c.resolution_y == self.resolution_y,
            c.pixel_dimensions.x == self.screen_dimensions.x as int / self.resolution_x as int,
            c.pixel_dimensions.y == self.screen_dimensions.y as int / self.resolution_y as int,
            c.wf(),
    {
        let pixel_dimensions = Vec2 {
            x: self.screen_dimensions.x / (self.resolution_x as i64),
            y: self.screen_dimensions.y / (self.resolution_y as i64),
        };
        Camera {
            focal_length: self.focal_length,
            screen_dimensions: self.screen_dimensions,
            resolution_x: self.resolution_x,
            resolution_y: self.resolution_y,
            pixel_dimensions,
        }
    }
}

impl Camera {
    pub open spec fn wf(self) -> bool {
        &&& 0 <= self.focal_length <= 1_000_000
        &&& 0 <= self.screen_dimensions.x <= 1_000_000
        &&& 0 <= self.screen_dimensions.y <= 1_000_000
        &&& 0 < self.resolution_x <= 1_000_000
        &&& 0 < self.resolution_y <= 1_000_000
        &&& 0 <= self.pixel_dimensions.x <= 1_000_000
        &&& 0 <= self.pixel_dimensions.y <= 1_000_000
    }

    /// The point on the focal plane, in the camera's local frame, that the
    /// sample at pixel `(x, y)` with sub-pixel offset `jitter` aims at: the
    /// pixel's signed offset from the screen center times the pixel size
    /// (the y axis pointing up while pixel rows count down), plus the
    /// jitter, at focal-length depth.  The shell normalizes this into a ray
    /// direction and transforms it by the camera's placement.
    pub fn ray_target(&self, x: usize, y: usize, jitter: Vec2) -> (r: Vec3)
        requires
            self.wf(),
            x < self.resolution_x,
            y < self.resolution_y,
            0 <= jitter.x <= 1_000_000,
            0 <= jitter.y <= 1_000_000,
        ensures
            r.x == (x - self.resolution_x as int / 2) * self.pixel_dimensions.x + jitter.x,
            r.y == -((y - self.resolution_y as int / 2) as int) * self.pixel_dimensions.y
                + jitter.y,
            r.z == self.focal_length,
    {
        let x_coord: i64 = x as i64 - (self.resolution_x as i64) / 2;
        let y_coord: i64 = -((y as i64) - (self.resolution_y as i64) / 2);
        let px = self.pixel_dimensions.x;
        let py = self.pixel_dimensions.y;
        assert(-1_000_000_000_000 <= x_coord * px <= 1_000_000_000_000 && -1_000_000_000_000
            <= y_coord * py <= 1_000_000_000_000) by (nonlinear_arith)
            requires
                -1_000_000 <= x_coord <= 1_000_000,
                -1_000_000 <= y_coord <= 1_000_000,
                0 <= px <= 1_000_000,
                0 <= py <= 1_000_000,
        ;
        Vec3 { x: x_coord * px + jitter.x, y: y_coord * py + jitter.y, z: self.focal_length }
    }
}

/// Componentwise sum of a sequence of spectra, red channel.
pub open spec fn spectrum_sum_r(s: Seq<Spectrum>) -> int
    decreases s.len(),
{
    if s.len() == 0 {
        0
    } else {
        spectrum_sum_r(s.drop_last()) + s.last().r
    }
}

/// Componentwise sum of a sequence of spectra, green channel.
pub open spec fn spectrum_sum_g(s: Seq<Spectrum>) -> int
    decreases s.len(),
{
    if s.len() == 0 {
        0
    } else {
        spectrum_sum_g(s.drop_last()) + s.last().g
    }
}

/// Componentwise sum of a sequence of spectra, blue channel.
pub open spec fn spectrum_sum_b(s: Seq<Spectrum>) -> int
    decreases s.len(),
{
    if s.len() == 0 {
        0
    } else {
        spectrum_sum_b(s.drop_last()) + s.last().b
    }
}

/// The per-pixel Monte Carlo accumulator.  Its state is O(1) however many
/// samples are folded in, and its mean is exact: the fraction
/// `total / count` is the arithmetic mean of everything folded so far.
pub struct RunningMean {
    pub total: Spectrum,
    pub count: u64,
    /// The samples folded in so far, carried as ghost history so the mean
    /// can be stated against it.
    pub history: Ghost<Seq<Spectrum>>,
}

impl RunningMean {
    /// The accumulator's invariant: the count matches the history, every
    /// recorded sample was bounded, and the total is the componentwise sum
    /// of the history — which bounds it by `count` bounded samples, keeping
    /// the next fold free of overflow.
    pub open spec fn wf(self) -> bool {
        &&& self.count == self.history@.len()
        &&& self.count <= 1_000_000_000
        &&& self.total.r == spectrum_sum_r(self.history@)
        &&& self.total.g == spectrum_sum_g(self.history@)
        &&& self.total.b == spectrum_sum_b(self.history@)
        &&& forall|i: int|
            0 <= i < self.history@.len() ==> (#[trigger] self.history@[i]).bounded()
    }

    pub fn new() -> (m: RunningMean)
        ensures
            m.wf(),
            m.count == 0,
            m.history@ == Seq::<Spectrum>::empty(),
    {
        RunningMean {
            total: Spectrum { r: 0, g: 0, b: 0 },
            count: 0,
            history: Ghost(Seq::empty()),
        }
    }

    /// Total magnitude bound implied by the invariant.
    proof fn lemma_total_bounded(self)
        requires
            self.wf(),
        ensures
            -1_000_000_000 * self.history@.len() <= self.total.r <= 1_000_000_000
                * self.history@.len(),
            -1_000_000_000 * self.history@.len() <= self.total.g <= 1_000_000_000
                * self.history@.len(),
            -1_000_000_000 * self.history@.len() <= self.total.b <= 1_000_000_000
                * self.history@.len(),
    {
        lemma_spectrum_sum_bounded(self.history@);
    }

    /// Folds one radiance sample into the pixel's estimate.
    pub fn fold(&mut self, sample: Spectrum)
        requires
            old(self).wf(),
            old(self).count < 1_000_000_000,
            sample.bounded(),
        ensures
            final(self).wf(),
            final(self).count == old(self).count + 1,
            final(self).history@ == old(self).history@.push(sample),
            final(self).total.r == old(self).total.r + sample.r,
            final(self).total.g == old(self).total.g + sample.g,
            final(self).total.b == old(self).total.b + sample.b,
    {
        proof {
            self.lemma_total_bounded();
        }
        self.total = Spectrum {
            r: self.total.r + sample.r,
            g: self.total.g + sample.g,
            b: self.total.b + sample.b,
        };
        self.count = self.count + 1;
        proof {
            self.history@ = self.history@.push(sample);
            assert(self.history@.drop_last() =~= old(self).history@);
        }
    }

    /// The exact mean of the folded samples: the sum over the count, with
    /// the denominator intact.
    pub fn mean(&self) -> (r: SpectrumRatio)
        requires
            self.wf(),
            self.count > 0,
        ensures
            r.num == self.total,
            r.den == self.count,
            r.wf(),
    {
        SpectrumRatio { num: self.total, den: self.count as i64 }
    }
}

/// Every channel sum of bounded samples is bounded by the sample count.
proof fn lemma_spectrum_sum_bounded(s: Seq<Spectrum>)
    requires
        forall|i: int| 0 <= i < s.len() ==> (#[trigger] s[i]).bounded(),
    ensures
        -1_000_000_000 * s.len() <= spectrum_sum_r(s) <= 1_000_000_000 * s.len(),
        -1_000_000_000 * s.len() <= spectrum_sum_g(s) <= 1_000_000_000 * s.len(),
        -1_000_000_000 * s.len() <= spectrum_sum_b(s) <= 1_000_000_000 * s.len(),
    decreases s.len(),
{
    if s.len() > 0 {
        assert(forall|i: int|
            0 <= i < s.drop_last().len() ==> (#[trigger] s.drop_last()[i]).bounded());
        lemma_spectrum_sum_bounded(s.drop_last());
        assert(s.last().bounded());
    }
}

/// Sum of a sequence of integers (one color channel of a sample stream).
pub open spec fn seq_sum(s: Seq<int>) -> int
    decreases s.len(),
{
    if s.len() == 0 {
        0
    } else {
        seq_sum(s.drop_last()) + s.last()
    }
}

/// Numerator of the running mean after `k` samples, computed exactly as the
/// streaming pixel loop computes it: `mean_k = (mean_{k-1} * (k-1) + s_k) / k`,
/// carried as an exact fraction instead of rounding each division.
pub open spec fn running_mean_num(s: Seq<int>, k: nat) -> int
    decreases k,
{
    if k == 0 {
        0
    } else {
        running_mean_num(s, (k - 1) as nat) * (k - 1) + running_mean_den(s, (k - 1) as nat) * s[
            k - 1
        ]
    }
}

/// Denominator of the running mean after `k` samples under the same
/// streaming recurrence.
pub open spec fn running_mean_den(s: Seq<int>, k: nat) -> int
    decreases k,
{
    if k == 0 {
        1
    } else {
        running_mean_den(s, (k - 1) as nat) * k
    }
}

/// The running-mean recurrence is exact: for every `k`, the fraction it
/// accumulates equals the arithmetic mean of the first `k` samples — that
/// is, `num_k / den_k == seq_sum(first k) / k`, stated here with the
/// denominators cross-multiplied.
pub proof fn lemma_running_mean_is_arithmetic_mean(s: Seq<int>, k: nat)
    requires
        k <= s.len(),
    ensures
        running_mean_den(s, k) > 0,
        running_mean_num(s, k) * k == seq_sum(s.take(k as int)) * running_mean_den(s, k),
    decreases k,
{
    if k == 0 {
        assert(s.take(0) =~= Seq::<int>::empty());
    } else {
        let j = (k - 1) as nat;
        lemma_running_mean_is_arithmetic_mean(s, j);
        let nj = running_mean_num(s, j);
        let dj = running_mean_den(s, j);
        let sumj = seq_sum(s.take(j as int));
        let x = s[j as int];
        assert(s.take(k as int).drop_last() =~= s.take(j as int));
        assert(s.take(k as int).last() == x);
        assert(seq_sum(s.take(k as int)) == sumj + x);
        assert(running_mean_num(s, k) == nj * (k - 1) + dj * x);
        assert(running_mean_den(s, k) == dj * k);
        assert(dj * k > 0) by (nonlinear_arith)
            requires
                dj > 0,
                k >= 1,
        ;
        assert((nj * (k - 1) + dj * x) * k == (sumj + x) * (dj * k)) by (nonlinear_arith)
            requires
                nj * (k - 1) == sumj * dj,
        ;
    }
}

} // verus!

//! The integrators: the recursive path-tracing estimator's per-bounce
//! decisions and exact weight bookkeeping, and the ambient-occlusion and
//! normal-visualization probes.
//!
//! Ray casting itself is the collision pipeline's work; each cast's result
//! comes back as an object index (or nothing), and everything the estimator
//! decides from it — whether emission counts, whether a light is sampled,
//! when Russian roulette ends the path, and by which exact weight a
//! surviving path is scaled — is verified here.  Weights are exact
//! fractions; the pi shared between a material's value and its sampler's
//! density cancels symbolically and provably rather than numerically.

use vstd::prelude::*;
use crate::math::{Vec3, FIX_ONE};
use crate::sampling::{Density, UniformHemisphereSampler};
use crate::scene::{Emission, Scene};
use crate::shaders::{Bsdf, Reflectance};
use crate::spectrum::{Ratio, Spectrum, SpectrumRatio};

verus! {

/// What one bounce of the path tracer must do, decided from the hit alone.
pub struct BouncePlan {
    /// Emission to add, scaled by the path throughput: present exactly when
    /// the hit object is emissive and emission currently counts.
    pub emitted: Option<Emission>,
    /// The hit object's material, when it has one.
    pub material: Option<Bsdf>,
    /// Whether to sample a light (next-event estimation) at this hit.
    pub sample_light: bool,
    /// Whether the path may continue into roulette and material sampling.
    pub continue_path: bool,
}

/// The recursive path-tracing estimator: emission, next-event light
/// sampling, material sampling and Russian-roulette termination.
pub struct PathTracingIntegrator {
    /// Roulette survival threshold in thousandths: a path survives a
    /// roulette draw below this.
    pub roulette_threshold: i64,
}

impl PathTracingIntegrator {
    pub open spec fn wf(self) -> bool {
        0 < self.roulette_threshold <= FIX_ONE
    }

    pub fn new() -> (s: PathTracingIntegrator)
        ensures
            s.roulette_threshold == 900,
            s.wf(),
    {
        PathTracingIntegrator { roulette_threshold: 900 }
    }

    /// The same integrator with a chosen roulette threshold; `FIX_ONE`
    /// disables roulette loss entirely.
    pub fn with_threshold(threshold: i64) -> (s: PathTracingIntegrator)
        requires
            0 < threshold <= FIX_ONE,
        ensures
            s.roulette_threshold == threshold,
            s.wf(),
    {
        PathTracingIntegrator { roulette_threshold: threshold }
    }

    /// Decides one bounce from the nearest-hit result.  A miss contributes
    /// nothing and ends the path.  On a hit: emission is added exactly when
    /// the object is emissive and emission currently counts; light sampling
    /// and path continuation happen exactly when the object has a material
    /// (an emissive object without one is an opaque light).
    pub fn bounce_plan(&self, scene: &Scene, hit: Option<usize>, count_emission: bool) -> (r:
        BouncePlan)
        requires
            scene.wf(),
            hit matches Some(i) ==> i < scene.objects@.len(),
        ensures
            hit is None ==> r.emitted is None && r.material is None && !r.sample_light
                && !r.continue_path,
            hit matches Some(i) ==> {
                &&& r.emitted == if count_emission {
                    scene.objects@[i as int].data.emission
                } else {
                    None::<Emission>
                }
                &&& r.material == scene.objects@[i as int].data.bsdf
                &&& r.sample_light == (scene.objects@[i as int].data.bsdf is Some)
                &&& r.continue_path == (scene.objects@[i as int].data.bsdf is Some)
            },
    {
        match hit {
            None => BouncePlan {
                emitted: None,
                material: None,
                sample_light: false,
                continue_path: false,
            },
            Some(i) => {
                let data = &self.object_data(scene, i).data;
                let emitted = if count_emission {
                    data.emission
                } else {
                    None
                };
                let has_material = matches!(data.bsdf, Some(_));
                BouncePlan {
                    emitted,
                    material: data.bsdf,
                    sample_light: has_material,
                    continue_path: has_material,
                }
            },
        }
    }

    /// Looks up a hit object in the arena.
    fn object_data<'a>(&self, scene: &'a Scene, i: usize) -> (r: &'a crate::scene::WorldObject)
        requires
            i < scene.objects@.len(),
        ensures
            *r == scene.objects@[i as int],
    {
        &scene.objects[i]
    }

    /// Whether emission counts at the next hit: it does exactly when this
    /// bounce was purely specular, since light sampling covers the direct
    /// illumination of every diffuse bounce but never a specular one.
    pub fn next_count_emission(&self, diffuse: bool) -> (r: bool)
        ensures
            r == !diffuse,
    {
        !diffuse
    }

    /// Russian roulette: a draw (in thousandths, uniform over `[0, FIX_ONE)`)
    /// at or above the threshold terminates the path.  Exactly
    /// `roulette_threshold` of the `FIX_ONE` possible draws survive, so the
    /// survival probability is exactly `roulette_threshold / FIX_ONE` — the
    /// fraction `survival_weight` divides back out.
    pub fn roulette_stops(&self, draw: i64) -> (r: bool)
        requires
            self.wf(),
            0 <= draw < FIX_ONE,
        ensures
            r == (draw >= self.roulette_threshold),
    {
        draw >= self.roulette_threshold
    }

    /// The weight that keeps roulette unbiased: one over the survival
    /// probability, kept as the exact fraction `FIX_ONE / threshold`.
    pub fn survival_weight(&self) -> (r: Ratio)
        requires
            self.wf(),
        ensures
            r.num == FIX_ONE,
            r.den == self.roulette_threshold,
            r.wf(),
    {
        Ratio { num: FIX_ONE, den: self.roulette_threshold }
    }

    /// The exact fraction `throughput_factor` assembles: numerators
    /// `value * (cos(theta) if diffuse) * FIX_ONE`, denominator
    /// `density * survival threshold`.
    pub open spec fn factor_spec(self, value: Reflectance, cos_theta: i64, density: Density,
        diffuse: bool) -> SpectrumRatio {
        SpectrumRatio {
            num: Spectrum {
                r: (value.spectrum.r * (if diffuse { cos_theta as int } else { FIX_ONE as int })
                    * FIX_ONE) as i64,
                g: (value.spectrum.g * (if diffuse { cos_theta as int } else { FIX_ONE as int })
                    * FIX_ONE) as i64,
                b: (value.spectrum.b * (if diffuse { cos_theta as int } else { FIX_ONE as int })
                    * FIX_ONE) as i64,
            },
            den: (density.coef * self.roulette_threshold) as i64,
        }
    }

    /// The factor a surviving bounce multiplies into the path throughput:
    /// `value * (cos(theta) if diffuse) / (density * survival)`, assembled
    /// exactly.  The material's value and its sampler's density must share
    /// the same pi factor, which therefore cancels: the result is the plain
    /// fraction below, denoting `num / (FIX_ONE * den)` in real units.
    pub fn throughput_factor(&self, value: Reflectance, cos_theta: i64, density: Density,
        diffuse: bool) -> (r: SpectrumRatio)
        requires
            self.wf(),
            value.spectrum.is_albedo(),
            value.per_pi == density.over_pi,
            0 < density.coef <= 1_000_000_000,
            diffuse ==> 0 <= cos_theta <= FIX_ONE,
        ensures
            r == self.factor_spec(value, cos_theta, density, diffuse),
            r.num.r == value.spectrum.r * (if diffuse { cos_theta } else { FIX_ONE as i64 })
                * FIX_ONE,
            r.num.g == value.spectrum.g * (if diffuse { cos_theta } else { FIX_ONE as i64 })
                * FIX_ONE,
            r.num.b == value.spectrum.b * (if diffuse { cos_theta } else { FIX_ONE as i64 })
                * FIX_ONE,
            r.den == density.coef * self.roulette_threshold,
            r.wf(),
    {
        let scale: i64 = if diffuse {
            cos_theta
        } else {
            FIX_ONE
        };
        let s = value.spectrum;
        assert(0 <= s.r * scale * 1000 <= 1_000_000_000_000 && 0 <= s.g * scale * 1000
            <= 1_000_000_000_000 && 0 <= s.b * scale * 1000 <= 1_000_000_000_000)
            by (nonlinear_arith)
            requires
                0 <= s.r <= 1000,
                0 <= s.g <= 1000,
                0 <= s.b <= 1000,
                0 <= scale <= 1000,
        ;
        assert(0 < density.coef * self.roulette_threshold <= 1_000_000_000_000)
            by (nonlinear_arith)
            requires
                0 < density.coef <= 1_000_000_000,
                0 < self.roulette_threshold <= 1000,
        ;
        SpectrumRatio {
            num: Spectrum { r: s.r * scale * FIX_ONE, g: s.g * scale * FIX_ONE, b: s.b * scale
                * FIX_ONE },
            den: density.coef * self.roulette_threshold,
        }
    }
}

/// With roulette disabled (threshold `FIX_ONE`), a specular bounce's
/// throughput factor is exactly one: the mirror's unit value and unit
/// density (the pair its `sample` returns) lose nothing, so a reflected
/// wall's albedo comes through unattenuated.
pub proof fn lemma_mirror_factor_is_unit(integrator: PathTracingIntegrator, value: Reflectance,
    density: Density, cos_theta: i64)
    requires
        integrator.roulette_threshold == FIX_ONE,
        value.spectrum.r == FIX_ONE,
        value.spectrum.g == FIX_ONE,
        value.spectrum.b == FIX_ONE,
        density.coef == FIX_ONE,
    ensures
        integrator.factor_spec(value, cos_theta, density, false).equiv(
            SpectrumRatio {
                num: Spectrum { r: FIX_ONE as i64, g: FIX_ONE as i64, b: FIX_ONE as i64 },
                den: 1,
            },
        ),
{
    let r = integrator.factor_spec(value, cos_theta, density, false);
    assert(FIX_ONE == 1000);
    assert(r.num.r == 1_000_000_000 && r.num.g == 1_000_000_000 && r.num.b == 1_000_000_000);
    assert(r.den == 1_000_000);
}

/// A diffuse bounce sampled by the cosine-weighted sampler multiplies the
/// throughput by exactly `albedo / survival`: the drawn direction's cosine
/// equals the density's coefficient and both carry pi, so cosine and pi
/// cancel out of `value * cos / (density * survival)` with no rounding.
pub proof fn lemma_lambert_factor_cancels(integrator: PathTracingIntegrator, albedo: Spectrum,
    cos_theta: i64, density: Density)
    requires
        integrator.wf(),
        albedo.is_albedo(),
        0 < cos_theta <= FIX_ONE,
        density.coef == cos_theta,
    ensures
        integrator.factor_spec(
            Reflectance { spectrum: albedo, per_pi: true },
            cos_theta,
            density,
            true,
        ).equiv(
            SpectrumRatio {
                num: Spectrum {
                    r: (albedo.r * FIX_ONE) as i64,
                    g: (albedo.g * FIX_ONE) as i64,
                    b: (albedo.b * FIX_ONE) as i64,
                },
                den: integrator.roulette_threshold,
            },
        ),
{
    let t = integrator.roulette_threshold as int;
    let r = integrator.factor_spec(Reflectance { spectrum: albedo, per_pi: true }, cos_theta,
        density, true);
    assert(r.num.r == albedo.r * cos_theta * 1000 && r.num.g == albedo.g * cos_theta * 1000
        && r.num.b == albedo.b * cos_theta * 1000 && r.den == cos_theta * t) by (nonlinear_arith)
        requires
            r == integrator.factor_spec(
                Reflectance { spectrum: albedo, per_pi: true },
                cos_theta,
                density,
                true,
            ),
            0 <= albedo.r <= 1000,
            0 <= albedo.g <= 1000,
            0 <= albedo.b <= 1000,
            0 < cos_theta <= 1000,
            0 < t <= 1000,
            t == integrator.roulette_threshold,
            density.coef == cos_theta,
    ;
    assert(albedo.r * cos_theta * 1000 * t == albedo.r * 1000 * (cos_theta * t))
        by (nonlinear_arith)
    ;
    assert(albedo.g * cos_theta * 1000 * t == albedo.g * 1000 * (cos_theta * t))
        by (nonlinear_arith)
    ;
    assert(albedo.b * cos_theta * 1000 * t == albedo.b * 1000 * (cos_theta * t))
        by (nonlinear_arith)
    ;
}

/// The sum of the roulette-weighted estimates over the first `k` of the
/// `n` equally likely draws, scaled by the threshold `t`: a draw below `t`
/// survives and contributes `v * n` (its estimate `v * n / t` times `t`),
/// any other draw contributes nothing.
pub open spec fn roulette_estimate_sum(v: int, t: int, n: int, k: int) -> int
    decreases k,
{
    if k <= 0 {
        0
    } else {
        roulette_estimate_sum(v, t, n, k - 1) + if k - 1 < t {
            v * n
        } else {
            0
        }
    }
}

proof fn lemma_roulette_sum_partial(v: int, t: int, n: int, k: int)
    requires
        0 <= t,
        0 <= k,
    ensures
        roulette_estimate_sum(v, t, n, k) == v * n * (if k <= t {
            k
        } else {
            t
        }),
    decreases k,
{
    if k > 0 {
        lemma_roulette_sum_partial(v, t, n, k - 1);
        if k <= t {
            assert(v * n * k == v * n * (k - 1) + v * n) by (nonlinear_arith);
        }
    }
}

/// Russian roulette is unbiased whatever threshold is chosen: over all `n`
/// equally likely draws, a synthetic integrator worth the constant `v`
/// yields estimates (each `v * n / t` on survival, zero otherwise) whose
/// sum, times the threshold `t`, is exactly `v * n * t` — so their mean is
/// exactly `v`, independent of `t`.
pub proof fn lemma_roulette_unbiased(v: int, t: int, n: int)
    requires
        0 < t <= n,
    ensures
        roulette_estimate_sum(v, t, n, n) == v * n * t,
{
    lemma_roulette_sum_partial(v, t, n, n);
}

/// The exact weight of one next-event light sample.  It denotes the RGB
/// value `(r, g, b) / den`, divided by pi when `over_pi`, in real radiance
/// units: the material's evaluated reflectance times the emitter's
/// emission, divided by the combined density — emitter-selection
/// probability (`1/n`) times surface-sampling density times the squared
/// distance.
pub struct LightContribution {
    pub r: i128,
    pub g: i128,
    pub b: i128,
    pub den: i128,
    pub over_pi: bool,
}

impl LightContribution {
    pub open spec fn wf(self) -> bool {
        self.den > 0
    }
}

impl PathTracingIntegrator {
    /// Assembles the weight of an unoccluded light sample exactly: the
    /// numerator multiplies the reflectance value, the emission intensity
    /// and color, the emitter count `n` and the density's own denominator;
    /// the denominator multiplies the density's numerator, the squared
    /// distance and one scale normalization.  Nothing is rounded; the pi
    /// under a diffuse reflectance value stays symbolic.
    pub fn nee_contribution(&self, value: Reflectance, emission: Emission, n_emitters: usize,
        pdf: Ratio, dist: i64) -> (r: LightContribution)
        requires
            value.spectrum.is_albedo(),
            0 <= emission.intensity <= 1_000_000,
            emission.color.is_albedo(),
            0 < n_emitters <= 1_000_000,
            pdf.wf(),
            0 < pdf.num <= 1_000_000,
            pdf.den <= 1_000_000_000_000_000_000,
            0 < dist <= 1_000_000_000,
        ensures
            r.r == value.spectrum.r * emission.intensity * emission.color.r * n_emitters
                * pdf.den,
            r.g == value.spectrum.g * emission.intensity * emission.color.g * n_emitters
                * pdf.den,
            r.b == value.spectrum.b * emission.intensity * emission.color.b * n_emitters
                * pdf.den,
            r.den == FIX_ONE * pdf.num * dist * dist,
            r.over_pi == value.per_pi,
            r.wf(),
    {
        let vr: i128 = value.spectrum.r as i128;
        let vg: i128 = value.spectrum.g as i128;
        let vb: i128 = value.spectrum.b as i128;
        let intensity: i128 = emission.intensity as i128;
        let cr: i128 = emission.color.r as i128;
        let cg: i128 = emission.color.g as i128;
        let cb: i128 = emission.color.b as i128;
        let n: i128 = n_emitters as i128;
        let pd: i128 = pdf.den as i128;
        let pn: i128 = pdf.num as i128;
        let d: i128 = dist as i128;
        proof {
            lemma_nee_product_in_range(vr as int, intensity as int, cr as int, n as int,
                pd as int);
            lemma_nee_product_in_range(vg as int, intensity as int, cg as int, n as int,
                pd as int);
            lemma_nee_product_in_range(vb as int, intensity as int, cb as int, n as int,
                pd as int);
        }
        assert(0 < 1000 * pn && 1000 * pn <= 1_000_000_000 && 0 < 1000 * pn * d && 1000 * pn * d
            <= 1_000_000_000_000_000_000 && 0 < 1000 * pn * d * d && 1000 * pn * d * d
            <= 1_000_000_000_000_000_000_000_000_000) by (nonlinear_arith)
            requires
                0 < pn <= 1_000_000,
                0 < d <= 1_000_000_000,
        ;
        LightContribution {
            r: vr * intensity * cr * n * pd,
            g: vg * intensity * cg * n * pd,
            b: vb * intensity * cb * n * pd,
            den: (FIX_ONE as i128) * pn * d * d,
            over_pi: value.per_pi,
        }
    }
}

/// Every prefix product of one light-sample numerator stays inside `i128`.
proof fn lemma_nee_product_in_range(v: int, intensity: int, c: int, n: int, pd: int)
    requires
        0 <= v <= 1000,
        0 <= intensity <= 1_000_000,
        0 <= c <= 1000,
        0 < n <= 1_000_000,
        0 < pd <= 1_000_000_000_000_000_000,
    ensures
        0 <= v * intensity <= 1_000_000_000,
        0 <= v * intensity * c <= 1_000_000_000_000,
        0 <= v * intensity * c * n <= 1_000_000_000_000_000_000,
        0 <= v * intensity * c * n * pd
            <= 1_000_000_000_000_000_000_000_000_000_000_000_000,
{
    assert(0 <= v * intensity <= 1_000_000_000 && 0 <= v * intensity * c
        <= 1_000_000_000_000 && 0 <= v * intensity * c * n <= 1_000_000_000_000_000_000 && 0
        <= v * intensity * c * n * pd <= 1_000_000_000_000_000_000_000_000_000_000_000_000)
        by (nonlinear_arith)
        requires
            0 <= v <= 1000,
            0 <= intensity <= 1_000_000,
            0 <= c <= 1000,
            0 < n <= 1_000_000,
            0 < pd <= 1_000_000_000_000_000_000,
    ;
}

/// Picks the nearest of a cast's hits: the index of the smallest time of
/// impact, or nothing when there was no hit at all — an explicit optional,
/// never a sentinel time standing for "no result yet".
pub fn nearest_hit_index(tois: &Vec<i64>) -> (r: Option<usize>)
    ensures
        r is None <==> tois@.len() == 0,
        r matches Some(i) ==> i < tois@.len() && forall|j: int|
            0 <= j < tois@.len() ==> tois@[i as int] <= #[trigger] tois@[j],
{
    if tois.len() == 0 {
        return None;
    }
    let mut best: usize = 0;
    let mut k: usize = 1;
    while k < tois.len()
        invariant
            0 <= best < tois@.len(),
            best < k <= tois@.len(),
            forall|j: int| 0 <= j < k ==> tois@[best as int] <= #[trigger] tois@[j],
        decreases tois@.len() - k,
    {
        if tois[k] < tois[best] {
            best = k;
        }
        k = k + 1;
    }
    Some(best)
}

/// Ambient occlusion: one hemisphere ray per hit, full visibility or none.
pub struct AOIntegrator {
    /// The occlusion range the secondary ray is tested within (thousandths).
    pub range: i64,
}

impl AOIntegrator {
    pub fn new(range: i64) -> (s: AOIntegrator)
        ensures
            s.range == range,
    {
        AOIntegrator { range }
    }

    /// The probe's value once the casts are in: nothing was hit, or the
    /// secondary hemisphere ray was occluded within range, gives black;
    /// otherwise the hemisphere density `1/(2*pi)` divided by the sampler's
    /// own density `1/(2*pi)` — exactly one — gives white.
    pub fn shade(&self, hit: bool, occluded: bool) -> (r: Spectrum)
        ensures
            hit && !occluded ==> r == (Spectrum {
                r: FIX_ONE as i64,
                g: FIX_ONE as i64,
                b: FIX_ONE as i64,
            }),
            !(hit && !occluded) ==> r.is_black(),
    {
        if hit && !occluded {
            let sampler = UniformHemisphereSampler;
            let density = sampler.density();
            let brightness = Density { coef: 500, over_pi: true }.div(density);
            assert(brightness.num == brightness.den);
            Spectrum {
                r: FIX_ONE * brightness.num / brightness.den,
                g: FIX_ONE * brightness.num / brightness.den,
                b: FIX_ONE * brightness.num / brightness.den,
            }
        } else {
            Spectrum { r: 0, g: 0, b: 0 }
        }
    }
}

/// False-color visualization of hit normals.
pub struct NormalIntegrator;

impl NormalIntegrator {
    /// Maps the unit normal of the nearest hit (components in thousandths,
    /// within one) to the color `125 + 125 * n` per channel; a miss is
    /// black.
    pub fn shade(&self, hit_normal: Option<Vec3>) -> (r: Spectrum)
        requires
            hit_normal matches Some(n) ==> -FIX_ONE <= n.x <= FIX_ONE && -FIX_ONE <= n.y
                <= FIX_ONE && -FIX_ONE <= n.z <= FIX_ONE,
        ensures
            hit_normal is None ==> r.is_black(),
            hit_normal matches Some(n) ==> r.r == 125 * FIX_ONE + 125 * n.x && r.g == 125
                * FIX_ONE + 125 * n.y && r.b == 125 * FIX_ONE + 125 * n.z,
    {
        match hit_normal {
            None => Spectrum { r: 0, g: 0, b: 0 },
            Some(n) => Spectrum {
                r: 125 * FIX_ONE + 125 * n.x,
                g: 125 * FIX_ONE + 125 * n.y,
                b: 125 * FIX_ONE + 125 * n.z,
            },
        }
    }
}

} // verus!

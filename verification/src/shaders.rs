//! The material (BSDF) model: Lambertian diffuse and perfect mirror.
//!
//! Directions handed to a material are expressed in the local shading frame
//! whose z axis is the surface normal.  A reflectance value is kept in
//! symbolic form: `Reflectance { spectrum, per_pi }` denotes `spectrum`
//! divided by pi when `per_pi` is set, so the Lambertian `albedo/pi` is exact
//! and the pi cancels provably against a sampler density later, instead of
//! being rounded away.
//!
//! The Lambertian continuation direction is drawn by the cosine-weighted
//! hemisphere sampler, whose trigonometric map is floating-point work done by
//! the shell; the material then turns the drawn direction into its exact
//! value and density through `finish_sample`.  The mirror needs no such step:
//! its scatter is deterministic and complete here.

use vstd::prelude::*;
use crate::math::{Vec3, FIX_ONE};
use crate::sampling::Density;
use crate::spectrum::Spectrum;

verus! {

/// A reflectance: `spectrum` (thousandths), divided by pi when `per_pi`.
#[derive(Clone, Copy, Debug, PartialEq, Eq, Structural)]
pub struct Reflectance {
    pub spectrum: Spectrum,
    pub per_pi: bool,
}

impl Reflectance {
    pub open spec fn wf(self) -> bool {
        self.spectrum.bounded()
    }
}

/// A reflectance function over two local directions.
pub trait BxDF {
    fn eval(&self, dir1: &Vec3, dir2: &Vec3) -> Reflectance;
}

/// Marker for reflective distribution functions.
pub trait BRDF: BxDF {

}

/// Marker for transmissive distribution functions.
pub trait BTDF: BxDF {

}

/// Energy-conserving diffuse reflectance: `albedo/pi`, independent of the
/// pair of directions.
#[derive(Clone, Copy, Debug, PartialEq, Eq, Structural)]
pub struct LambertBRDF {
    pub albedo: Spectrum,
}

impl LambertBRDF {
    pub fn new(albedo: Spectrum) -> (s: LambertBRDF)
        ensures
            s.albedo == albedo,
    {
        LambertBRDF { albedo }
    }

    /// The value of this reflectance function: `albedo/pi`, whatever the
    /// directions.
    pub open spec fn value_spec(self) -> Reflectance {
        Reflectance { spectrum: self.albedo, per_pi: true }
    }

    /// Completes an importance sample whose direction was drawn from the
    /// cosine-weighted hemisphere sampler: the value is `albedo/pi` and the
    /// density is `cos(theta)/pi`, where `cos(theta)` is the drawn
    /// direction's z component in the shading frame.
    pub fn finish_sample(&self, local_dir: &Vec3) -> (r: (Reflectance, Density))
        requires
            0 <= local_dir.z <= FIX_ONE,
        ensures
            r.0 == self.value_spec(),
            r.1.coef == local_dir.z && r.1.over_pi,
            r.1.wf(),
    {
        (
            Reflectance { spectrum: self.albedo, per_pi: true },
            Density { coef: local_dir.z, over_pi: true },
        )
    }
}

impl BxDF for LambertBRDF {
    fn eval(&self, dir1: &Vec3, dir2: &Vec3) -> (r: Reflectance)
        ensures
            r == self.value_spec(),
    {
        Reflectance { spectrum: self.albedo, per_pi: true }
    }
}

impl BRDF for LambertBRDF {

}

/// Perfect specular reflection.  Random evaluation never hits its
/// measure-zero support, so `eval` is zero; `sample` is deterministic.
#[derive(Clone, Copy, Debug, PartialEq, Eq, Structural)]
pub struct MirrorBRDF {

}

impl MirrorBRDF {
    pub fn new() -> (s: MirrorBRDF) {
        MirrorBRDF {  }
    }

    /// Deterministic scatter: the incoming local direction `(a, b, c)` maps
    /// to exactly `(a, b, -c)`, with value one and density one.
    pub fn sample(&self, dir: &Vec3) -> (r: (Vec3, Reflectance, Density))
        requires
            dir.bounded(),
        ensures
            r.0.x == dir.x && r.0.y == dir.y && r.0.z == -dir.z,
            r.1.spectrum.r == FIX_ONE && r.1.spectrum.g == FIX_ONE && r.1.spectrum.b == FIX_ONE,
            !r.1.per_pi,
            r.2.coef == FIX_ONE && !r.2.over_pi,
            r.2.wf(),
    {
        (
            dir.reflect_z(),
            Reflectance {
                spectrum: Spectrum { r: FIX_ONE, g: FIX_ONE, b: FIX_ONE },
                per_pi: false,
            },
            Density { coef: FIX_ONE, over_pi: false },
        )
    }
}

impl BxDF for MirrorBRDF {
    fn eval(&self, dir1: &Vec3, dir2: &Vec3) -> (r: Reflectance)
        ensures
            r.spectrum.is_black(),
            !r.per_pi,
    {
        Reflectance { spectrum: Spectrum { r: 0, g: 0, b: 0 }, per_pi: false }
    }
}

impl BRDF for MirrorBRDF {

}

/// The diffuse material as seen by the integrator.
#[derive(Clone, Copy, Debug, PartialEq, Eq, Structural)]
pub struct LambertBSDF {
    pub brdf: LambertBRDF,
}

impl LambertBSDF {
    pub fn new(albedo: Spectrum) -> (s: LambertBSDF)
        ensures
            s.brdf.albedo == albedo,
    {
        LambertBSDF { brdf: LambertBRDF { albedo } }
    }

    pub fn eval(&self, dir1: &Vec3, dir2: &Vec3) -> (r: Reflectance)
        ensures
            r == self.brdf.value_spec(),
    {
        self.brdf.eval(dir1, dir2)
    }

    pub fn finish_sample(&self, local_dir: &Vec3) -> (r: (Reflectance, Density))
        requires
            0 <= local_dir.z <= FIX_ONE,
        ensures
            r.0 == self.brdf.value_spec(),
            r.1.coef == local_dir.z && r.1.over_pi,
            r.1.wf(),
    {
        self.brdf.finish_sample(local_dir)
    }

    pub fn is_diffuse(&self) -> (r: bool)
        ensures
            r,
    {
        true
    }
}

/// The specular material as seen by the integrator.
#[derive(Clone, Copy, Debug, PartialEq, Eq, Structural)]
pub struct MirrorBSDF {
    pub brdf: MirrorBRDF,
}

impl MirrorBSDF {
    pub fn new() -> (s: MirrorBSDF) {
        MirrorBSDF { brdf: MirrorBRDF {  } }
    }

    pub fn eval(&self, dir1: &Vec3, dir2: &Vec3) -> (r: Reflectance)
        ensures
            r.spectrum.is_black(),
            !r.per_pi,
    {
        self.brdf.eval(dir1, dir2)
    }

    pub fn sample(&self, dir: &Vec3) -> (r: (Vec3, Reflectance, Density))
        requires
            dir.bounded(),
        ensures
            r.0.x == dir.x && r.0.y == dir.y && r.0.z == -dir.z,
            r.1.spectrum.r == FIX_ONE && r.1.spectrum.g == FIX_ONE && r.1.spectrum.b == FIX_ONE,
            !r.1.per_pi,
            r.2.coef == FIX_ONE && !r.2.over_pi,
            r.2.wf(),
    {
        self.brdf.sample(dir)
    }

    pub fn is_diffuse(&self) -> (r: bool)
        ensures
            !r,
    {
        false
    }
}

/// The closed set of materials the integrator dispatches over.
#[derive(Clone, Copy, Debug, PartialEq, Eq, Structural)]
pub enum Bsdf {
    Lambert(LambertBSDF),
    Mirror(MirrorBSDF),
}

impl Bsdf {
    /// Whether this material scatters diffusely (and so is covered by light
    /// sampling) rather than specularly.
    pub open spec fn diffuse_spec(self) -> bool {
        self is Lambert
    }

    pub fn is_diffuse(&self) -> (r: bool)
        ensures
            r == self.diffuse_spec(),
    {
        match self {
            Bsdf::Lambert(m) => m.is_diffuse(),
            Bsdf::Mirror(m) => m.is_diffuse(),
        }
    }

    /// The value of `eval` on this material, whatever the directions.
    pub open spec fn eval_spec(self) -> Reflectance {
        match self {
            Bsdf::Lambert(m) => m.brdf.value_spec(),
            Bsdf::Mirror(_) => Reflectance {
                spectrum: Spectrum { r: 0, g: 0, b: 0 },
                per_pi: false,
            },
        }
    }

    pub fn eval(&self, dir1: &Vec3, dir2: &Vec3) -> (r: Reflectance)
        ensures
            r == self.eval_spec(),
    {
        match self {
            Bsdf::Lambert(m) => m.eval(dir1, dir2),
            Bsdf::Mirror(m) => m.eval(dir1, dir2),
        }
    }
}

/// A material as it stands in a scene description, before the scene build
/// turns it into its `Bsdf`.
#[derive(Clone, Copy, Debug, PartialEq, Eq, Structural)]
pub enum Shader {
    Lambert(Spectrum),
    Mirror,
}

impl Shader {
    /// The material this descriptor builds.
    pub open spec fn bsdf_spec(self) -> Bsdf {
        match self {
            Shader::Lambert(albedo) => Bsdf::Lambert(LambertBSDF { brdf: LambertBRDF { albedo } }),
            Shader::Mirror => Bsdf::Mirror(MirrorBSDF { brdf: MirrorBRDF {  } }),
        }
    }

    pub fn to_bsdf(self) -> (r: Bsdf)
        ensures
            r == self.bsdf_spec(),
    {
        match self {
            Shader::Lambert(albedo) => Bsdf::Lambert(LambertBSDF::new(albedo)),
            Shader::Mirror => Bsdf::Mirror(MirrorBSDF::new()),
        }
    }
}

} // verus!

//! Linear RGB radiance and reflectance values, and exact rational weights.
//!
//! A `Spectrum` component is an `i64` in thousandths (see [`crate::math`]).
//! Monte Carlo weights that arise from dividing by a probability density are
//! never rounded here: they are carried as `Ratio` (a scalar fraction) or
//! `SpectrumRatio` (a spectrum-valued fraction) with the denominator intact.

use vstd::prelude::*;
use crate::math::{in_range, FIX_ONE};

verus! {

/// A linear RGB triple, each component in thousandths.
#[derive(Clone, Copy, Debug, PartialEq, Eq, Structural)]
pub struct Spectrum {
    pub r: i64,
    pub g: i64,
    pub b: i64,
}

impl Spectrum {
    /// Every component is within `COORD_LIMIT`.
    pub open spec fn bounded(self) -> bool {
        in_range(self.r as int) && in_range(self.g as int) && in_range(self.b as int)
    }

    /// Every component is within one unit: a reflectance, not a radiance.
    pub open spec fn is_albedo(self) -> bool {
        0 <= self.r <= FIX_ONE && 0 <= self.g <= FIX_ONE && 0 <= self.b <= FIX_ONE
    }

    pub fn new(r: i64, g: i64, b: i64) -> (s: Spectrum)
        ensures
            s.r == r && s.g == g && s.b == b,
    {
        Spectrum { r, g, b }
    }

    pub open spec fn is_black(self) -> bool {
        self.r == 0 && self.g == 0 && self.b == 0
    }

}

/// An exact scalar fraction with a positive denominator.
#[derive(Clone, Copy, Debug, PartialEq, Eq, Structural)]
pub struct Ratio {
    pub num: i64,
    pub den: i64,
}

impl Ratio {
    pub open spec fn wf(self) -> bool {
        self.den > 0
    }

    pub fn new(num: i64, den: i64) -> (r: Ratio)
        requires
            den > 0,
        ensures
            r.num == num && r.den == den,
            r.wf(),
    {
        Ratio { num, den }
    }

}

/// A spectrum-valued fraction: three numerators over one positive denominator.
/// It denotes the RGB value `(num.r / den, num.g / den, num.b / den)` in
/// thousandths, kept exact rather than divided out.
#[derive(Clone, Copy, Debug, PartialEq, Eq, Structural)]
pub struct SpectrumRatio {
    pub num: Spectrum,
    pub den: i64,
}

impl SpectrumRatio {
    pub open spec fn wf(self) -> bool {
        self.den > 0
    }

    /// The two fractions denote the same RGB value.
    pub open spec fn equiv(self, other: SpectrumRatio) -> bool {
        &&& self.num.r * other.den == other.num.r * self.den
        &&& self.num.g * other.den == other.num.g * self.den
        &&& self.num.b * other.den == other.num.b * self.den
    }
}

} // verus!

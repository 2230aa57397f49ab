//! Core of an offline Monte Carlo path tracer.
//!
//! All quantities in this crate are exact fixed-point values: a scalar is an
//! `i64` counting thousandths of a unit (see [`math::FIX_ONE`]), and every
//! probability density or radiance weight that a renderer divides by is kept
//! in exact rational or symbolic form.  The floating-point shell around this
//! core (trigonometric samplers, the collision world, image output) consumes
//! these values; the estimator bookkeeping itself is verified here.

pub mod camera;
pub mod integrators;
pub mod math;
pub mod spectrum;
pub mod sampling;
pub mod shaders;
pub mod scene;
pub mod shapes;

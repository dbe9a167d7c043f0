// Verified core of a Monte Carlo path tracer: render settings, the storage
// order of pixels, the decisions of the per-path radiance estimator (bounce
// budget and termination), and the plain-text pixmap encoding.
use vstd::prelude::*;

pub mod config;
pub mod integrator;
pub mod ppm;
pub mod raster;

verus! {

} // verus!

//! The deciding core of a Monte Carlo path tracer.
//!
//! A path tracer computes in floating point and decides by comparing what it
//! has computed: whether a ray strikes a sphere and at which root, which
//! primitive of a scene is nearest, whether a surface scatters a ray and in
//! which direction, when a path ends. This library holds those decisions and
//! the data they are made on, and proves of each what it returns.
//!
//! Numbers are single precision numbers of IEEE 754, held by their bit
//! patterns (`scalar`). The library orders them exactly as the standard
//! does and never does arithmetic on them: its callers compute sums, products
//! and roots, hand them in, and act on the answer.
//!
//! - `scalar`: a number and its order.
//! - `vec3`, `ray`: vectors and rays, and the tests on squared lengths and
//!   discriminants.
//! - `material`: the three materials and what each does with a ray.
//! - `hitable`: root selection for a sphere, and the scan of a scene for the
//!   nearest strike.
//! - `integrator`: the verdict on a path, with its cap on the depth.
//! - `scene`: the rules by which a scene of many small spheres is laid out.

pub mod scalar;
pub mod vec3;
pub mod ray;
pub mod material;
pub mod hitable;
pub mod integrator;
pub mod scene;

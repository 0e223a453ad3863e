//! Integer and decision logic of a Monte-Carlo path tracer: pixel ordering,
//! image encodings, the integrator's bounce budget, the progressive sample
//! schedule, mesh and material selection, and the demo scene's layout.
//!
//! The floating-point geometry, shading and sampling live with the program
//! that drives this library; everything here is verified.

pub mod framebuffer;
pub mod integrator;
pub mod materials;
pub mod mesh;
pub mod ppm;
pub mod progressive;
pub mod random_scene;
pub mod raster;

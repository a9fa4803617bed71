//! Animated flight-line arcs between points on a planar canvas.
//!
//! The library is the arithmetic core of the animation: fixed-point
//! coordinates, quadratic-curve geometry, the decomposition of a master
//! progress value into clamped sub-phases, the per-frame draw plan, and the
//! CSS color strings. Projection of geographic coordinates and the canvas
//! draw calls themselves live outside, in the application shell.

pub mod color;
pub mod driver;
pub mod fixed;
pub mod geometry;
pub mod phase;
pub mod render;

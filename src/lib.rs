//! A tessellated height-field patch renderer, expressed as verified state and
//! command planning.
//!
//! The library keeps the CPU side of the surface: its sixteen control points,
//! display toggles, texture slots and lighting parameters. Every GPU action is
//! planned as a sequence of [`gpu::GlCommand`] values, which a thin host layer
//! executes against the real graphics API. Floating-point values are carried
//! as their IEEE-754 single-precision bit patterns.

pub mod bits;
pub mod gpu;
pub mod grid;
pub mod mesh;

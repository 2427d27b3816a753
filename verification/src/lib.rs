//! Decision core of a deep-zoom Mandelbrot renderer.
//!
//! The arbitrary-precision arithmetic and the drawing are done by the
//! program that embeds this library. What it hands over are single-precision
//! narrowings, as IEEE 754 bit patterns, and iteration counts; what it gets
//! back are the decisions: whether an iterate has escaped, which reference
//! point to anchor the frame on, what the orbit buffer holds and what the
//! renderer is told.

pub mod bits;
pub mod escape;
pub mod frame;
pub mod orbit;
pub mod reference;
pub mod scroll;

//! Verified core of a Mandelbrot-set renderer.
//!
//! The library computes everything the renderer decides or draws: the
//! escape-time iteration count of a point of the complex plane, the fixed
//! 256-entry colour palette, the linear map from pixel coordinates to the
//! complex plane, and the step-by-step decisions of the frame loop.  Complex
//! coordinates are held in fixed-point form (a scaled 64-bit integer), so the
//! whole pipeline is plain integer arithmetic with proved bounds.
//!
//! Platform work (window, drawing, event pump) stays outside: the surrounding
//! binary polls events, hands them to the library as plain values, and draws
//! the colours the library computed.

pub mod complex;
pub mod driver;
pub mod escape;
pub mod palette;
pub mod render;
pub mod view;

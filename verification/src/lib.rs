//! Host/module interface for per-tick vehicle-control decisions.
//!
//! A simulation host delegates each tick's driving decision to a sandboxed
//! module. Host and module agree only on a wire convention: how the tick
//! snapshot reaches the module and how the control decision comes back.
//! Three conventions are supported: a caller-supplied byte buffer for the
//! output (convention A), a single bit-packed word (convention B), and a
//! pair of module-owned buffers addressed by field offset (convention C).
//! Scalar quantities are carried as fixed-point integers in micro-units.

pub mod adapter;
pub mod codec_a;
pub mod codec_b;
pub mod codec_c;
pub mod decision;
pub mod modules;
pub mod rounding;
pub mod snapshot;

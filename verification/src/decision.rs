//! The canonical control decision and its steering scale.
//!
//! Scalars cross the wire as fixed-point integers in micro-units: one
//! million micro-units stand for 1.0. Steering is a signed value in
//! [-1.0, 1.0], so a valid steering lies in [-1_000_000, 1_000_000].

use vstd::prelude::*;

verus! {

/// Micro-units per whole unit: the fixed-point scale of every scalar.
pub const MICRO: i64 = 1_000_000;

/// Largest magnitude of a valid steering value, in micro-units (1.0).
pub const STEERING_MAX: i64 = 1_000_000;

/// The per-tick output of a module, normalized by the host adapter.
///
/// `accelerate` and `brake` are independent; both true at once is legal at
/// this level and left to host policy. Steering is continuous; discrete
/// turn intents derive from its sign.
#[derive(Clone, Copy, PartialEq, Eq, Structural, Debug)]
pub struct ControlDecision {
    pub accelerate: bool,
    pub brake: bool,
    /// Steering in micro-units; negative steers left, positive right.
    pub steering: i64,
}

impl ControlDecision {
    /// A decoded decision always carries an in-range steering value.
    pub open spec fn valid(self) -> bool {
        -STEERING_MAX <= self.steering <= STEERING_MAX
    }

    /// The neutral decision the host substitutes on a fault.
    pub fn neutral() -> (d: ControlDecision)
        ensures
            d == (ControlDecision { accelerate: false, brake: false, steering: 0 }),
            d.valid(),
    {
        ControlDecision { accelerate: false, brake: false, steering: 0 }
    }

    /// Discrete left-turn intent, derived from the steering sign.
    pub fn turn_left(&self) -> (r: bool)
        ensures
            r == (self.steering < 0),
    {
        self.steering < 0
    }

    /// Discrete right-turn intent, derived from the steering sign.
    pub fn turn_right(&self) -> (r: bool)
        ensures
            r == (self.steering > 0),
    {
        self.steering > 0
    }
}

/// Steering clamped into [-1.0, 1.0]; out-of-range inputs are never
/// passed through to an encoder.
pub open spec fn clamp_steering_spec(s: int) -> int {
    if s < -STEERING_MAX {
        -STEERING_MAX as int
    } else if s > STEERING_MAX {
        STEERING_MAX as int
    } else {
        s
    }
}

/// Executable clamp of a steering value into [-1.0, 1.0].
pub fn clamp_steering(s: i64) -> (r: i64)
    ensures
        r == clamp_steering_spec(s as int),
        -STEERING_MAX <= r <= STEERING_MAX,
{
    if s < -STEERING_MAX {
        -STEERING_MAX
    } else if s > STEERING_MAX {
        STEERING_MAX
    } else {
        s
    }
}

} // verus!

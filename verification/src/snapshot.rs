//! The per-tick input the host hands to a module.
//!
//! All fields are fixed-point scalars in micro-units, in the fixed order the
//! wire conventions rely on: x, y, speed, rotation, vehicle width, vehicle
//! height, road width, road height, delta time. A waypoint-seeking module
//! additionally receives the bearing of the next waypoint, computed by the
//! host from the waypoint's coordinates.

use vstd::prelude::*;

verus! {

/// Magnitude bound on every snapshot scalar, in micro-units (one million
/// whole units): keeps all per-tick arithmetic inside 64 bits.
pub const FIELD_MAX: i64 = 1_000_000_000_000;

/// One simulation step's input, immutable once built. The host constructs
/// a fresh snapshot each tick and discards it after the decision is decoded.
#[derive(Clone, Copy, Debug)]
pub struct TickSnapshot {
    pub x: i64,
    pub y: i64,
    pub speed: i64,
    pub rotation: i64,
    pub vehicle_width: i64,
    pub vehicle_height: i64,
    pub road_width: i64,
    pub road_height: i64,
    pub delta_time: i64,
}

impl TickSnapshot {
    /// Every field within the scale the conventions carry.
    pub open spec fn valid(self) -> bool {
        &&& -FIELD_MAX <= self.x <= FIELD_MAX
        &&& -FIELD_MAX <= self.y <= FIELD_MAX
        &&& -FIELD_MAX <= self.speed <= FIELD_MAX
        &&& -FIELD_MAX <= self.rotation <= FIELD_MAX
        &&& -FIELD_MAX <= self.vehicle_width <= FIELD_MAX
        &&& -FIELD_MAX <= self.vehicle_height <= FIELD_MAX
        &&& -FIELD_MAX <= self.road_width <= FIELD_MAX
        &&& -FIELD_MAX <= self.road_height <= FIELD_MAX
        &&& -FIELD_MAX <= self.delta_time <= FIELD_MAX
    }

    /// The fixed field order of the scalar-argument and shared-buffer
    /// conventions: slot `i` of the input region holds field `i`.
    pub open spec fn field_seq(self) -> Seq<i64> {
        seq![
            self.x,
            self.y,
            self.speed,
            self.rotation,
            self.vehicle_width,
            self.vehicle_height,
            self.road_width,
            self.road_height,
            self.delta_time,
        ]
    }
}

} // verus!

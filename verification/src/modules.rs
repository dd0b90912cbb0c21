//! Module instances: sandboxed decision units behind the wire conventions.
//!
//! `BufferModule` is a Convention C instance: it owns its input and output
//! regions, reports their addresses once, and on each `process` call reads
//! the snapshot from its input slots and writes a decision into its output
//! slots, steering toward the road's center. The two free `decide_*`
//! functions are the scalar-argument module behaviors for Conventions A
//! and B: one tracks the road center with continuous steering, one seeks
//! the next waypoint. All are replaceable business logic; their contracts
//! pin the exact decision for every snapshot.

use vstd::prelude::*;
use crate::decision::{ControlDecision, MICRO, clamp_steering_spec, clamp_steering};
use crate::snapshot::{TickSnapshot, FIELD_MAX};
use crate::codec_c::{INPUT_SLOTS, OUTPUT_SLOTS, fill_input};
use crate::rounding::{round_div, round_div_i64};

verus! {

/// Half of a scalar, truncated toward zero (the center of a road of a
/// given width, whichever sign the width carries).
pub open spec fn half(w: int) -> int {
    if w >= 0 {
        w / 2
    } else {
        -((-w) / 2)
    }
}

/// Below this speed the center-keeping module accelerates (200.0 units).
pub const CENTER_ACCEL_BELOW: i64 = 200_000_000;

/// Above this speed the center-keeping module brakes (300.0 units).
pub const CENTER_BRAKE_ABOVE: i64 = 300_000_000;

/// Half-width of the dead band around the road center (10.0 units).
pub const CENTER_DEADBAND: i64 = 10_000_000;

/// The center-keeping decision over the nine input slots, as four output
/// cells: accelerate when slow, brake when fast, and turn toward the road
/// center unless already within the dead band.
pub open spec fn center_decision_spec(input: Seq<i64>) -> Seq<i64>
    recommends
        input.len() == INPUT_SLOTS,
{
    let x = input[0];
    let speed = input[2];
    let road_center = half(input[6] as int);
    seq![
        if speed < CENTER_ACCEL_BELOW { MICRO } else { 0i64 },
        if speed > CENTER_BRAKE_ABOVE { MICRO } else { 0i64 },
        if x > road_center + CENTER_DEADBAND { MICRO } else { 0i64 },
        if x < road_center - CENTER_DEADBAND { MICRO } else { 0i64 },
    ]
}

/// A Convention C module instance: owner of its input and output regions.
///
/// The region addresses are opaque handles fixed at construction; they
/// never change for the lifetime of the instance, so the host may cache
/// them after the first query. Each vehicle gets its own instance; no
/// region is shared between instances.
pub struct BufferModule {
    input: Vec<i64>,
    output: Vec<i64>,
    input_addr: usize,
    output_addr: usize,
    initialized: bool,
    diagnostics: Vec<i64>,
}

impl BufferModule {
    /// The input region: nine scalar slots in the fixed field order.
    pub closed spec fn input_view(self) -> Seq<i64> {
        self.input@
    }

    /// The output region: four scalar cells, accelerate, brake, turn
    /// left, turn right.
    pub closed spec fn output_view(self) -> Seq<i64> {
        self.output@
    }

    /// The stable address of the input region.
    pub closed spec fn input_address_spec(self) -> usize {
        self.input_addr
    }

    /// The stable address of the output region.
    pub closed spec fn output_address_spec(self) -> usize {
        self.output_addr
    }

    /// Whether `initialize` has run.
    pub closed spec fn is_initialized(self) -> bool {
        self.initialized
    }

    /// The pending messages of the diagnostic sink, oldest first.
    pub closed spec fn diagnostics_view(self) -> Seq<i64> {
        self.diagnostics@
    }

    /// Both regions have their fixed sizes and the input slots stay
    /// within the carried scalar scale.
    pub open spec fn wf(self) -> bool {
        &&& self.input_view().len() == INPUT_SLOTS
        &&& self.output_view().len() == OUTPUT_SLOTS
        &&& forall|i: int|
            0 <= i < INPUT_SLOTS ==> -FIELD_MAX <= #[trigger] self.input_view()[i] <= FIELD_MAX
    }

    /// A fresh, not yet initialized instance with zeroed regions, under
    /// the two addresses its regions will keep for its whole lifetime.
    pub fn new(input_addr: usize, output_addr: usize) -> (m: BufferModule)
        ensures
            m.wf(),
            !m.is_initialized(),
            m.input_address_spec() == input_addr,
            m.output_address_spec() == output_addr,
            forall|i: int| 0 <= i < INPUT_SLOTS ==> m.input_view()[i] == 0,
            forall|i: int| 0 <= i < OUTPUT_SLOTS ==> m.output_view()[i] == 0,
            m.diagnostics_view().len() == 0,
    {
        let mut input: Vec<i64> = Vec::new();
        let mut k: usize = 0;
        while k < INPUT_SLOTS
            invariant
                k <= INPUT_SLOTS,
                input@.len() == k,
                forall|i: int| 0 <= i < k ==> input@[i] == 0,
            decreases INPUT_SLOTS - k,
        {
            input.push(0);
            k = k + 1;
        }
        let mut output: Vec<i64> = Vec::new();
        let mut k: usize = 0;
        while k < OUTPUT_SLOTS
            invariant
                k <= OUTPUT_SLOTS,
                output@.len() == k,
                forall|i: int| 0 <= i < k ==> output@[i] == 0,
            decreases OUTPUT_SLOTS - k,
        {
            output.push(0);
            k = k + 1;
        }
        BufferModule {
            input,
            output,
            input_addr,
            output_addr,
            initialized: false,
            diagnostics: Vec::new(),
        }
    }

    /// Idempotent start-of-life call: marks the instance ready and touches
    /// nothing else, however often it is repeated.
    pub fn initialize(&mut self)
        ensures
            final(self).is_initialized(),
            final(self).input_view() == old(self).input_view(),
            final(self).output_view() == old(self).output_view(),
            final(self).input_address_spec() == old(self).input_address_spec(),
            final(self).output_address_spec() == old(self).output_address_spec(),
            final(self).diagnostics_view() == old(self).diagnostics_view(),
            old(self).wf() ==> final(self).wf(),
    {
        self.initialized = true;
    }

    /// Whether the instance has completed `initialize` and may take ticks.
    pub fn ready(&self) -> (r: bool)
        ensures
            r == self.is_initialized(),
    {
        self.initialized
    }

    /// The address query for the input region: always the address fixed at
    /// construction, on this call and on every later one.
    pub fn allocate_input(&self) -> (addr: usize)
        requires
            self.is_initialized(),
        ensures
            addr == self.input_address_spec(),
    {
        self.input_addr
    }

    /// The address query for the output region: always the address fixed
    /// at construction, on this call and on every later one.
    pub fn allocate_output(&self) -> (addr: usize)
        requires
            self.is_initialized(),
        ensures
            addr == self.output_address_spec(),
    {
        self.output_addr
    }

    /// The host-side write of one snapshot into the input region. The
    /// host is the sole writer of this region; the output region, the
    /// addresses and the lifecycle flag do not move.
    pub fn host_write_input(&mut self, snap: &TickSnapshot)
        requires
            old(self).wf(),
            snap.valid(),
        ensures
            final(self).wf(),
            final(self).input_view() == snap.field_seq(),
            final(self).output_view() == old(self).output_view(),
            final(self).input_address_spec() == old(self).input_address_spec(),
            final(self).output_address_spec() == old(self).output_address_spec(),
            final(self).is_initialized() == old(self).is_initialized(),
            final(self).diagnostics_view() == old(self).diagnostics_view(),
    {
        fill_input(&mut self.input, snap);
        proof {
            assert(final(self).input_view() =~= snap.field_seq());
        }
    }

    /// The module's per-tick entry point: reads the input region, writes
    /// the center-keeping decision into the output region, and touches
    /// nothing else — not the input region, not the addresses.
    pub fn process(&mut self)
        requires
            old(self).wf(),
        ensures
            final(self).wf(),
            final(self).output_view() == center_decision_spec(old(self).input_view()),
            final(self).input_view() == old(self).input_view(),
            final(self).input_address_spec() == old(self).input_address_spec(),
            final(self).output_address_spec() == old(self).output_address_spec(),
            final(self).is_initialized() == old(self).is_initialized(),
            final(self).diagnostics_view() == old(self).diagnostics_view(),
    {
        let x = self.input[0];
        let speed = self.input[2];
        let road_width = self.input[6];
        let road_center: i64 = if road_width >= 0 {
            road_width / 2
        } else {
            -((-road_width) / 2)
        };
        self.output[0] = if speed < CENTER_ACCEL_BELOW {
            MICRO
        } else {
            0
        };
        self.output[1] = if speed > CENTER_BRAKE_ABOVE {
            MICRO
        } else {
            0
        };
        self.output[2] = if x > road_center + CENTER_DEADBAND {
            MICRO
        } else {
            0
        };
        self.output[3] = if x < road_center - CENTER_DEADBAND {
            MICRO
        } else {
            0
        };
        proof {
            assert(final(self).output_view() =~= center_decision_spec(old(self).input_view()));
        }
    }

    /// The host-side read of the four output cells.
    pub fn read_output(&self) -> (cells: (i64, i64, i64, i64))
        requires
            self.wf(),
        ensures
            cells.0 == self.output_view()[0],
            cells.1 == self.output_view()[1],
            cells.2 == self.output_view()[2],
            cells.3 == self.output_view()[3],
    {
        (self.output[0], self.output[1], self.output[2], self.output[3])
    }

    /// End-of-life call: this instance allocates nothing beyond its two
    /// regions, so there is nothing to release; safe and idempotent.
    pub fn cleanup(&mut self)
        ensures
            *final(self) == *old(self),
    {
    }

    /// The diagnostic sink: a one-way message the module may emit at any
    /// time. It appends to the pending messages and touches nothing the
    /// decision contract speaks of, so it can never affect a decision.
    pub fn emit_diagnostic(&mut self, value: i64)
        ensures
            final(self).diagnostics_view() == old(self).diagnostics_view().push(value),
            final(self).input_view() == old(self).input_view(),
            final(self).output_view() == old(self).output_view(),
            final(self).input_address_spec() == old(self).input_address_spec(),
            final(self).output_address_spec() == old(self).output_address_spec(),
            final(self).is_initialized() == old(self).is_initialized(),
            old(self).wf() ==> final(self).wf(),
    {
        self.diagnostics.push(value);
    }

    /// The host side of the sink: takes the pending messages, oldest
    /// first, to forward to its own log uninterpreted; the sink is empty
    /// afterward and the instance is otherwise untouched.
    pub fn drain_diagnostics(&mut self) -> (messages: Vec<i64>)
        ensures
            messages@ == old(self).diagnostics_view(),
            final(self).diagnostics_view().len() == 0,
            final(self).input_view() == old(self).input_view(),
            final(self).output_view() == old(self).output_view(),
            final(self).input_address_spec() == old(self).input_address_spec(),
            final(self).output_address_spec() == old(self).output_address_spec(),
            final(self).is_initialized() == old(self).is_initialized(),
            old(self).wf() ==> final(self).wf(),
    {
        let mut taken: Vec<i64> = Vec::new();
        std::mem::swap(&mut taken, &mut self.diagnostics);
        taken
    }
}

/// Below this speed the center-tracking module accelerates (10.0 units).
pub const TRACK_ACCEL_BELOW: i64 = 10_000_000;

/// Above this speed the center-tracking module brakes (20.0 units).
pub const TRACK_BRAKE_ABOVE: i64 = 20_000_000;

/// The continuous steering of the center-tracking module: the position
/// error relative to the road center, scaled by the center distance and
/// clamped into [-1.0, 1.0]; zero where the road has no positive center.
pub open spec fn track_center_steering_spec(x: int, road_width: int) -> int {
    let center = half(road_width);
    if center > 0 {
        clamp_steering_spec(round_div(-(x - center) * MICRO, center))
    } else {
        0
    }
}

/// The whole decision of the center-tracking module for one snapshot.
pub open spec fn track_center_decision_spec(snap: TickSnapshot) -> ControlDecision {
    ControlDecision {
        accelerate: snap.speed < TRACK_ACCEL_BELOW,
        brake: snap.speed > TRACK_BRAKE_ABOVE,
        steering: track_center_steering_spec(snap.x as int, snap.road_width as int) as i64,
    }
}

/// The scalar-argument module behavior behind Convention A: accelerate
/// when slow, brake when fast, steer toward the road center in proportion
/// to the position error.
pub fn decide_track_center(snap: &TickSnapshot) -> (d: ControlDecision)
    requires
        snap.valid(),
    ensures
        d == track_center_decision_spec(*snap),
        d.valid(),
{
    let road_center: i64 = if snap.road_width >= 0 {
        snap.road_width / 2
    } else {
        -((-snap.road_width) / 2)
    };
    let steering: i64 = if road_center > 0 {
        clamp_steering(round_div_i64(-(snap.x - road_center) * MICRO, road_center))
    } else {
        0
    };
    ControlDecision {
        accelerate: snap.speed < TRACK_ACCEL_BELOW,
        brake: snap.speed > TRACK_BRAKE_ABOVE,
        steering,
    }
}

/// Below this speed the waypoint module accelerates (15.0 units).
pub const WAYPOINT_ACCEL_BELOW: i64 = 15_000_000;

/// Above this speed the waypoint module brakes (22.5 units, one and a half
/// times its target speed).
pub const WAYPOINT_BRAKE_ABOVE: i64 = 22_500_000;

/// The whole decision of the waypoint module for one snapshot and one
/// waypoint bearing.
pub open spec fn waypoint_decision_spec(snap: TickSnapshot, target_angle: int) -> ControlDecision {
    ControlDecision {
        accelerate: snap.speed < WAYPOINT_ACCEL_BELOW,
        brake: snap.speed > WAYPOINT_BRAKE_ABOVE,
        steering: clamp_steering_spec(target_angle - snap.rotation) as i64,
    }
}

/// The scalar-argument module behavior behind Convention B: turn toward
/// the next waypoint and hold the target speed. The bearing of the
/// waypoint, `target_angle`, is an angle in micro-radians computed by the
/// caller from the waypoint offset; steering is the angle still to turn,
/// clamped into [-1.0, 1.0].
pub fn decide_waypoint(snap: &TickSnapshot, target_angle: i64) -> (d: ControlDecision)
    requires
        snap.valid(),
        -FIELD_MAX <= target_angle <= FIELD_MAX,
    ensures
        d == waypoint_decision_spec(*snap, target_angle as int),
        d.valid(),
{
    let steering = clamp_steering(target_angle - snap.rotation);
    ControlDecision {
        accelerate: snap.speed < WAYPOINT_ACCEL_BELOW,
        brake: snap.speed > WAYPOINT_BRAKE_ABOVE,
        steering,
    }
}

/// The waypoint module's Convention B entry point: decide and pack into
/// the single-register return in one call.
pub fn process_waypoint_packed(snap: &TickSnapshot, target_angle: i64) -> (p: u32)
    requires
        snap.valid(),
        -FIELD_MAX <= target_angle <= FIELD_MAX,
    ensures
        p as int == crate::codec_b::encode_b_spec(waypoint_decision_spec(*snap, target_angle as int)),
{
    crate::codec_b::encode_b(decide_waypoint(snap, target_angle))
}

} // verus!

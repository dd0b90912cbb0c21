//! Convention C: shared input and output buffers addressed by field offset.
//!
//! The module owns both regions and reports their addresses once; the host
//! writes the snapshot's nine scalars into slots 0..9 of the input region
//! and reads the decision back from slots 0..4 of the output region:
//! 0 = accelerate, 1 = brake, 2 = turn left, 3 = turn right, each a scalar
//! that is zero for false and nonzero for true.

use vstd::prelude::*;
use crate::decision::{ControlDecision, STEERING_MAX};
use crate::snapshot::TickSnapshot;

verus! {

/// Slot count of the Convention C input region.
pub const INPUT_SLOTS: usize = 9;

/// Slot count of the Convention C output region.
pub const OUTPUT_SLOTS: usize = 4;

/// Output slot index of the accelerate flag.
pub const OUT_ACCELERATE: usize = 0;

/// Output slot index of the brake flag.
pub const OUT_BRAKE: usize = 1;

/// Output slot index of the left-turn flag.
pub const OUT_TURN_LEFT: usize = 2;

/// Output slot index of the right-turn flag.
pub const OUT_TURN_RIGHT: usize = 3;

/// Host-side encode: fills slots 0..9 of an input region with the
/// snapshot's fields in the fixed order; no other slot moves.
pub fn fill_input(buf: &mut Vec<i64>, snap: &TickSnapshot)
    requires
        INPUT_SLOTS <= old(buf)@.len(),
    ensures
        final(buf)@.len() == old(buf)@.len(),
        final(buf)@.subrange(0, INPUT_SLOTS as int) == snap.field_seq(),
        forall|i: int|
            INPUT_SLOTS <= i < old(buf)@.len() ==> final(buf)@[i] == old(buf)@[i],
{
    buf[0] = snap.x;
    buf[1] = snap.y;
    buf[2] = snap.speed;
    buf[3] = snap.rotation;
    buf[4] = snap.vehicle_width;
    buf[5] = snap.vehicle_height;
    buf[6] = snap.road_width;
    buf[7] = snap.road_height;
    buf[8] = snap.delta_time;
    proof {
        assert(final(buf)@.subrange(0, INPUT_SLOTS as int) =~= snap.field_seq());
    }
}

/// The canonical decision carried by four output cells: a nonzero cell is
/// a set flag, and the two discrete turn intents become the continuous
/// steering by sign, full left or full right, cancelling when both are set.
pub open spec fn decision_from_cells_spec(
    accelerate_cell: i64,
    brake_cell: i64,
    turn_left_cell: i64,
    turn_right_cell: i64,
) -> ControlDecision {
    ControlDecision {
        accelerate: accelerate_cell != 0,
        brake: brake_cell != 0,
        steering: if turn_left_cell != 0 && turn_right_cell == 0 {
            (-STEERING_MAX) as i64
        } else if turn_right_cell != 0 && turn_left_cell == 0 {
            STEERING_MAX
        } else {
            0i64
        },
    }
}

/// Host-side decode of the four output cells into the canonical decision.
pub fn decision_from_cells(
    accelerate_cell: i64,
    brake_cell: i64,
    turn_left_cell: i64,
    turn_right_cell: i64,
) -> (d: ControlDecision)
    ensures
        d == decision_from_cells_spec(
            accelerate_cell,
            brake_cell,
            turn_left_cell,
            turn_right_cell,
        ),
        d.valid(),
{
    let steering: i64 = if turn_left_cell != 0 && turn_right_cell == 0 {
        -STEERING_MAX
    } else if turn_right_cell != 0 && turn_left_cell == 0 {
        STEERING_MAX
    } else {
        0
    };
    ControlDecision { accelerate: accelerate_cell != 0, brake: brake_cell != 0, steering }
}

} // verus!

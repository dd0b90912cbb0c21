//! Convention A: the decision written into a caller-supplied byte buffer.
//!
//! The module receives the snapshot as scalar arguments and writes exactly
//! twelve bytes at the base offset the host supplied: a 4-byte unsigned
//! word for `accelerate` (1 or 0) at offset 0, one for `brake` at offset 4,
//! and the 4-byte image of the steering scalar at offset 8, all little
//! endian. The writer touches nothing outside those twelve bytes; the host
//! owns the buffer and checks the bounds before any write.

use vstd::prelude::*;
use vstd::bytes::{
    spec_u32_to_le_bytes, spec_u32_from_le_bytes, u32_to_le_bytes, u32_from_le_bytes,
    lemma_auto_spec_u32_to_from_le_bytes,
};
use crate::decision::{ControlDecision, STEERING_MAX};

verus! {

/// Width in bytes of the Convention A output region.
pub const DECISION_BYTES: usize = 12;

/// The 4-byte word a boolean flag crosses the wire as: 1 or 0.
pub open spec fn bool_word(b: bool) -> u32 {
    if b {
        1u32
    } else {
        0u32
    }
}

/// The twelve-byte layout of a decision: accelerate word, brake word,
/// steering image, each little endian.
pub open spec fn encode_a_spec(accelerate: bool, brake: bool, steering_bits: u32) -> Seq<u8> {
    spec_u32_to_le_bytes(bool_word(accelerate)) + spec_u32_to_le_bytes(bool_word(brake))
        + spec_u32_to_le_bytes(steering_bits)
}

/// A decision as read back from the wire, before normalization: the raw
/// flag words and the raw 4-byte steering image, trusted for nothing yet.
#[derive(Clone, Copy, PartialEq, Eq, Structural, Debug)]
pub struct RawDecisionA {
    pub accelerate_word: u32,
    pub brake_word: u32,
    pub steering_bits: u32,
}

/// The three words read back from a twelve-byte output region.
pub open spec fn decode_a_spec(bytes: Seq<u8>) -> RawDecisionA
    recommends
        bytes.len() == DECISION_BYTES,
{
    RawDecisionA {
        accelerate_word: spec_u32_from_le_bytes(bytes.subrange(0, 4)),
        brake_word: spec_u32_from_le_bytes(bytes.subrange(4, 8)),
        steering_bits: spec_u32_from_le_bytes(bytes.subrange(8, 12)),
    }
}

/// Writes one little-endian 4-byte word; no byte outside the word moves.
fn write_u32_le(buf: &mut Vec<u8>, off: usize, w: u32)
    requires
        off + 4 <= old(buf)@.len(),
    ensures
        final(buf)@.len() == old(buf)@.len(),
        final(buf)@.subrange(off as int, off as int + 4) == spec_u32_to_le_bytes(w),
        forall|i: int|
            0 <= i < old(buf)@.len() && !(off <= i < off + 4) ==> final(buf)@[i] == old(buf)@[i],
{
    proof {
        lemma_auto_spec_u32_to_from_le_bytes();
    }
    let _n: usize = buf.len();
    let bytes = u32_to_le_bytes(w);
    buf[off] = bytes[0];
    buf[off + 1] = bytes[1];
    buf[off + 2] = bytes[2];
    buf[off + 3] = bytes[3];
    proof {
        assert(final(buf)@.subrange(off as int, off as int + 4) =~= spec_u32_to_le_bytes(w));
    }
}

/// Reads one little-endian 4-byte word.
fn read_u32_le(buf: &Vec<u8>, off: usize) -> (w: u32)
    requires
        off + 4 <= buf@.len(),
    ensures
        w == spec_u32_from_le_bytes(buf@.subrange(off as int, off as int + 4)),
{
    let _n: usize = buf.len();
    let mut tmp: Vec<u8> = Vec::new();
    tmp.push(buf[off]);
    tmp.push(buf[off + 1]);
    tmp.push(buf[off + 2]);
    tmp.push(buf[off + 3]);
    proof {
        assert(tmp@ =~= buf@.subrange(off as int, off as int + 4));
    }
    u32_from_le_bytes(tmp.as_slice())
}

/// The module-side write of a decision: exactly the twelve bytes at
/// `base..base + 12` change, every other byte of the buffer is untouched,
/// and the buffer never grows or shrinks.
pub fn write_decision_a(
    buf: &mut Vec<u8>,
    base: usize,
    accelerate: bool,
    brake: bool,
    steering_bits: u32,
)
    requires
        base + DECISION_BYTES <= old(buf)@.len(),
    ensures
        final(buf)@.len() == old(buf)@.len(),
        final(buf)@.subrange(base as int, base as int + DECISION_BYTES) == encode_a_spec(
            accelerate,
            brake,
            steering_bits,
        ),
        forall|i: int|
            0 <= i < old(buf)@.len() && !(base <= i < base + DECISION_BYTES)
                ==> final(buf)@[i] == old(buf)@[i],
{
    proof {
        lemma_auto_spec_u32_to_from_le_bytes();
    }
    let _n: usize = buf.len();
    let accel_word: u32 = if accelerate {
        1
    } else {
        0
    };
    let brake_word: u32 = if brake {
        1
    } else {
        0
    };
    write_u32_le(buf, base, accel_word);
    write_u32_le(buf, base + 4, brake_word);
    write_u32_le(buf, base + 8, steering_bits);
    proof {
        assert(final(buf)@.subrange(base as int, base as int + DECISION_BYTES) =~= encode_a_spec(
            accelerate,
            brake,
            steering_bits,
        ));
    }
}

/// The host-side read of the twelve-byte output region.
pub fn read_decision_a(buf: &Vec<u8>, base: usize) -> (r: RawDecisionA)
    requires
        base + DECISION_BYTES <= buf@.len(),
    ensures
        r == decode_a_spec(buf@.subrange(base as int, base as int + DECISION_BYTES)),
{
    let _n: usize = buf.len();
    let accelerate_word = read_u32_le(buf, base);
    let brake_word = read_u32_le(buf, base + 4);
    let steering_bits = read_u32_le(buf, base + 8);
    proof {
        let region = buf@.subrange(base as int, base as int + DECISION_BYTES);
        assert(buf@.subrange(base as int, base as int + 4) =~= region.subrange(0, 4));
        assert(buf@.subrange(base as int + 4, base as int + 8) =~= region.subrange(4, 8));
        assert(buf@.subrange(base as int + 8, base as int + 12) =~= region.subrange(8, 12));
    }
    RawDecisionA { accelerate_word, brake_word, steering_bits }
}

/// Reading back a written region recovers the flag words and the steering
/// image exactly: the twelve-byte layout is lossless.
pub proof fn lemma_a_round_trip(accelerate: bool, brake: bool, steering_bits: u32)
    ensures
        decode_a_spec(encode_a_spec(accelerate, brake, steering_bits)) == (RawDecisionA {
            accelerate_word: bool_word(accelerate),
            brake_word: bool_word(brake),
            steering_bits: steering_bits,
        }),
{
    lemma_auto_spec_u32_to_from_le_bytes();
    let bytes = encode_a_spec(accelerate, brake, steering_bits);
    assert(bytes.subrange(0, 4) =~= spec_u32_to_le_bytes(bool_word(accelerate)));
    assert(bytes.subrange(4, 8) =~= spec_u32_to_le_bytes(bool_word(brake)));
    assert(bytes.subrange(8, 12) =~= spec_u32_to_le_bytes(steering_bits));
}

/// Normalizes a raw decision whose steering has already been scaled to
/// micro-units. A nonzero flag word counts as true. An out-of-range
/// steering is a contract violation: the decision is discarded and the
/// neutral decision substituted, and the violation reported.
pub fn normalize_raw(accelerate_word: u32, brake_word: u32, steering: i64) -> (r: (
    ControlDecision,
    bool,
))
    ensures
        r.1 == !(-STEERING_MAX <= steering <= STEERING_MAX),
        r.1 ==> r.0 == (ControlDecision { accelerate: false, brake: false, steering: 0 }),
        !r.1 ==> r.0 == (ControlDecision {
            accelerate: accelerate_word != 0,
            brake: brake_word != 0,
            steering: steering,
        }),
        r.0.valid(),
{
    if steering < -STEERING_MAX || steering > STEERING_MAX {
        (ControlDecision::neutral(), true)
    } else {
        (
            ControlDecision {
                accelerate: accelerate_word != 0,
                brake: brake_word != 0,
                steering,
            },
            false,
        )
    }
}

} // verus!

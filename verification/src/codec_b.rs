//! Convention B: the decision packed into a single 32-bit word.
//!
//! Bit 31 carries `accelerate`, bit 30 carries `brake`, and the low 16 bits
//! carry the steering value quantized to a signed 16-bit integer in
//! two's complement. Bits 16 to 29 are unused; a decoder ignores whatever a
//! module left in them. Quantization rounds to the nearest representable
//! value in both directions, so one encode/decode round trip loses at most
//! one quantization step (1/32767) and a second round trip loses nothing.

use vstd::prelude::*;
use crate::decision::{ControlDecision, STEERING_MAX, clamp_steering_spec, clamp_steering};
use crate::rounding::{
    round_div, round_div_i64, lemma_round_div_neg, lemma_round_div_error,
    lemma_round_div_exact, lemma_round_div_ordered,
};

verus! {

/// Largest magnitude of a quantized steering value: i16::MAX.
pub const QUANT_MAX: i64 = 32767;

/// A quantized steering value clamped into [-32767, 32767]; the decoder
/// never trusts the raw low bits beyond this range.
pub open spec fn clamp_quant_spec(q: int) -> int {
    if q < -QUANT_MAX {
        -QUANT_MAX as int
    } else if q > QUANT_MAX {
        QUANT_MAX as int
    } else {
        q
    }
}

/// Steering in micro-units, quantized to [-32767, 32767] by rounding to
/// the nearest step; out-of-range steering is clamped first.
pub open spec fn quantize_spec(s: int) -> int {
    round_div(clamp_steering_spec(s) * QUANT_MAX, STEERING_MAX as int)
}

/// A quantized steering value scaled back to micro-units, rounding to the
/// nearest micro-unit.
pub open spec fn dequantize_spec(q: int) -> int {
    round_div(clamp_quant_spec(q) * STEERING_MAX, QUANT_MAX as int)
}

/// Quantization stays within the signed 16-bit range.
pub proof fn lemma_quantize_bounds(s: int)
    ensures
        -QUANT_MAX <= quantize_spec(s) <= QUANT_MAX,
{
    let c = clamp_steering_spec(s);
    if c >= 0 {
        lemma_round_div_ordered(0, c * QUANT_MAX, STEERING_MAX as int);
        lemma_round_div_ordered(c * QUANT_MAX, STEERING_MAX * QUANT_MAX, STEERING_MAX as int);
        assert(c * QUANT_MAX <= STEERING_MAX * QUANT_MAX) by (nonlinear_arith)
            requires 0 <= c <= STEERING_MAX;
        assert(round_div(0, STEERING_MAX as int) == 0);
        assert(round_div(STEERING_MAX * QUANT_MAX, STEERING_MAX as int) == QUANT_MAX);
    } else {
        lemma_round_div_neg(c * QUANT_MAX, STEERING_MAX as int);
        lemma_round_div_ordered(0, -c * QUANT_MAX, STEERING_MAX as int);
        lemma_round_div_ordered(-c * QUANT_MAX, STEERING_MAX * QUANT_MAX, STEERING_MAX as int);
        assert(-c * QUANT_MAX <= STEERING_MAX * QUANT_MAX) by (nonlinear_arith)
            requires 0 < -c <= STEERING_MAX;
        assert(-(c * QUANT_MAX) == -c * QUANT_MAX) by (nonlinear_arith);
        assert(round_div(0, STEERING_MAX as int) == 0);
        assert(round_div(STEERING_MAX * QUANT_MAX, STEERING_MAX as int) == QUANT_MAX);
    }
}

/// Dequantization stays within the valid steering range [-1.0, 1.0].
pub proof fn lemma_dequantize_bounds(q: int)
    ensures
        -STEERING_MAX <= dequantize_spec(q) <= STEERING_MAX,
{
    let c = clamp_quant_spec(q);
    if c >= 0 {
        lemma_round_div_ordered(0, c * STEERING_MAX, QUANT_MAX as int);
        lemma_round_div_ordered(c * STEERING_MAX, QUANT_MAX * STEERING_MAX, QUANT_MAX as int);
        assert(c * STEERING_MAX <= QUANT_MAX * STEERING_MAX) by (nonlinear_arith)
            requires 0 <= c <= QUANT_MAX;
        assert(round_div(0, QUANT_MAX as int) == 0);
        assert(round_div(QUANT_MAX * STEERING_MAX, QUANT_MAX as int) == STEERING_MAX);
    } else {
        lemma_round_div_neg(c * STEERING_MAX, QUANT_MAX as int);
        lemma_round_div_ordered(0, -c * STEERING_MAX, QUANT_MAX as int);
        lemma_round_div_ordered(-c * STEERING_MAX, QUANT_MAX * STEERING_MAX, QUANT_MAX as int);
        assert(-c * STEERING_MAX <= QUANT_MAX * STEERING_MAX) by (nonlinear_arith)
            requires 0 < -c <= QUANT_MAX;
        assert(-(c * STEERING_MAX) == -c * STEERING_MAX) by (nonlinear_arith);
        assert(round_div(0, QUANT_MAX as int) == 0);
        assert(round_div(QUANT_MAX * STEERING_MAX, QUANT_MAX as int) == STEERING_MAX);
    }
}

/// Steering in micro-units quantized to a signed 16-bit step count.
pub fn quantize(s: i64) -> (q: i64)
    ensures
        q == quantize_spec(s as int),
        -QUANT_MAX <= q <= QUANT_MAX,
{
    proof {
        lemma_quantize_bounds(s as int);
    }
    let c = clamp_steering(s);
    round_div_i64(c * QUANT_MAX, STEERING_MAX)
}

/// A quantized steering step count scaled back to micro-units.
pub fn dequantize(q: i64) -> (s: i64)
    requires
        -0x10000 <= q <= 0x10000,
    ensures
        s == dequantize_spec(q as int),
        -STEERING_MAX <= s <= STEERING_MAX,
{
    proof {
        lemma_dequantize_bounds(q as int);
    }
    let c: i64 = if q < -QUANT_MAX {
        -QUANT_MAX
    } else if q > QUANT_MAX {
        QUANT_MAX
    } else {
        q
    };
    round_div_i64(c * STEERING_MAX, QUANT_MAX)
}

/// Quantizing is symmetric around zero.
proof fn lemma_quantize_neg(s: int)
    requires
        -STEERING_MAX <= s <= STEERING_MAX,
    ensures
        quantize_spec(-s) == -quantize_spec(s),
{
    lemma_round_div_neg(s * QUANT_MAX, STEERING_MAX as int);
    assert(-s * QUANT_MAX == -(s * QUANT_MAX)) by (nonlinear_arith);
}

/// Dequantizing is symmetric around zero.
proof fn lemma_dequantize_neg(q: int)
    requires
        -QUANT_MAX <= q <= QUANT_MAX,
    ensures
        dequantize_spec(-q) == -dequantize_spec(q),
{
    lemma_round_div_neg(q * STEERING_MAX, QUANT_MAX as int);
    assert(-q * STEERING_MAX == -(q * STEERING_MAX)) by (nonlinear_arith);
}

/// Re-quantizing a dequantized step count gives back the same step count:
/// the lossy step happens once, on the first encode, and never again.
pub proof fn lemma_quantize_dequantize(q: int)
    requires
        -QUANT_MAX <= q <= QUANT_MAX,
    ensures
        quantize_spec(dequantize_spec(q)) == q,
{
    if q >= 0 {
        lemma_quantize_dequantize_nonneg(q);
    } else {
        lemma_quantize_dequantize_nonneg(-q);
        lemma_dequantize_neg(q);
        lemma_dequantize_bounds(q);
        lemma_quantize_neg(-dequantize_spec(q));
    }
}

proof fn lemma_quantize_dequantize_nonneg(q: int)
    requires
        0 <= q <= QUANT_MAX,
    ensures
        quantize_spec(dequantize_spec(q)) == q,
{
    let s = dequantize_spec(q);
    lemma_dequantize_bounds(q);
    lemma_round_div_error(q * STEERING_MAX, QUANT_MAX as int);
    lemma_round_div_ordered(0, q * STEERING_MAX, QUANT_MAX as int);
    assert(q * STEERING_MAX >= 0) by (nonlinear_arith)
        requires q >= 0;
    assert(round_div(0, QUANT_MAX as int) == 0);
    assert(s >= 0);
    // s, scaled back up by QUANT_MAX, sits within half a micro-step of
    // q * STEERING_MAX, so rounding recovers q exactly.
    let e = s * QUANT_MAX - q * STEERING_MAX;
    assert(-16383 <= e <= 16383);
    assert(q * (STEERING_MAX as int) + e >= 0) by (nonlinear_arith)
        requires q >= 0 && STEERING_MAX > 0 && q * (STEERING_MAX as int) + e == s * (QUANT_MAX as int) && s >= 0 && QUANT_MAX > 0;
    lemma_round_div_exact(q, e, STEERING_MAX as int);
    assert(clamp_steering_spec(s) == s);
    assert(quantize_spec(s) == round_div(q * (STEERING_MAX as int) + e, STEERING_MAX as int));
}

/// One quantization round trip moves a valid steering value by at most one
/// quantization step: |decoded - steering| is at most 1/32767.
pub proof fn lemma_quantization_error(s: int)
    requires
        -STEERING_MAX <= s <= STEERING_MAX,
    ensures
        -STEERING_MAX <= QUANT_MAX * (dequantize_spec(quantize_spec(s)) - s) <= STEERING_MAX,
{
    if s >= 0 {
        lemma_quantization_error_nonneg(s);
    } else {
        lemma_quantization_error_nonneg(-s);
        lemma_quantize_neg(s);
        lemma_quantize_bounds(s);
        lemma_dequantize_neg(-quantize_spec(s));
    }
}

proof fn lemma_quantization_error_nonneg(s: int)
    requires
        0 <= s <= STEERING_MAX,
    ensures
        -STEERING_MAX <= QUANT_MAX * (dequantize_spec(quantize_spec(s)) - s) <= STEERING_MAX,
{
    let q = quantize_spec(s);
    lemma_quantize_bounds(s);
    lemma_round_div_error(s * QUANT_MAX, STEERING_MAX as int);
    lemma_round_div_ordered(0, s * QUANT_MAX, STEERING_MAX as int);
    assert(s * QUANT_MAX >= 0) by (nonlinear_arith)
        requires s >= 0;
    assert(round_div(0, STEERING_MAX as int) == 0);
    assert(q >= 0);
    let e1 = q * STEERING_MAX - s * QUANT_MAX;
    assert(-499999 <= e1 <= 500000);
    let t = dequantize_spec(q);
    lemma_round_div_error(q * STEERING_MAX, QUANT_MAX as int);
    assert(q * (STEERING_MAX as int) >= 0) by (nonlinear_arith)
        requires q >= 0;
    let e2 = t * QUANT_MAX - q * STEERING_MAX;
    assert(-16383 <= e2 <= 16383);
    assert(QUANT_MAX * (t - s) == e1 + e2) by (nonlinear_arith)
        requires
            e1 == q * (STEERING_MAX as int) - s * (QUANT_MAX as int),
            e2 == t * (QUANT_MAX as int) - q * (STEERING_MAX as int);
}

/// Bit 31 of the packed word: the accelerate flag.
pub const ACCEL_BIT: u32 = 0x8000_0000;

/// Bit 30 of the packed word: the brake flag.
pub const BRAKE_BIT: u32 = 0x4000_0000;

/// The two's-complement 16-bit image of a quantized steering value.
pub open spec fn low16_of(q: int) -> int
    recommends
        -0x8000 <= q < 0x8000,
{
    if q >= 0 {
        q
    } else {
        q + 0x10000
    }
}

/// The packed word: flag bits plus the 16-bit steering image. The three
/// parts occupy disjoint bit ranges, so addition is the same as bitwise or.
pub open spec fn pack_spec(accelerate: bool, brake: bool, q: int) -> int
    recommends
        -0x8000 <= q < 0x8000,
{
    (if accelerate { ACCEL_BIT as int } else { 0 })
        + (if brake { BRAKE_BIT as int } else { 0 })
        + low16_of(q)
}

/// The accelerate flag read back from a packed word: bit 31 alone, whatever
/// a module left in the unused bits.
pub open spec fn unpack_accel_spec(p: u32) -> bool {
    p as int / 0x8000_0000 == 1
}

/// The brake flag read back from a packed word: bit 30 alone.
pub open spec fn unpack_brake_spec(p: u32) -> bool {
    (p as int / 0x4000_0000) % 2 == 1
}

/// The quantized steering read back from the low 16 bits of a packed word,
/// as a signed value in [-32768, 32767].
pub open spec fn unpack_quant_spec(p: u32) -> int {
    let low = p as int % 0x10000;
    if low >= 0x8000 {
        low - 0x10000
    } else {
        low
    }
}

/// Unpacking recovers exactly the fields that were packed; the unused bits
/// of the word play no part.
pub proof fn lemma_unpack_pack(accelerate: bool, brake: bool, q: int)
    requires
        -0x8000 <= q < 0x8000,
    ensures
        0 <= pack_spec(accelerate, brake, q) <= u32::MAX,
        unpack_accel_spec(pack_spec(accelerate, brake, q) as u32) == accelerate,
        unpack_brake_spec(pack_spec(accelerate, brake, q) as u32) == brake,
        unpack_quant_spec(pack_spec(accelerate, brake, q) as u32) == q,
{
    let a: int = if accelerate { 1 } else { 0 };
    let b: int = if brake { 1 } else { 0 };
    let low = low16_of(q);
    let p = pack_spec(accelerate, brake, q);
    assert(p == a * 0x8000_0000 + b * 0x4000_0000 + low);
    assert(p as u32 as int == p);
    vstd::arithmetic::div_mod::lemma_fundamental_div_mod_converse(
        p, 0x8000_0000, a, b * 0x4000_0000 + low);
    assert(unpack_accel_spec(p as u32) == accelerate);
    vstd::arithmetic::div_mod::lemma_fundamental_div_mod_converse(
        p, 0x4000_0000, 2 * a + b, low);
    vstd::arithmetic::div_mod::lemma_fundamental_div_mod_converse(
        2 * a + b, 2, a, b);
    assert(unpack_brake_spec(p as u32) == brake);
    vstd::arithmetic::div_mod::lemma_fundamental_div_mod_converse(
        p, 0x10000, a * 0x8000 + b * 0x4000, low);
    assert(unpack_quant_spec(p as u32) == q);
}

/// A control decision encoded as a Convention B word.
pub open spec fn encode_b_spec(d: ControlDecision) -> int {
    pack_spec(d.accelerate, d.brake, quantize_spec(d.steering as int))
}

/// A Convention B word decoded into a control decision. Only bits 31, 30
/// and 15..0 are read; whatever the module wrote in the rest is ignored,
/// and an out-of-range steering image is clamped, never trusted.
pub open spec fn decode_b_spec(p: u32) -> ControlDecision {
    ControlDecision {
        accelerate: unpack_accel_spec(p),
        brake: unpack_brake_spec(p),
        steering: dequantize_spec(unpack_quant_spec(p)) as i64,
    }
}

/// Encodes a decision as a single packed word; out-of-range steering is
/// clamped into [-1.0, 1.0] before quantization, never passed through.
pub fn encode_b(d: ControlDecision) -> (p: u32)
    ensures
        p as int == encode_b_spec(d),
{
    let q = quantize(d.steering);
    proof {
        lemma_unpack_pack(d.accelerate, d.brake, q as int);
    }
    let low: u32 = if q >= 0 {
        q as u32
    } else {
        (q + 0x10000) as u32
    };
    let mut p: u32 = low;
    if d.accelerate {
        p = p + ACCEL_BIT;
    }
    if d.brake {
        p = p + BRAKE_BIT;
    }
    p
}

/// Decodes a packed word into a valid control decision.
pub fn decode_b(p: u32) -> (d: ControlDecision)
    ensures
        d == decode_b_spec(p),
        d.valid(),
{
    proof {
        lemma_dequantize_bounds(unpack_quant_spec(p));
    }
    let accelerate = p / ACCEL_BIT == 1;
    let brake = (p / BRAKE_BIT) % 2 == 1;
    let low = p % 0x10000;
    let q: i64 = if low >= 0x8000 {
        low as i64 - 0x10000
    } else {
        low as i64
    };
    let steering = dequantize(q);
    ControlDecision { accelerate, brake, steering }
}

/// Encoding, decoding and re-encoding reproduce the packed bits exactly:
/// decoding a Convention B word is idempotent, whatever decision (even one
/// with out-of-range steering) produced the word.
pub proof fn lemma_reencode_identity(d: ControlDecision)
    ensures
        encode_b_spec(decode_b_spec(encode_b_spec(d) as u32)) == encode_b_spec(d),
{
    let q = quantize_spec(d.steering as int);
    lemma_quantize_bounds(d.steering as int);
    lemma_unpack_pack(d.accelerate, d.brake, q);
    let p = encode_b_spec(d);
    let d2 = decode_b_spec(p as u32);
    lemma_dequantize_bounds(q);
    lemma_quantize_dequantize(q);
    assert(quantize_spec(d2.steering as int) == q);
}

/// Decoding is idempotent on every word a module could return, however
/// the unused bits and the low 16 bits were filled: re-encoding a decoded
/// decision and decoding again changes nothing.
pub proof fn lemma_decode_idempotent(p: u32)
    ensures
        decode_b_spec(encode_b_spec(decode_b_spec(p)) as u32) == decode_b_spec(p),
{
    let q1 = unpack_quant_spec(p);
    vstd::arithmetic::div_mod::lemma_mod_division_less_than_divisor(p as int, 0x10000);
    vstd::arithmetic::div_mod::lemma_mod_bound(p as int, 0x10000);
    assert(-0x8000 <= q1 < 0x8000);
    let qc = clamp_quant_spec(q1);
    assert(dequantize_spec(q1) == dequantize_spec(qc));
    lemma_dequantize_bounds(q1);
    lemma_quantize_dequantize(qc);
    let d1 = decode_b_spec(p);
    assert(quantize_spec(d1.steering as int) == qc);
    lemma_unpack_pack(d1.accelerate, d1.brake, qc);
}

/// Round-trip accuracy for a valid steering value: the steering that comes
/// back out of a Convention B word differs from the steering that went in
/// by at most one quantization step (1/32767).
pub proof fn lemma_steering_round_trip(d: ControlDecision)
    requires
        d.valid(),
    ensures
        ({
            let out = decode_b_spec(encode_b_spec(d) as u32);
            &&& out.accelerate == d.accelerate
            &&& out.brake == d.brake
            &&& -STEERING_MAX <= QUANT_MAX * (out.steering - d.steering) <= STEERING_MAX
        }),
{
    let q = quantize_spec(d.steering as int);
    lemma_quantize_bounds(d.steering as int);
    lemma_unpack_pack(d.accelerate, d.brake, q);
    lemma_quantization_error(d.steering as int);
}

} // verus!

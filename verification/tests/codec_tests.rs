use tickwire::codec_a::{
    read_decision_a, write_decision_a, normalize_raw, DECISION_BYTES,
};
use tickwire::codec_b::{decode_b, dequantize, encode_b, quantize, QUANT_MAX};
use tickwire::decision::{ControlDecision, STEERING_MAX};
use tickwire::rounding::round_div_i64;

fn decision(accelerate: bool, brake: bool, steering: i64) -> ControlDecision {
    ControlDecision { accelerate, brake, steering }
}

#[test]
fn packed_layout_scenario() {
    // accelerate=true, brake=false, steering=0.5: bit 31 set, low 16 bits
    // hold round(0.5 * 32767); ties round away from zero, so 16384.
    let p = encode_b(decision(true, false, 500_000));
    assert_eq!(p, 0x8000_4000);
    assert_eq!(p, 0x8000_3FFF + 1);
}

#[test]
fn packed_flags_are_independent() {
    assert_eq!(encode_b(decision(false, false, 0)), 0x0000_0000);
    assert_eq!(encode_b(decision(true, false, 0)), 0x8000_0000);
    assert_eq!(encode_b(decision(false, true, 0)), 0x4000_0000);
    assert_eq!(encode_b(decision(true, true, 0)), 0xC000_0000);
}

#[test]
fn packed_negative_steering_two_complement() {
    // steering = -1.0 quantizes to -32767, whose 16-bit image is 0x8001.
    let p = encode_b(decision(false, false, -1_000_000));
    assert_eq!(p, 0x0000_8001);
    let d = decode_b(p);
    assert_eq!(d.steering, -1_000_000);
}

#[test]
fn decode_ignores_unused_bits() {
    // Garbage a module left in bits 16..30 must not change the decision.
    let clean = decode_b(0x8000_4000);
    let dirty = decode_b(0x8000_4000 | 0x3FFF_0000);
    assert_eq!(clean, dirty);
}

#[test]
fn decode_clamps_minimum_image() {
    // The low 16 bits can hold -32768, one step below the valid range:
    // the decoder clamps it to -1.0 rather than trust it.
    let d = decode_b(0x0000_8000);
    assert_eq!(d.steering, -1_000_000);
    assert!(!d.accelerate);
    assert!(!d.brake);
}

#[test]
fn round_trip_error_within_one_step() {
    // |decode(encode(s)) - s| <= 1/32767 for in-range steering.
    let samples: [i64; 9] = [
        -1_000_000, -999_999, -500_000, -31, 0, 31, 123_457, 500_000, 1_000_000,
    ];
    for &s in samples.iter() {
        let out = decode_b(encode_b(decision(false, false, s))).steering;
        assert!((out - s).abs() * QUANT_MAX <= STEERING_MAX);
    }
}

#[test]
fn reencode_is_identity() {
    // encode -> decode -> encode reproduces the packed bits exactly,
    // in-range or not: the quantization loss happens only once.
    let samples: [(bool, bool, i64); 6] = [
        (false, false, 0),
        (true, false, 500_000),
        (false, true, -500_000),
        (true, true, 999_999),
        (false, false, 5_000_000),
        (true, false, i64::MIN + 1),
    ];
    for &(a, b, s) in samples.iter() {
        let p = encode_b(decision(a, b, s));
        let p2 = encode_b(decode_b(p));
        assert_eq!(p, p2);
    }
}

#[test]
fn out_of_range_steering_is_clamped_not_passed() {
    // An encoder given steering outside [-1.0, 1.0] clamps; nothing
    // overflows and the decoded value is back in range.
    let high = decode_b(encode_b(decision(false, false, i64::MAX))).steering;
    assert_eq!(high, 1_000_000);
    let low = decode_b(encode_b(decision(false, false, -7_000_000))).steering;
    assert_eq!(low, -1_000_000);
    assert_eq!(quantize(i64::MAX), 32767);
    assert_eq!(quantize(i64::MIN + 1), -32767);
}

#[test]
fn quantize_exact_points() {
    assert_eq!(quantize(0), 0);
    assert_eq!(quantize(1_000_000), 32767);
    assert_eq!(quantize(-1_000_000), -32767);
    // 0.5 lands on a tie: 16383.5 rounds away from zero.
    assert_eq!(quantize(500_000), 16384);
    assert_eq!(quantize(-500_000), -16384);
    assert_eq!(dequantize(32767), 1_000_000);
    assert_eq!(dequantize(-32767), -1_000_000);
    assert_eq!(dequantize(0), 0);
}

#[test]
fn buffer_writes_stay_inside_twelve_bytes() {
    // Guard bytes before and after the output region never change.
    let mut buf: Vec<u8> = vec![0xAA; 20];
    write_decision_a(&mut buf, 4, true, false, 0x3F00_0000);
    for i in 0..4 {
        assert_eq!(buf[i], 0xAA);
    }
    for i in 16..20 {
        assert_eq!(buf[i], 0xAA);
    }
    let raw = read_decision_a(&buf, 4);
    assert_eq!(raw.accelerate_word, 1);
    assert_eq!(raw.brake_word, 0);
    assert_eq!(raw.steering_bits, 0x3F00_0000);
}

#[test]
fn buffer_layout_is_little_endian_words() {
    let mut buf: Vec<u8> = vec![0; DECISION_BYTES];
    write_decision_a(&mut buf, 0, true, true, 0x0403_0201);
    assert_eq!(buf, vec![1, 0, 0, 0, 1, 0, 0, 0, 0x01, 0x02, 0x03, 0x04]);
}

#[test]
fn normalize_accepts_in_range_and_reports_violation() {
    let (d, violation) = normalize_raw(1, 0, 250_000);
    assert!(!violation);
    assert_eq!(d, decision(true, false, 250_000));

    // Any nonzero flag word counts as true.
    let (d, violation) = normalize_raw(7, 42, -1_000_000);
    assert!(!violation);
    assert_eq!(d, decision(true, true, -1_000_000));

    // Out-of-range steering is a contract violation: the decision is
    // discarded and the neutral decision substituted.
    let (d, violation) = normalize_raw(1, 1, 1_000_001);
    assert!(violation);
    assert_eq!(d, decision(false, false, 0));
}

#[test]
fn turn_intents_derive_from_steering_sign() {
    assert!(decision(false, false, -250_000).turn_left());
    assert!(!decision(false, false, -250_000).turn_right());
    assert!(decision(false, false, 250_000).turn_right());
    assert!(!decision(false, false, 250_000).turn_left());
    let n = ControlDecision::neutral();
    assert!(!n.turn_left() && !n.turn_right());
    assert_eq!(n, decision(false, false, 0));
}

#[test]
fn rounding_is_nearest_with_ties_away_from_zero() {
    assert_eq!(round_div_i64(7, 2), 4);
    assert_eq!(round_div_i64(-7, 2), -4);
    assert_eq!(round_div_i64(10, 4), 3);
    assert_eq!(round_div_i64(9, 4), 2);
    assert_eq!(round_div_i64(-9, 4), -2);
    assert_eq!(round_div_i64(0, 3), 0);
}

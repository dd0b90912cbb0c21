use tickwire::codec_b::{decode_b, encode_b};
use tickwire::codec_c::decision_from_cells;
use tickwire::decision::ControlDecision;
use tickwire::modules::{
    decide_track_center, decide_waypoint, process_waypoint_packed, BufferModule,
};
use tickwire::snapshot::TickSnapshot;

fn snapshot() -> TickSnapshot {
    TickSnapshot {
        x: 0,
        y: 0,
        speed: 0,
        rotation: 0,
        vehicle_width: 2_000_000,
        vehicle_height: 4_000_000,
        road_width: 20_000_000,
        road_height: 600_000_000,
        delta_time: 16_000,
    }
}

#[test]
fn track_center_steers_right_toward_center() {
    // Vehicle at x=5 on a road 20 wide: center is 10, position error -5,
    // so steering is +0.5 (steer right), accelerate at speed 5, no brake.
    let snap = TickSnapshot { x: 5_000_000, speed: 5_000_000, ..snapshot() };
    let d = decide_track_center(&snap);
    assert!(d.steering > 0);
    assert_eq!(d.steering, 500_000);
    assert!(d.accelerate);
    assert!(!d.brake);
    // The same holds after a trip over the packed wire, up to quantization.
    let wire = decode_b(encode_b(d));
    assert!(wire.steering > 0);
    assert!(wire.accelerate);
    assert!(!wire.brake);
}

#[test]
fn track_center_full_lock_and_dead_road() {
    // Far off a narrow road the steering saturates at full lock.
    let snap = TickSnapshot { x: 20_000_000, road_width: 4_000_000, ..snapshot() };
    assert_eq!(decide_track_center(&snap).steering, -1_000_000);
    // A road without a positive center yields no steering.
    let snap = TickSnapshot { road_width: 0, ..snapshot() };
    assert_eq!(decide_track_center(&snap).steering, 0);
}

#[test]
fn waypoint_brakes_over_target_speed() {
    // speed=25 against a target of 15: brake, do not accelerate.
    let snap = TickSnapshot { speed: 25_000_000, ..snapshot() };
    let d = decide_waypoint(&snap, 0);
    assert!(d.brake);
    assert!(!d.accelerate);
}

#[test]
fn waypoint_steering_clamps_to_full_lock() {
    // Vehicle at the origin, rotation 0, waypoint straight up: the bearing
    // is pi/2, and the angle still to turn clamps to 1.0.
    let target_angle: i64 = 1_570_796;
    let d = decide_waypoint(&snapshot(), target_angle);
    assert_eq!(d.steering, 1_000_000);
    // A bearing within the clamp passes through exactly.
    let d = decide_waypoint(&snapshot(), 250_000);
    assert_eq!(d.steering, 250_000);
}

#[test]
fn waypoint_packed_entry_point_matches_codec() {
    let snap = TickSnapshot { speed: 10_000_000, ..snapshot() };
    let p = process_waypoint_packed(&snap, 500_000);
    assert_eq!(p, encode_b(decide_waypoint(&snap, 500_000)));
    // Slow and half-right: accelerate bit plus the 0.5 steering image.
    assert_eq!(p, 0x8000_4000);
}

#[test]
fn buffer_module_keeps_center() {
    // The shared-buffer module: x=30 on a road 100 wide (center 50, dead
    // band 10): turn right, accelerate below 200, no brake.
    let mut m = BufferModule::new(1, 2);
    m.initialize();
    let snap = TickSnapshot {
        x: 30_000_000,
        speed: 50_000_000,
        road_width: 100_000_000,
        ..snapshot()
    };
    m.host_write_input(&snap);
    m.process();
    let (acc, brk, left, right) = m.read_output();
    assert_eq!(acc, 1_000_000);
    assert_eq!(brk, 0);
    assert_eq!(left, 0);
    assert_eq!(right, 1_000_000);
    let d = decision_from_cells(acc, brk, left, right);
    assert_eq!(
        d,
        ControlDecision { accelerate: true, brake: false, steering: 1_000_000 }
    );
}

#[test]
fn buffer_module_dead_band_and_brake() {
    let mut m = BufferModule::new(1, 2);
    m.initialize();
    // Inside the dead band at speed 350: brake, no turn.
    let snap = TickSnapshot {
        x: 55_000_000,
        speed: 350_000_000,
        road_width: 100_000_000,
        ..snapshot()
    };
    m.host_write_input(&snap);
    m.process();
    let (acc, brk, left, right) = m.read_output();
    assert_eq!(acc, 0);
    assert_eq!(brk, 1_000_000);
    assert_eq!(left, 0);
    assert_eq!(right, 0);
    let d = decision_from_cells(acc, brk, left, right);
    assert_eq!(d.steering, 0);
    assert!(d.brake);
}

#[test]
fn buffer_module_turns_left_past_center() {
    let mut m = BufferModule::new(1, 2);
    m.initialize();
    let snap = TickSnapshot {
        x: 70_000_000,
        speed: 250_000_000,
        road_width: 100_000_000,
        ..snapshot()
    };
    m.host_write_input(&snap);
    m.process();
    let (acc, brk, left, right) = m.read_output();
    assert_eq!(acc, 0);
    assert_eq!(brk, 0);
    assert_eq!(left, 1_000_000);
    assert_eq!(right, 0);
    assert_eq!(decision_from_cells(acc, brk, left, right).steering, -1_000_000);
}

#[test]
fn buffer_addresses_stable_across_lifetime() {
    // After initialize, both address queries answer the same on every
    // call, through writes, processing and teardown.
    let mut m = BufferModule::new(7, 13);
    m.initialize();
    assert_eq!(m.allocate_input(), 7);
    assert_eq!(m.allocate_output(), 13);
    let snap = snapshot();
    m.host_write_input(&snap);
    m.process();
    assert_eq!(m.allocate_input(), 7);
    assert_eq!(m.allocate_output(), 13);
    m.cleanup();
    assert_eq!(m.allocate_input(), 7);
    assert_eq!(m.allocate_output(), 13);
}

#[test]
fn initialize_is_idempotent_and_cleanup_safe() {
    let mut m = BufferModule::new(3, 4);
    m.initialize();
    m.initialize();
    assert_eq!(m.allocate_input(), 3);
    // Teardown on an instance that allocated nothing extra, twice.
    m.cleanup();
    m.cleanup();
    assert_eq!(m.allocate_output(), 4);
}

#[test]
fn diagnostic_sink_never_affects_decisions() {
    let mut with_sink = BufferModule::new(1, 2);
    let mut without = BufferModule::new(1, 2);
    with_sink.initialize();
    without.initialize();
    let snap = TickSnapshot { x: 30_000_000, speed: 50_000_000, road_width: 100_000_000, ..snapshot() };
    with_sink.emit_diagnostic(42);
    with_sink.host_write_input(&snap);
    with_sink.emit_diagnostic(-7);
    without.host_write_input(&snap);
    with_sink.process();
    without.process();
    assert_eq!(with_sink.read_output(), without.read_output());
    // The host forwards the messages uninterpreted, oldest first.
    assert_eq!(with_sink.drain_diagnostics(), vec![42, -7]);
    assert_eq!(with_sink.drain_diagnostics(), Vec::<i64>::new());
}

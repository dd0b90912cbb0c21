use tickwire::adapter::{
    accept_instance, make_output_buffer_a, reset_output_buffer_a, tick_buffer_module,
    FallbackPolicy, HostAdapter, LoadError, TickOutcome,
};
use tickwire::codec_a::write_decision_a;
use tickwire::decision::ControlDecision;
use tickwire::modules::BufferModule;
use tickwire::snapshot::TickSnapshot;

fn decision(accelerate: bool, brake: bool, steering: i64) -> ControlDecision {
    ControlDecision { accelerate, brake, steering }
}

fn neutral() -> ControlDecision {
    decision(false, false, 0)
}

#[test]
fn timeout_faults_once_and_simulation_continues() {
    // A module that never returns in time: exactly one fault report, the
    // instance is isolated, and every later tick runs on the fallback.
    let mut a = HostAdapter::new(FallbackPolicy::Neutral);
    assert!(a.should_invoke());

    let (d, report) = a.settle_tick(TickOutcome::TimedOut);
    assert!(report);
    assert_eq!(d, neutral());
    assert!(!a.should_invoke());

    let mut reports = 0;
    for _ in 0..5 {
        let (d, report) = a.settle_tick(TickOutcome::TimedOut);
        assert_eq!(d, neutral());
        if report {
            reports += 1;
        }
    }
    assert_eq!(reports, 0);

    // Even a decision that arrives later is not trusted.
    let (d, report) = a.settle_tick(TickOutcome::Completed(decision(true, false, 9)));
    assert!(!report);
    assert_eq!(d, neutral());
}

#[test]
fn last_known_good_policy_reports_previous_decision() {
    let mut a = HostAdapter::new(FallbackPolicy::LastKnownGood);
    let good = decision(true, false, 250_000);
    let (d, report) = a.settle_tick(TickOutcome::Completed(good));
    assert!(!report);
    assert_eq!(d, good);

    let (d, report) = a.settle_tick(TickOutcome::TimedOut);
    assert!(report);
    assert_eq!(d, good);

    let (d, report) = a.settle_tick(TickOutcome::TimedOut);
    assert!(!report);
    assert_eq!(d, good);
}

#[test]
fn completed_ticks_flow_through() {
    let mut a = HostAdapter::new(FallbackPolicy::Neutral);
    let first = decision(true, true, -500_000);
    let second = decision(false, true, 0);
    assert_eq!(a.settle_tick(TickOutcome::Completed(first)), (first, false));
    assert_eq!(a.settle_tick(TickOutcome::Completed(second)), (second, false));
    assert!(a.should_invoke());
}

#[test]
fn output_buffer_is_zeroed_before_each_call() {
    let mut buf = make_output_buffer_a();
    assert_eq!(buf.len(), 12);
    assert!(buf.iter().all(|&b| b == 0));
    write_decision_a(&mut buf, 0, true, true, 0xFFFF_FFFF);
    assert!(buf.iter().any(|&b| b != 0));
    reset_output_buffer_a(&mut buf);
    assert_eq!(buf.len(), 12);
    assert!(buf.iter().all(|&b| b == 0));
}

#[test]
fn whole_tick_against_buffer_module() {
    let mut m = BufferModule::new(100, 200);
    m.initialize();
    let snap = TickSnapshot {
        x: 10_000_000,
        y: 0,
        speed: 250_000_000,
        rotation: 0,
        vehicle_width: 2_000_000,
        vehicle_height: 4_000_000,
        road_width: 100_000_000,
        road_height: 600_000_000,
        delta_time: 16_000,
    };
    let d = tick_buffer_module(&mut m, &snap);
    // x=10, center 50: steer right; 250 is between the speed thresholds.
    assert_eq!(d, decision(false, false, 1_000_000));
    assert_eq!(m.allocate_input(), 100);
    assert_eq!(m.allocate_output(), 200);
}

#[test]
fn uninitialized_instance_is_rejected_at_load() {
    let mut m = BufferModule::new(1, 2);
    assert_eq!(accept_instance(&m), Err(LoadError::InitializationMissing));
    m.initialize();
    assert_eq!(accept_instance(&m), Ok(()));
}

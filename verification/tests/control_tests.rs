use nuclear_monitor::control::{
    aggregate_load, derived_cpu_temp, get_core_usage, key_command, memory_percent, reactor_status,
    sim_wave_step, stress_toggle_action, AppState, KeyCommand, ReactorStatus, StressAction,
};
use nuclear_monitor::util::{clamp, sat_add_u8};

#[test]
fn pause_toggles_both_ways() {
    assert_eq!(AppState::Running.toggle_pause(), AppState::Paused);
    assert_eq!(AppState::Paused.toggle_pause(), AppState::Running);
}

#[test]
fn status_banding_thresholds() {
    assert_eq!(reactor_status(9_001, false), ReactorStatus::Critical);
    assert_eq!(reactor_status(9_000, false), ReactorStatus::Danger);
    assert_eq!(reactor_status(7_501, false), ReactorStatus::Danger);
    assert_eq!(reactor_status(7_500, false), ReactorStatus::Warning);
    assert_eq!(reactor_status(6_001, false), ReactorStatus::Warning);
    assert_eq!(reactor_status(6_000, false), ReactorStatus::Caution);
    assert_eq!(reactor_status(4_001, false), ReactorStatus::Caution);
    assert_eq!(reactor_status(4_000, false), ReactorStatus::Normal);
    assert_eq!(reactor_status(2_001, false), ReactorStatus::Normal);
    assert_eq!(reactor_status(2_000, false), ReactorStatus::Idle);
    assert_eq!(reactor_status(0, false), ReactorStatus::Idle);
    // The explosion latch overrides every band.
    assert_eq!(reactor_status(0, true), ReactorStatus::Meltdown);
}

#[test]
fn status_labels() {
    assert_eq!(ReactorStatus::Meltdown.label(), "CRITICAL - MELTDOWN IMMINENT!");
    assert_eq!(ReactorStatus::Critical.label(), "Critical - Meltdown Imminent!");
    assert_eq!(ReactorStatus::Danger.label(), "Danger - Severe Radiation Leakage");
    assert_eq!(ReactorStatus::Warning.label(), "Warning - Reactor Unstable");
    assert_eq!(ReactorStatus::Caution.label(), "Caution - Increased Radiation Levels");
    assert_eq!(ReactorStatus::Normal.label(), "Normal - Routine Operation");
    assert_eq!(ReactorStatus::Idle.label(), "Idle - Minimal Load");
}

#[test]
fn stress_toggle_decisions() {
    assert_eq!(stress_toggle_action(true, false), StressAction::StopThread);
    assert_eq!(stress_toggle_action(true, true), StressAction::StopThread);
    assert_eq!(stress_toggle_action(false, true), StressAction::DisableWave);
    assert_eq!(stress_toggle_action(false, false), StressAction::StartThread);
}

#[test]
fn key_dispatch() {
    assert_eq!(key_command('p'), KeyCommand::TogglePause);
    assert_eq!(key_command('h'), KeyCommand::ToggleHelp);
    assert_eq!(key_command('s'), KeyCommand::ToggleStress);
    assert_eq!(key_command('q'), KeyCommand::NoOp);
    assert_eq!(key_command(' '), KeyCommand::NoOp);
}

#[test]
fn wave_advances_and_reverses() {
    assert_eq!(sim_wave_step(4_000, 1), (4_050, 1));
    assert_eq!(sim_wave_step(4_000, -1), (3_950, -1));
    assert_eq!(sim_wave_step(9_480, 1), (9_500, -1));
    assert_eq!(sim_wave_step(2_020, -1), (2_000, 1));
    // A full sweep stays within the documented band.
    let (mut v, mut d) = (4_000i64, 1i64);
    for _ in 0..1_000 {
        let (nv, nd) = sim_wave_step(v, d);
        v = nv;
        d = nd;
        assert!((2_000..=9_500).contains(&v));
    }
}

#[test]
fn aggregate_load_averages() {
    assert_eq!(aggregate_load(&vec![1_000, 2_000, 3_000]), 2_000);
    assert_eq!(aggregate_load(&vec![]), 0);
    assert_eq!(aggregate_load(&vec![10_000]), 10_000);
    assert_eq!(aggregate_load(&vec![0, 10_000]), 5_000);
}

#[test]
fn derived_cpu_temp_is_affine_in_load() {
    assert_eq!(derived_cpu_temp(0), 4_000);
    assert_eq!(derived_cpu_temp(5_000), 7_000);
    assert_eq!(derived_cpu_temp(10_000), 10_000);
    // Out-of-range loads are clamped.
    assert_eq!(derived_cpu_temp(-50), 4_000);
    assert_eq!(derived_cpu_temp(50_000), 10_000);
}

#[test]
fn memory_percent_handles_edges() {
    assert_eq!(memory_percent(0, 0), 0);
    assert_eq!(memory_percent(50, 100), 5_000);
    assert_eq!(memory_percent(100, 100), 10_000);
    assert_eq!(memory_percent(200, 100), 10_000);
    assert_eq!(memory_percent(1, 3), 3_333);
}

#[test]
fn core_usage_falls_back_to_aggregate() {
    let cores = vec![1_000, 2_000, 3_000];
    assert_eq!(get_core_usage(&cores, 9_999, 0), 1_000);
    assert_eq!(get_core_usage(&cores, 9_999, 2), 3_000);
    assert_eq!(get_core_usage(&cores, 9_999, 3), 9_999);
    assert_eq!(get_core_usage(&vec![], 1_234, 0), 1_234);
}

#[test]
fn clamp_and_saturating_add() {
    assert_eq!(clamp(-5, 0, 10), 0);
    assert_eq!(clamp(5, 0, 10), 5);
    assert_eq!(clamp(15, 0, 10), 10);
    assert_eq!(sat_add_u8(200, 100), 255);
    assert_eq!(sat_add_u8(200, 54), 254);
    assert_eq!(sat_add_u8(0, 0), 0);
}

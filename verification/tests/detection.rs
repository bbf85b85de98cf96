use gaming_optimizer::{
    get_gaming_settings, is_gaming_active, on_input_event, set_gaming_mode, set_gaming_profile,
    should_optimize_for_gaming, GamingMode, GamingOptimizer, GamingProfile, GamingSettings,
};

fn profile(fps: u32, mult_x100: u32) -> GamingProfile {
    GamingProfile {
        target_fps: fps,
        max_bitrate_mult_x100: mult_x100,
        input_priority: true,
        immediate_frame_mode: true,
        capture_optimization: true,
    }
}

#[test]
fn disabled_mode_reports_false_and_never_mutates_state() {
    let mut o = GamingOptimizer::new(0);
    set_gaming_mode(&mut o, GamingMode::Disabled);
    let before = o;
    // Positive heuristics in every combination must not activate anything.
    assert!(!should_optimize_for_gaming(&mut o, 10, true, true));
    assert!(!should_optimize_for_gaming(&mut o, 20, true, false));
    assert!(!should_optimize_for_gaming(&mut o, 30, false, true));
    assert!(!should_optimize_for_gaming(&mut o, 40, false, false));
    assert_eq!(o, before);
    assert!(!is_gaming_active(&o));
}

#[test]
fn forced_mode_reports_true_without_flipping_state() {
    let mut o = GamingOptimizer::new(0);
    set_gaming_mode(&mut o, GamingMode::Force);
    let before = o;
    assert!(should_optimize_for_gaming(&mut o, 1_000_000, false, false));
    assert_eq!(o, before);
    // Force reports active but does not persist an Active detection state.
    assert!(!is_gaming_active(&o));
}

#[test]
fn activation_is_immediate_on_one_positive_heuristic() {
    let mut o = GamingOptimizer::new(0);
    assert!(!is_gaming_active(&o));
    assert!(should_optimize_for_gaming(&mut o, 1000, true, false));
    assert!(is_gaming_active(&o));
}

#[test]
fn hysteresis_keeps_active_until_cooldown_passes() {
    let mut o = GamingOptimizer::new(0);
    // Activate at t = 1000 with a positive process heuristic.
    assert!(should_optimize_for_gaming(&mut o, 1000, true, false));
    // All heuristics negative before 30 s have elapsed: still active.
    assert!(should_optimize_for_gaming(&mut o, 15_000, false, false));
    assert!(is_gaming_active(&o));
    // Exactly at the boundary (elapsed == 30 s, not strictly more): still active.
    assert!(should_optimize_for_gaming(&mut o, 31_000, false, false));
    assert!(is_gaming_active(&o));
    // Strictly past the boundary with continued negative heuristics: inactive.
    assert!(!should_optimize_for_gaming(&mut o, 31_001, false, false));
    assert!(!is_gaming_active(&o));
}

#[test]
fn reactivation_restarts_the_cooldown() {
    let mut o = GamingOptimizer::new(0);
    assert!(should_optimize_for_gaming(&mut o, 1000, true, false));
    assert!(!should_optimize_for_gaming(&mut o, 40_000, false, false));
    // A new positive heuristic re-activates with a fresh start time.
    assert!(should_optimize_for_gaming(&mut o, 50_000, false, true));
    // 25 s after re-activation: still within the new cooldown.
    assert!(should_optimize_for_gaming(&mut o, 75_000, false, false));
    // More than 30 s after re-activation: deactivates.
    assert!(!should_optimize_for_gaming(&mut o, 80_001, false, false));
}

#[test]
fn recent_input_event_counts_as_detected() {
    let mut o = GamingOptimizer::new(0);
    // Let the construction-time input grow stale first.
    assert!(!should_optimize_for_gaming(&mut o, 10_000, false, false));
    on_input_event(&mut o, 20_000);
    // 99 ms later, all other heuristics negative: still detected.
    assert!(should_optimize_for_gaming(&mut o, 20_099, false, false));
    assert!(is_gaming_active(&o));
}

#[test]
fn stale_input_event_does_not_count() {
    let mut o = GamingOptimizer::new(0);
    on_input_event(&mut o, 20_000);
    // 100 ms later the input window is closed.
    assert!(!should_optimize_for_gaming(&mut o, 20_100, false, false));
    assert!(!is_gaming_active(&o));
}

#[test]
fn quiet_auto_session_yields_default_snapshot() {
    let mut o = GamingOptimizer::new(0);
    assert_eq!(o.mode, GamingMode::Auto);
    assert!(!should_optimize_for_gaming(&mut o, 10_000, false, false));
    let s = get_gaming_settings(&o);
    assert_eq!(
        s,
        GamingSettings {
            fps: 30,
            bitrate_mult_x100: 100,
            input_priority: false,
            immediate_frame: false,
            capture_optimization: false,
            low_latency_mode: false,
        }
    );
}

#[test]
fn positive_process_heuristic_yields_profile_snapshot() {
    let mut o = GamingOptimizer::new(0);
    set_gaming_profile(&mut o, profile(90, 250));
    assert!(should_optimize_for_gaming(&mut o, 10_000, true, false));
    let s = get_gaming_settings(&o);
    assert_eq!(s.fps, 90);
    assert_eq!(s.bitrate_mult_x100, 250);
    assert!(s.input_priority);
    assert!(s.immediate_frame);
    assert!(s.capture_optimization);
    assert!(s.low_latency_mode);
}

#[test]
fn settings_reading_does_not_rerun_detection() {
    let mut o = GamingOptimizer::new(0);
    assert!(should_optimize_for_gaming(&mut o, 1000, true, false));
    let before = o;
    let _ = get_gaming_settings(&o);
    let _ = is_gaming_active(&o);
    assert_eq!(o, before);
}

#[test]
fn low_latency_flag_tracks_activity() {
    let mut o = GamingOptimizer::new(0);
    assert!(!get_gaming_settings(&o).low_latency_mode);
    assert!(should_optimize_for_gaming(&mut o, 1000, true, false));
    assert!(get_gaming_settings(&o).low_latency_mode);
    assert!(!should_optimize_for_gaming(&mut o, 40_000, false, false));
    assert!(!get_gaming_settings(&o).low_latency_mode);
}

#[test]
fn mode_switch_does_not_touch_detection_state() {
    let mut o = GamingOptimizer::new(0);
    assert!(should_optimize_for_gaming(&mut o, 1000, true, false));
    let detection = o.detection;
    set_gaming_mode(&mut o, GamingMode::Disabled);
    assert_eq!(o.detection, detection);
    set_gaming_mode(&mut o, GamingMode::Force);
    assert_eq!(o.detection, detection);
    // The cached flag still reflects the last Auto evaluation.
    assert!(is_gaming_active(&o));
}

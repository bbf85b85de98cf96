use gaming_optimizer::config::{
    gaming_mode_to_string, load_fps, load_mult_x100, mult_x100_to_string, parse_gaming_mode,
    parse_yn, yn_str,
};
use gaming_optimizer::{
    apply_gaming_preset_balanced, apply_gaming_preset_high_quality, apply_gaming_preset_low_latency,
    load_gaming_config, save_gaming_config, should_optimize_for_gaming, GamingMode, GamingOptimizer,
    GamingProfile,
};

fn profile(fps: u32, mult_x100: u32, ip: bool, imf: bool, co: bool) -> GamingProfile {
    GamingProfile {
        target_fps: fps,
        max_bitrate_mult_x100: mult_x100,
        input_priority: ip,
        immediate_frame_mode: imf,
        capture_optimization: co,
    }
}

#[test]
fn mode_strings_parse_back() {
    assert_eq!(parse_gaming_mode("auto"), GamingMode::Auto);
    assert_eq!(parse_gaming_mode("force"), GamingMode::Force);
    // Any other value, the stored name of Disabled included, falls back to Auto.
    assert_eq!(parse_gaming_mode("disabled"), GamingMode::Auto);
    assert_eq!(parse_gaming_mode(""), GamingMode::Auto);
    assert_eq!(parse_gaming_mode("FORCE"), GamingMode::Auto);
    assert_eq!(gaming_mode_to_string(GamingMode::Auto), "auto");
    assert_eq!(gaming_mode_to_string(GamingMode::Force), "force");
    assert_eq!(gaming_mode_to_string(GamingMode::Disabled), "disabled");
}

#[test]
fn fps_parsing_defaults_and_clamps() {
    assert_eq!(load_fps("60"), 60);
    assert_eq!(load_fps("30"), 30);
    assert_eq!(load_fps("120"), 120);
    assert_eq!(load_fps("29"), 30);
    assert_eq!(load_fps("121"), 120);
    assert_eq!(load_fps("0"), 30);
    // Malformed or missing values fall back to the default of 60.
    assert_eq!(load_fps(""), 60);
    assert_eq!(load_fps("abc"), 60);
    assert_eq!(load_fps("6o"), 60);
    assert_eq!(load_fps("-5"), 60);
    // A value over u32::MAX cannot be parsed and also falls back.
    assert_eq!(load_fps("99999999999"), 60);
}

#[test]
fn multiplier_parsing_defaults_and_clamps() {
    assert_eq!(load_mult_x100("2.50"), 250);
    assert_eq!(load_mult_x100("2.5"), 250);
    assert_eq!(load_mult_x100("2"), 200);
    assert_eq!(load_mult_x100("1.00"), 100);
    assert_eq!(load_mult_x100("5.00"), 500);
    // Clamped to [1.00, 5.00].
    assert_eq!(load_mult_x100("0.5"), 100);
    assert_eq!(load_mult_x100("0"), 100);
    assert_eq!(load_mult_x100("5.01"), 500);
    assert_eq!(load_mult_x100("6"), 500);
    assert_eq!(load_mult_x100("99999999999999999999"), 500);
    // Malformed values fall back to the default of 2.00.
    assert_eq!(load_mult_x100(""), 200);
    assert_eq!(load_mult_x100("x"), 200);
    assert_eq!(load_mult_x100("2."), 200);
    assert_eq!(load_mult_x100(".5"), 200);
    assert_eq!(load_mult_x100("2.345"), 200);
    assert_eq!(load_mult_x100("2.5.0"), 200);
    assert_eq!(load_mult_x100("2,5"), 200);
}

#[test]
fn multiplier_serialization_is_exact() {
    assert_eq!(mult_x100_to_string(250), "2.50");
    assert_eq!(mult_x100_to_string(100), "1.00");
    assert_eq!(mult_x100_to_string(305), "3.05");
    assert_eq!(mult_x100_to_string(500), "5.00");
}

#[test]
fn boolean_settings_parse_back() {
    assert_eq!(yn_str(true), "Y");
    assert_eq!(yn_str(false), "N");
    assert!(parse_yn("Y"));
    assert!(!parse_yn("N"));
    assert!(!parse_yn(""));
    assert!(!parse_yn("y"));
}

#[test]
fn save_then_load_round_trips_in_range_values() {
    let mut o = GamingOptimizer::new(0);
    let p = profile(90, 325, true, false, true);
    let values = save_gaming_config(&mut o, GamingMode::Force, &p);
    assert_eq!(values.mode, "force");
    assert_eq!(values.target_fps, "90");
    assert_eq!(values.bitrate_multiplier, "3.25");
    assert_eq!(values.input_priority, "Y");
    assert_eq!(values.immediate_frame, "N");
    assert_eq!(values.capture_optimization, "Y");

    let mut o2 = GamingOptimizer::new(0);
    load_gaming_config(&mut o2, &values);
    assert_eq!(o2.mode, GamingMode::Force);
    assert_eq!(o2.profile, p);
}

#[test]
fn round_trip_holds_at_the_clamp_edges() {
    for &(fps, mult) in &[(30u32, 100u32), (120, 500), (60, 200), (31, 101), (119, 499)] {
        let p = profile(fps, mult, false, false, false);
        let mut o = GamingOptimizer::new(0);
        let values = save_gaming_config(&mut o, GamingMode::Auto, &p);
        let mut o2 = GamingOptimizer::new(0);
        load_gaming_config(&mut o2, &values);
        assert_eq!(o2.mode, GamingMode::Auto);
        assert_eq!(o2.profile, p);
    }
}

#[test]
fn saving_disabled_reads_back_as_auto() {
    let mut o = GamingOptimizer::new(0);
    let p = profile(60, 200, true, true, true);
    let values = save_gaming_config(&mut o, GamingMode::Disabled, &p);
    assert_eq!(values.mode, "disabled");
    let mut o2 = GamingOptimizer::new(0);
    load_gaming_config(&mut o2, &values);
    assert_eq!(o2.mode, GamingMode::Auto);
    assert_eq!(o2.profile, p);
}

#[test]
fn save_and_load_push_state_live_but_keep_detection() {
    let mut o = GamingOptimizer::new(0);
    // Activate first, then reconfigure: the detection state must survive.
    assert!(should_optimize_for_gaming(&mut o, 1000, true, false));
    let detection = o.detection;
    let p = profile(75, 150, true, true, false);
    let values = save_gaming_config(&mut o, GamingMode::Auto, &p);
    assert_eq!(o.profile, p);
    assert_eq!(o.detection, detection);
    load_gaming_config(&mut o, &values);
    assert_eq!(o.profile, p);
    assert_eq!(o.detection, detection);
}

#[test]
fn presets_apply_their_fixed_profiles() {
    let mut o = GamingOptimizer::new(0);

    let values = apply_gaming_preset_low_latency(&mut o);
    assert_eq!(o.mode, GamingMode::Auto);
    assert_eq!(o.profile, profile(60, 150, true, true, true));
    assert_eq!(values.target_fps, "60");
    assert_eq!(values.bitrate_multiplier, "1.50");

    let values = apply_gaming_preset_high_quality(&mut o);
    assert_eq!(o.profile, profile(120, 300, true, false, true));
    assert_eq!(values.target_fps, "120");
    assert_eq!(values.bitrate_multiplier, "3.00");
    assert_eq!(values.immediate_frame, "N");

    let values = apply_gaming_preset_balanced(&mut o);
    assert_eq!(o.profile, profile(75, 200, true, true, true));
    assert_eq!(values.target_fps, "75");
    assert_eq!(values.bitrate_multiplier, "2.00");

    // Every preset round-trips through the store.
    let mut o2 = GamingOptimizer::new(0);
    load_gaming_config(&mut o2, &values);
    assert_eq!(o2.mode, GamingMode::Auto);
    assert_eq!(o2.profile, o.profile);
}

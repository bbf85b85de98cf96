use gaming_optimizer::optimizer::{
    cmdline_indicates_gaming, process_query_output_indicates_gaming,
};
use gaming_optimizer::text::{parse_u32_dec, str_contains, str_contains_ci, str_eq, u32_to_dec_string};
use gaming_optimizer::{derive_settings, GamingProfile, GamingSettings};

#[test]
fn derive_active_projects_every_profile_field() {
    // Out-of-range values too: derivation never validates or clamps.
    for &(fps, mult, ip, imf, co) in &[
        (60u32, 200u32, true, true, true),
        (30, 100, false, false, false),
        (120, 500, true, false, true),
        (0, 7, false, true, false),
        (100_000, 90_000, true, true, false),
    ] {
        let p = GamingProfile {
            target_fps: fps,
            max_bitrate_mult_x100: mult,
            input_priority: ip,
            immediate_frame_mode: imf,
            capture_optimization: co,
        };
        let s = derive_settings(true, &p);
        assert_eq!(s.fps, fps);
        assert_eq!(s.bitrate_mult_x100, mult);
        assert_eq!(s.input_priority, ip);
        assert_eq!(s.immediate_frame, imf);
        assert_eq!(s.capture_optimization, co);
        assert!(s.low_latency_mode);
    }
}

#[test]
fn derive_inactive_ignores_the_profile() {
    let fixed = GamingSettings {
        fps: 30,
        bitrate_mult_x100: 100,
        input_priority: false,
        immediate_frame: false,
        capture_optimization: false,
        low_latency_mode: false,
    };
    for &(fps, mult) in &[(60u32, 200u32), (120, 500), (0, 0), (99, 1)] {
        let p = GamingProfile {
            target_fps: fps,
            max_bitrate_mult_x100: mult,
            input_priority: true,
            immediate_frame_mode: true,
            capture_optimization: true,
        };
        assert_eq!(derive_settings(false, &p), fixed);
    }
}

#[test]
fn gaming_cmdlines_are_recognized_case_insensitively() {
    assert!(cmdline_indicates_gaming("/usr/bin/steam"));
    assert!(cmdline_indicates_gaming("Steam"));
    assert!(cmdline_indicates_gaming("WINE notepad.exe"));
    assert!(cmdline_indicates_gaming("/usr/games/Lutris --run"));
    assert!(cmdline_indicates_gaming("gamemoderun ./app"));
    assert!(cmdline_indicates_gaming("MangoHud %command%"));
    assert!(!cmdline_indicates_gaming(""));
    assert!(!cmdline_indicates_gaming("/usr/bin/bash"));
    assert!(!cmdline_indicates_gaming("stea m"));
}

#[test]
fn process_query_output_is_interpreted() {
    assert!(process_query_output_indicates_gaming("ProcessName\n-----------\nsteam"));
    assert!(!process_query_output_indicates_gaming(""));
    assert!(!process_query_output_indicates_gaming("   \r\n\t"));
    // Non-blank output without the column header is not a match.
    assert!(!process_query_output_indicates_gaming("error: access denied"));
}

#[test]
fn text_helpers_behave_on_concrete_values() {
    assert_eq!(parse_u32_dec("0"), Some(0));
    assert_eq!(parse_u32_dec("4294967295"), Some(u32::MAX));
    assert_eq!(parse_u32_dec("4294967296"), None);
    assert_eq!(parse_u32_dec("0060"), Some(60));
    assert_eq!(parse_u32_dec(""), None);
    assert_eq!(parse_u32_dec("1a"), None);
    assert_eq!(u32_to_dec_string(0), "0");
    assert_eq!(u32_to_dec_string(305), "305");
    assert_eq!(u32_to_dec_string(u32::MAX), "4294967295");
    assert!(str_eq("abc", "abc"));
    assert!(!str_eq("abc", "abd"));
    assert!(!str_eq("abc", "ab"));
    assert!(str_contains("haystack", "sta"));
    assert!(!str_contains("haystack", "stax"));
    assert!(str_contains("abc", ""));
    assert!(str_contains_ci("HayStack", "stack"));
    assert!(!str_contains_ci("HayStack", "STACK"));
}

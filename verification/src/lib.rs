//! Adaptive gaming-session optimization for a remote-desktop pipeline.
//!
//! The library decides, from runtime heuristics, whether a streaming session
//! should switch to a low-latency "gaming" profile. It owns the detection
//! state machine (activation with hysteresis), the derivation of concrete
//! streaming settings from the active profile, and the textual encoding of
//! the configuration. Time is passed in as milliseconds and heuristic
//! outcomes as booleans, so every decision is a verified function of its
//! inputs; the host performs the OS queries and the storage I/O.

pub mod config;
pub mod optimizer;
pub mod text;

pub use crate::config::{
    apply_gaming_preset_balanced, apply_gaming_preset_high_quality, apply_gaming_preset_low_latency,
    lemma_config_round_trip, load_gaming_config, save_gaming_config, GamingConfigValues,
};
pub use crate::optimizer::{
    derive_settings, get_gaming_settings, is_gaming_active, on_input_event, set_gaming_mode,
    set_gaming_profile, should_optimize_for_gaming, DetectionState, GamingMode, GamingOptimizer,
    GamingProfile, GamingSettings,
};

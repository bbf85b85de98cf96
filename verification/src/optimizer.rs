//! The gaming optimizer: mode selection, scenario detection with hysteresis,
//! and derivation of the settings snapshot consumed by the streaming pipeline.
//!
//! All timestamps are milliseconds on one monotonic clock, supplied by the
//! caller. Heuristic outcomes that only the host OS can compute (a gaming
//! process is running, a fullscreen-exclusive window is up) are supplied as
//! booleans; the input-frequency heuristic is computed here from the last
//! recorded input-event timestamp.

use vstd::prelude::*;

use crate::text::{
    contains_ci, contains_seq, is_all_space, str_all_space, str_contains, str_contains_ci,
};

verus! {

/// Milliseconds without any positive heuristic after which an active gaming
/// session is allowed to deactivate (the hysteresis cooldown).
pub const COOLDOWN_MS: u64 = 30000;

/// An input event younger than this many milliseconds counts as a positive
/// input-frequency heuristic.
pub const INPUT_WINDOW_MS: u64 = 100;

/// Governs whether gaming detection is consulted at all.
#[derive(Clone, Copy, PartialEq, Eq, Structural, Debug)]
pub enum GamingMode {
    Disabled,
    /// Detect gaming scenarios from heuristics.
    Auto,
    /// Always report gaming, without consulting heuristics.
    Force,
}

/// Tuning values applied while a gaming session is active. The bitrate
/// multiplier is held in hundredths (200 stands for a multiplier of 2.00),
/// so that every field is exact.
#[derive(Clone, Copy, PartialEq, Eq, Structural, Debug)]
pub struct GamingProfile {
    pub target_fps: u32,
    pub max_bitrate_mult_x100: u32,
    pub input_priority: bool,
    pub immediate_frame_mode: bool,
    pub capture_optimization: bool,
}

/// The derived, read-only settings snapshot: a pure function of the activity
/// flag and the profile. The bitrate multiplier is in hundredths, as in
/// `GamingProfile`.
#[derive(Clone, Copy, PartialEq, Eq, Structural, Debug)]
pub struct GamingSettings {
    pub fps: u32,
    pub bitrate_mult_x100: u32,
    pub input_priority: bool,
    pub immediate_frame: bool,
    pub capture_optimization: bool,
    pub low_latency_mode: bool,
}

/// The detector's state: the last recorded input-event timestamp, the cached
/// activity flag, and the timestamp at which the current activation began.
#[derive(Clone, Copy, PartialEq, Eq, Structural, Debug)]
pub struct DetectionState {
    pub last_input_ms: u64,
    pub is_gaming_active: bool,
    pub gaming_start_ms: Option<u64>,
}

/// Owns the mode, the profile and the detection state, and exposes them as
/// one unit. The host shares one instance between its polling and input
/// contexts behind a mutual-exclusion boundary of its own.
#[derive(Clone, Copy, PartialEq, Eq, Structural, Debug)]
pub struct GamingOptimizer {
    pub mode: GamingMode,
    pub profile: GamingProfile,
    pub detection: DetectionState,
}

/// The conservative snapshot used whenever gaming optimization is not active.
pub open spec fn spec_default_settings() -> GamingSettings {
    GamingSettings {
        fps: 30,
        bitrate_mult_x100: 100,
        input_priority: false,
        immediate_frame: false,
        capture_optimization: false,
        low_latency_mode: false,
    }
}

/// The profile in effect until the host loads or sets one.
pub open spec fn spec_default_profile() -> GamingProfile {
    GamingProfile {
        target_fps: 60,
        max_bitrate_mult_x100: 200,
        input_priority: true,
        immediate_frame_mode: true,
        capture_optimization: true,
    }
}

/// The last input event, seen from `now_ms`, is younger than the input
/// window. An input timestamp in the future (impossible on one monotonic
/// clock) also counts as recent, as a zero elapsed time would.
pub open spec fn input_recent(last_input_ms: u64, now_ms: u64) -> bool {
    (now_ms as int) < (last_input_ms as int) + (INPUT_WINDOW_MS as int)
}

/// Strictly more than the cooldown has elapsed since `start_ms`.
pub open spec fn cooldown_elapsed(start_ms: u64, now_ms: u64) -> bool {
    (now_ms as int) > (start_ms as int) + (COOLDOWN_MS as int)
}

/// Any heuristic signal is positive: a gaming process, a fullscreen-exclusive
/// window, or recent input activity.
pub open spec fn heuristics_positive(
    st: DetectionState,
    now_ms: u64,
    process_detected: bool,
    fullscreen_detected: bool,
) -> bool {
    process_detected || fullscreen_detected || input_recent(st.last_input_ms, now_ms)
}

/// One hysteresis step of the detector: activate immediately on a positive
/// signal; deactivate only after the cooldown has elapsed with a negative
/// signal; otherwise leave the state unchanged.
pub open spec fn spec_detect_step(st: DetectionState, detected: bool, now_ms: u64) -> DetectionState {
    if detected && !st.is_gaming_active {
        DetectionState { is_gaming_active: true, gaming_start_ms: Some(now_ms), ..st }
    } else if !detected && st.is_gaming_active && st.gaming_start_ms is Some && cooldown_elapsed(
        st.gaming_start_ms->0,
        now_ms,
    ) {
        DetectionState { is_gaming_active: false, gaming_start_ms: None, ..st }
    } else {
        st
    }
}

/// The settings snapshot derived from the activity flag and the profile:
/// the profile projected one-to-one with low-latency mode forced on while
/// active, the fixed default snapshot otherwise.
pub open spec fn spec_derive_settings(active: bool, profile: GamingProfile) -> GamingSettings {
    if active {
        GamingSettings {
            fps: profile.target_fps,
            bitrate_mult_x100: profile.max_bitrate_mult_x100,
            input_priority: profile.input_priority,
            immediate_frame: profile.immediate_frame_mode,
            capture_optimization: profile.capture_optimization,
            low_latency_mode: true,
        }
    } else {
        spec_default_settings()
    }
}

impl GamingProfile {
    pub fn new_default() -> (r: GamingProfile)
        ensures
            r == spec_default_profile(),
    {
        GamingProfile {
            target_fps: 60,
            max_bitrate_mult_x100: 200,
            input_priority: true,
            immediate_frame_mode: true,
            capture_optimization: true,
        }
    }
}

impl Default for GamingProfile {
    fn default() -> (r: GamingProfile)
        ensures
            r == spec_default_profile(),
    {
        GamingProfile::new_default()
    }
}

impl GamingSettings {
    pub fn new_default() -> (r: GamingSettings)
        ensures
            r == spec_default_settings(),
    {
        GamingSettings {
            fps: 30,
            bitrate_mult_x100: 100,
            input_priority: false,
            immediate_frame: false,
            capture_optimization: false,
            low_latency_mode: false,
        }
    }
}

impl Default for GamingSettings {
    fn default() -> (r: GamingSettings)
        ensures
            r == spec_default_settings(),
    {
        GamingSettings::new_default()
    }
}

/// Derives the settings snapshot for one cycle. Projects the profile and
/// forces low-latency mode while active; yields the fixed default snapshot
/// otherwise. Total: never fails, for any profile values.
pub fn derive_settings(active: bool, profile: &GamingProfile) -> (r: GamingSettings)
    ensures
        r == spec_derive_settings(active, *profile),
        active ==> r.fps == profile.target_fps && r.bitrate_mult_x100
            == profile.max_bitrate_mult_x100 && r.input_priority == profile.input_priority
            && r.immediate_frame == profile.immediate_frame_mode && r.capture_optimization
            == profile.capture_optimization,
        !active ==> r == spec_default_settings(),
        r.low_latency_mode == active,
{
    if active {
        GamingSettings {
            fps: profile.target_fps,
            bitrate_mult_x100: profile.max_bitrate_mult_x100,
            input_priority: profile.input_priority,
            immediate_frame: profile.immediate_frame_mode,
            capture_optimization: profile.capture_optimization,
            low_latency_mode: true,
        }
    } else {
        GamingSettings::new_default()
    }
}

impl DetectionState {
    /// An activation timestamp is recorded whenever the state is active.
    pub open spec fn wf(self) -> bool {
        self.is_gaming_active ==> self.gaming_start_ms is Some
    }
}

impl GamingOptimizer {
    pub open spec fn wf(self) -> bool {
        self.detection.wf()
    }

    /// A fresh optimizer: automatic detection, the default profile, inactive.
    /// `now_ms` seeds the last-input timestamp, as construction time does for
    /// a live session.
    pub fn new(now_ms: u64) -> (r: GamingOptimizer)
        ensures
            r.mode == GamingMode::Auto,
            r.profile == spec_default_profile(),
            r.detection.last_input_ms == now_ms,
            !r.detection.is_gaming_active,
            r.detection.gaming_start_ms is None,
            r.wf(),
    {
        GamingOptimizer {
            mode: GamingMode::Auto,
            profile: GamingProfile::new_default(),
            detection: DetectionState {
                last_input_ms: now_ms,
                is_gaming_active: false,
                gaming_start_ms: None,
            },
        }
    }

    /// Replaces the active mode unconditionally; the next evaluation sees it.
    pub fn set_mode(&mut self, mode: GamingMode)
        ensures
            final(self).mode == mode,
            final(self).profile == old(self).profile,
            final(self).detection == old(self).detection,
    {
        self.mode = mode;
    }

    /// Replaces the profile wholesale; no validation at this layer.
    pub fn set_profile(&mut self, profile: GamingProfile)
        ensures
            final(self).profile == profile,
            final(self).mode == old(self).mode,
            final(self).detection == old(self).detection,
    {
        self.profile = profile;
    }

    /// One detection pass: combines the externally computed heuristics with
    /// the input-frequency heuristic and applies the hysteresis step.
    /// Must be invoked only in Auto mode; the mode precheck is the caller's.
    fn detect_gaming_scenario(
        &mut self,
        now_ms: u64,
        process_detected: bool,
        fullscreen_detected: bool,
    ) -> (r: bool)
        ensures
            final(self).mode == old(self).mode,
            final(self).profile == old(self).profile,
            final(self).detection == spec_detect_step(
                old(self).detection,
                heuristics_positive(old(self).detection, now_ms, process_detected, fullscreen_detected),
                now_ms,
            ),
            r == final(self).detection.is_gaming_active,
            old(self).wf() ==> final(self).wf(),
    {
        let mut gaming_detected = process_detected;
        gaming_detected = gaming_detected || fullscreen_detected;
        gaming_detected = gaming_detected || self.detect_high_input_frequency(now_ms);

        if gaming_detected && !self.detection.is_gaming_active {
            self.detection.gaming_start_ms = Some(now_ms);
            self.detection.is_gaming_active = true;
        } else if !gaming_detected && self.detection.is_gaming_active {
            // Cooldown period prevents rapid switching.
            if let Some(start_ms) = self.detection.gaming_start_ms {
                if now_ms > start_ms && now_ms - start_ms > COOLDOWN_MS {
                    self.detection.is_gaming_active = false;
                    self.detection.gaming_start_ms = None;
                }
            }
        }

        self.detection.is_gaming_active
    }

    /// The input-frequency heuristic: the last recorded input event is
    /// younger than the input window.
    fn detect_high_input_frequency(&self, now_ms: u64) -> (r: bool)
        ensures
            r == input_recent(self.detection.last_input_ms, now_ms),
    {
        if now_ms >= self.detection.last_input_ms {
            now_ms - self.detection.last_input_ms < INPUT_WINDOW_MS
        } else {
            true
        }
    }

    /// Whether gaming optimizations should be active this cycle. Disabled
    /// always answers false and Force always answers true, neither touching
    /// the detection state; Auto runs one detection pass, which may mutate it.
    pub fn should_optimize_for_gaming(
        &mut self,
        now_ms: u64,
        process_detected: bool,
        fullscreen_detected: bool,
    ) -> (r: bool)
        ensures
            final(self).mode == old(self).mode,
            final(self).profile == old(self).profile,
            old(self).mode == GamingMode::Disabled ==> !r && *final(self) == *old(self),
            old(self).mode == GamingMode::Force ==> r && *final(self) == *old(self),
            old(self).mode == GamingMode::Auto ==> final(self).detection == spec_detect_step(
                old(self).detection,
                heuristics_positive(old(self).detection, now_ms, process_detected, fullscreen_detected),
                now_ms,
            ) && r == final(self).detection.is_gaming_active,
            old(self).wf() ==> final(self).wf(),
    {
        match self.mode {
            GamingMode::Disabled => false,
            GamingMode::Force => true,
            GamingMode::Auto => self.detect_gaming_scenario(
                now_ms,
                process_detected,
                fullscreen_detected,
            ),
        }
    }

    /// Records an input event; feeds the input-frequency heuristic.
    pub fn on_input_event(&mut self, now_ms: u64)
        ensures
            final(self).mode == old(self).mode,
            final(self).profile == old(self).profile,
            final(self).detection.last_input_ms == now_ms,
            final(self).detection.is_gaming_active == old(self).detection.is_gaming_active,
            final(self).detection.gaming_start_ms == old(self).detection.gaming_start_ms,
    {
        self.detection.last_input_ms = now_ms;
    }

    /// The settings snapshot for the current cycle, from the cached activity
    /// flag; does not re-run detection.
    pub fn get_optimized_settings(&self) -> (r: GamingSettings)
        ensures
            r == spec_derive_settings(self.detection.is_gaming_active, self.profile),
            r.low_latency_mode == self.detection.is_gaming_active,
    {
        derive_settings(self.detection.is_gaming_active, &self.profile)
    }

    /// The cached activity flag, as of the last evaluation.
    pub fn is_gaming_active(&self) -> (r: bool)
        ensures
            r == self.detection.is_gaming_active,
    {
        self.detection.is_gaming_active
    }
}

/// Replaces the mode of a shared optimizer.
pub fn set_gaming_mode(optimizer: &mut GamingOptimizer, mode: GamingMode)
    ensures
        final(optimizer).mode == mode,
        final(optimizer).profile == old(optimizer).profile,
        final(optimizer).detection == old(optimizer).detection,
{
    optimizer.set_mode(mode);
}

/// Replaces the profile of a shared optimizer.
pub fn set_gaming_profile(optimizer: &mut GamingOptimizer, profile: GamingProfile)
    ensures
        final(optimizer).profile == profile,
        final(optimizer).mode == old(optimizer).mode,
        final(optimizer).detection == old(optimizer).detection,
{
    optimizer.set_profile(profile);
}

/// Evaluates a shared optimizer for one cycle; see the method of the same name.
pub fn should_optimize_for_gaming(
    optimizer: &mut GamingOptimizer,
    now_ms: u64,
    process_detected: bool,
    fullscreen_detected: bool,
) -> (r: bool)
    ensures
        final(optimizer).mode == old(optimizer).mode,
        final(optimizer).profile == old(optimizer).profile,
        old(optimizer).mode == GamingMode::Disabled ==> !r && *final(optimizer) == *old(optimizer),
        old(optimizer).mode == GamingMode::Force ==> r && *final(optimizer) == *old(optimizer),
        old(optimizer).mode == GamingMode::Auto ==> final(optimizer).detection == spec_detect_step(
            old(optimizer).detection,
            heuristics_positive(
                old(optimizer).detection,
                now_ms,
                process_detected,
                fullscreen_detected,
            ),
            now_ms,
        ) && r == final(optimizer).detection.is_gaming_active,
        old(optimizer).wf() ==> final(optimizer).wf(),
{
    optimizer.should_optimize_for_gaming(now_ms, process_detected, fullscreen_detected)
}

/// Records an input event on a shared optimizer.
pub fn on_input_event(optimizer: &mut GamingOptimizer, now_ms: u64)
    ensures
        final(optimizer).mode == old(optimizer).mode,
        final(optimizer).profile == old(optimizer).profile,
        final(optimizer).detection.last_input_ms == now_ms,
        final(optimizer).detection.is_gaming_active == old(optimizer).detection.is_gaming_active,
        final(optimizer).detection.gaming_start_ms == old(optimizer).detection.gaming_start_ms,
{
    optimizer.on_input_event(now_ms);
}

/// The settings snapshot of a shared optimizer for the current cycle.
pub fn get_gaming_settings(optimizer: &GamingOptimizer) -> (r: GamingSettings)
    ensures
        r == spec_derive_settings(optimizer.detection.is_gaming_active, optimizer.profile),
{
    optimizer.get_optimized_settings()
}

/// The cached activity flag of a shared optimizer.
pub fn is_gaming_active(optimizer: &GamingOptimizer) -> (r: bool)
    ensures
        r == optimizer.detection.is_gaming_active,
{
    optimizer.is_gaming_active()
}

/// A process command line indicates gaming when, lowered to ASCII, it holds
/// one of the known gaming-related names of the Linux family.
pub open spec fn spec_cmdline_gaming(cmd: Seq<char>) -> bool {
    contains_ci(cmd, "steam"@) || contains_ci(cmd, "wine"@) || contains_ci(cmd, "lutris"@)
        || contains_ci(cmd, "gamemode"@) || contains_ci(cmd, "mangohud"@)
}

/// Classifies one process command line, case-insensitively, against the
/// fixed gaming vocabulary of the Linux family. The host enumerates the
/// processes and hands each command line here.
pub fn cmdline_indicates_gaming(cmdline: &str) -> (r: bool)
    ensures
        r == spec_cmdline_gaming(cmdline@),
{
    str_contains_ci(cmdline, "steam") || str_contains_ci(cmdline, "wine") || str_contains_ci(
        cmdline,
        "lutris",
    ) || str_contains_ci(cmdline, "gamemode") || str_contains_ci(cmdline, "mangohud")
}

/// The process listing of the Windows family reports a match when its output
/// is not blank and holds the process-name column header.
pub open spec fn spec_process_query_output_gaming(out: Seq<char>) -> bool {
    !is_all_space(out) && contains_seq(out, "ProcessName"@)
}

/// Interprets the textual output of the Windows-family process query. The
/// host runs the query, whose filter carries that family's vocabulary, and
/// hands the raw output here.
pub fn process_query_output_indicates_gaming(output: &str) -> (r: bool)
    ensures
        r == spec_process_query_output_gaming(output@),
{
    !str_all_space(output) && str_contains(output, "ProcessName")
}

/// Hysteresis, holding side: an active session evaluated negative at or
/// before the cooldown boundary stays active, with its activation timestamp
/// kept.
pub proof fn lemma_hysteresis_keeps_active(st: DetectionState, now_ms: u64)
    requires
        st.is_gaming_active,
        st.gaming_start_ms is Some,
        (now_ms as int) <= (st.gaming_start_ms->0 as int) + (COOLDOWN_MS as int),
    ensures
        spec_detect_step(st, false, now_ms) == st,
{
}

/// Hysteresis, releasing side: an active session evaluated negative strictly
/// past the cooldown deactivates and clears its activation timestamp.
pub proof fn lemma_hysteresis_deactivates(st: DetectionState, now_ms: u64)
    requires
        st.is_gaming_active,
        st.gaming_start_ms is Some,
        (now_ms as int) > (st.gaming_start_ms->0 as int) + (COOLDOWN_MS as int),
    ensures
        !spec_detect_step(st, false, now_ms).is_gaming_active,
        spec_detect_step(st, false, now_ms).gaming_start_ms is None,
{
}

/// Activation is immediate: one positive evaluation reports gaming, and while
/// inactive it flips the state to active and records the activation start.
pub proof fn lemma_activation_immediate(st: DetectionState, now_ms: u64)
    ensures
        spec_detect_step(st, true, now_ms).is_gaming_active,
        !st.is_gaming_active ==> spec_detect_step(st, true, now_ms).gaming_start_ms == Some(
            now_ms,
        ),
{
}

/// An input event followed within the input window by an evaluation with all
/// other heuristics negative still counts as detected, so that evaluation
/// reports gaming.
pub proof fn lemma_recent_input_drives_detection(st: DetectionState, now_ms: u64)
    requires
        (now_ms as int) < (st.last_input_ms as int) + (INPUT_WINDOW_MS as int),
    ensures
        heuristics_positive(st, now_ms, false, false),
        spec_detect_step(
            st,
            heuristics_positive(st, now_ms, false, false),
            now_ms,
        ).is_gaming_active,
{
}

} // verus!


//! Textual configuration. The persisted store holds one string per setting;
//! this module parses those strings into a mode and a profile — falling back
//! to the documented default on any malformed value and clamping the numeric
//! fields to their valid ranges — and serializes a mode and profile back.
//! Reading and writing the store itself is the host's work.

use vstd::prelude::*;
use vstd::string::StringExecFns;

use crate::optimizer::{GamingMode, GamingOptimizer, GamingProfile};
use crate::text::{
    all_dec_digits, dec_str_view, dec_val, digit_char, digit_str, digit_val, find_char,
    is_dec_digit, lemma_dec_str_view, lemma_digit_char_val, lemma_find_char_at,
    lemma_find_char_none, parse_u32_dec, parse_u32_view, str_eq, u32_to_dec_string,
};

verus! {

broadcast use vstd::string::group_string_axioms;

/// The target fps assumed when the stored value is missing or malformed.
pub const DEFAULT_GAMING_FPS: u32 = 60;

/// The bitrate multiplier (in hundredths) assumed when the stored value is
/// missing or malformed.
pub const DEFAULT_GAMING_MULT_X100: u32 = 200;

pub const MIN_GAMING_FPS: u32 = 30;

pub const MAX_GAMING_FPS: u32 = 120;

pub const MIN_GAMING_MULT_X100: u32 = 100;

pub const MAX_GAMING_MULT_X100: u32 = 500;

/// The persisted configuration: one string per store key.
#[derive(Debug, Clone, PartialEq, Eq)]
pub struct GamingConfigValues {
    pub mode: String,
    pub target_fps: String,
    pub bitrate_multiplier: String,
    pub input_priority: String,
    pub immediate_frame: String,
    pub capture_optimization: String,
}

/// The stored name of each mode.
pub open spec fn spec_mode_str(mode: GamingMode) -> Seq<char> {
    match mode {
        GamingMode::Disabled => "disabled"@,
        GamingMode::Auto => "auto"@,
        GamingMode::Force => "force"@,
    }
}

/// The mode read from its stored name: only "force" selects Force; every
/// other value, "auto" or not, falls back to Auto.
pub open spec fn spec_parse_mode(s: Seq<char>) -> GamingMode {
    if s == "force"@ {
        GamingMode::Force
    } else {
        GamingMode::Auto
    }
}

pub open spec fn spec_clamp_u32(v: u32, lo: u32, hi: u32) -> u32 {
    if v < lo {
        lo
    } else if v > hi {
        hi
    } else {
        v
    }
}

/// The fps read from its stored string: the parsed value, or the default on
/// a malformed string, clamped to the valid range.
pub open spec fn spec_loaded_fps(s: Seq<char>) -> u32 {
    spec_clamp_u32(
        match parse_u32_view(s) {
            Some(v) => v,
            None => DEFAULT_GAMING_FPS,
        },
        MIN_GAMING_FPS,
        MAX_GAMING_FPS,
    )
}

/// The stored form of a boolean setting.
pub open spec fn spec_yn_str(b: bool) -> Seq<char> {
    if b {
        "Y"@
    } else {
        "N"@
    }
}

/// A boolean setting is on exactly when its stored string is "Y".
pub open spec fn spec_parse_yn(s: Seq<char>) -> bool {
    s == "Y"@
}

/// The hundredths value encoded by a decimal string: a nonempty run of
/// digits, optionally followed by one dot and one or two fraction digits.
/// Nothing when the string has another shape.
pub open spec fn spec_mult_hundredths(s: Seq<char>) -> Option<nat> {
    let dot = find_char(s, '.');
    if dot == -1 {
        if s.len() >= 1 && all_dec_digits(s) {
            Some(dec_val(s) * 100)
        } else {
            None
        }
    } else {
        let intp = s.take(dot);
        let frac = s.skip(dot + 1);
        if intp.len() >= 1 && all_dec_digits(intp) && 1 <= frac.len() && frac.len() <= 2
            && all_dec_digits(frac) {
            Some(
                dec_val(intp) * 100 + (if frac.len() == 1 {
                    digit_val(frac[0]) * 10
                } else {
                    dec_val(frac)
                }),
            )
        } else {
            None
        }
    }
}

/// The bitrate multiplier (in hundredths) read from its stored string: the
/// encoded value clamped to the valid range, or the default on a malformed
/// string.
pub open spec fn spec_loaded_mult(s: Seq<char>) -> u32 {
    match spec_mult_hundredths(s) {
        Some(h) => if h < MIN_GAMING_MULT_X100 {
            MIN_GAMING_MULT_X100
        } else if h > MAX_GAMING_MULT_X100 {
            MAX_GAMING_MULT_X100
        } else {
            h as u32
        },
        None => DEFAULT_GAMING_MULT_X100,
    }
}

/// The stored form of a bitrate multiplier held in hundredths: the integer
/// part, a dot, and exactly two fraction digits.
pub open spec fn spec_mult_str(h: u32) -> Seq<char> {
    dec_str_view((h / 100) as nat) + seq![
        '.',
        digit_char(((h / 10) % 10) as nat),
        digit_char((h % 10) as nat),
    ]
}

/// The profile read from the five stored profile strings.
pub open spec fn spec_loaded_profile(
    fps: Seq<char>,
    mult: Seq<char>,
    ip: Seq<char>,
    imf: Seq<char>,
    co: Seq<char>,
) -> GamingProfile {
    GamingProfile {
        target_fps: spec_loaded_fps(fps),
        max_bitrate_mult_x100: spec_loaded_mult(mult),
        input_priority: spec_parse_yn(ip),
        immediate_frame_mode: spec_parse_yn(imf),
        capture_optimization: spec_parse_yn(co),
    }
}

/// The six stored strings are the serialization of the given mode and profile.
pub open spec fn spec_saved_values(
    mode: GamingMode,
    profile: GamingProfile,
    values: GamingConfigValues,
) -> bool {
    &&& values.mode@ == spec_mode_str(mode)
    &&& values.target_fps@ == dec_str_view(profile.target_fps as nat)
    &&& values.bitrate_multiplier@ == spec_mult_str(profile.max_bitrate_mult_x100)
    &&& values.input_priority@ == spec_yn_str(profile.input_priority)
    &&& values.immediate_frame@ == spec_yn_str(profile.immediate_frame_mode)
    &&& values.capture_optimization@ == spec_yn_str(profile.capture_optimization)
}

fn clamp_u32(v: u32, lo: u32, hi: u32) -> (r: u32)
    ensures
        r == spec_clamp_u32(v, lo, hi),
{
    if v < lo {
        lo
    } else if v > hi {
        hi
    } else {
        v
    }
}

/// Parses a stored mode name.
pub fn parse_gaming_mode(s: &str) -> (m: GamingMode)
    ensures
        m == spec_parse_mode(s@),
{
    if str_eq(s, "force") {
        GamingMode::Force
    } else {
        GamingMode::Auto
    }
}

/// Serializes a mode to its stored name.
pub fn gaming_mode_to_string(mode: GamingMode) -> (r: String)
    ensures
        r@ == spec_mode_str(mode),
{
    match mode {
        GamingMode::Disabled => String::from_str("disabled"),
        GamingMode::Auto => String::from_str("auto"),
        GamingMode::Force => String::from_str("force"),
    }
}

/// Parses a stored fps string, with the default and the clamp applied.
pub fn load_fps(s: &str) -> (r: u32)
    ensures
        r == spec_loaded_fps(s@),
{
    let v = match parse_u32_dec(s) {
        Some(v) => v,
        None => DEFAULT_GAMING_FPS,
    };
    clamp_u32(v, MIN_GAMING_FPS, MAX_GAMING_FPS)
}

/// Parses a stored boolean setting.
pub fn parse_yn(s: &str) -> (r: bool)
    ensures
        r == spec_parse_yn(s@),
{
    str_eq(s, "Y")
}

/// Serializes a boolean setting.
pub fn yn_str(b: bool) -> (r: &'static str)
    ensures
        r@ == spec_yn_str(b),
{
    if b {
        "Y"
    } else {
        "N"
    }
}

/// Scans `s[from..to)` as decimal digits. Yields nothing when some character
/// is not a digit; the exact value when it is at most 5; and 6 when the value
/// is 6 or more, which is all a caller clamping hundredths to 500 needs.
fn scan_int_capped(s: &str, from: usize, to: usize) -> (r: Option<u32>)
    requires
        from <= to <= s@.len(),
    ensures
        ({
            let sub = s@.subrange(from as int, to as int);
            match r {
                None => !all_dec_digits(sub),
                Some(v) => all_dec_digits(sub) && v <= 6 && (v <= 5 ==> dec_val(sub) == v) && (v
                    == 6 ==> dec_val(sub) >= 6),
            }
        }),
{
    let mut acc: u32 = 0;
    let mut i: usize = from;
    while i < to
        invariant
            from <= i <= to <= s@.len(),
            all_dec_digits(s@.subrange(from as int, i as int)),
            acc <= 6,
            acc <= 5 ==> dec_val(s@.subrange(from as int, i as int)) == acc,
            acc == 6 ==> dec_val(s@.subrange(from as int, i as int)) >= 6,
        decreases to - i,
    {
        let c = s.get_char(i);
        let v = c as u32;
        if v < 48 || v > 57 {
            proof {
                assert(s@.subrange(from as int, to as int)[i - from] == s@[i as int]);
                assert(!is_dec_digit(s@[i as int]));
            }
            return None;
        }
        proof {
            assert(s@.subrange(from as int, i + 1).drop_last() =~= s@.subrange(
                from as int,
                i as int,
            ));
            assert(s@.subrange(from as int, i + 1).last() == s@[i as int]);
        }
        if acc <= 5 {
            let newacc = acc * 10 + (v - 48);
            acc = if newacc > 5 {
                6
            } else {
                newacc
            };
        }
        i = i + 1;
    }
    Some(acc)
}

/// Scans `s[from..to)`, one or two characters, as fraction digits, scaled to
/// hundredths. Yields nothing when some character is not a digit.
fn scan_frac_hundredths(s: &str, from: usize, to: usize) -> (r: Option<u32>)
    requires
        from < to <= s@.len(),
        to - from <= 2,
    ensures
        ({
            let sub = s@.subrange(from as int, to as int);
            match r {
                None => !all_dec_digits(sub),
                Some(f) => all_dec_digits(sub) && f <= 99 && f == (if sub.len() == 1 {
                    digit_val(sub[0]) * 10
                } else {
                    dec_val(sub)
                }),
            }
        }),
{
    let ghost sub = s@.subrange(from as int, to as int);
    let c0 = s.get_char(from);
    let v0 = c0 as u32;
    if v0 < 48 || v0 > 57 {
        proof {
            assert(sub[0] == s@[from as int]);
            assert(!is_dec_digit(s@[from as int]));
        }
        return None;
    }
    let d0 = v0 - 48;
    if to - from == 1 {
        proof {
            assert(sub =~= seq![s@[from as int]]);
            assert(forall|i: int| 0 <= i < sub.len() ==> is_dec_digit(#[trigger] sub[i]));
        }
        Some(d0 * 10)
    } else {
        let c1 = s.get_char(from + 1);
        let v1 = c1 as u32;
        if v1 < 48 || v1 > 57 {
            proof {
                assert(sub[1] == s@[from + 1]);
                assert(!is_dec_digit(s@[from + 1]));
            }
            return None;
        }
        let d1 = v1 - 48;
        proof {
            assert(sub =~= seq![s@[from as int], s@[from + 1]]);
            assert(forall|i: int| 0 <= i < sub.len() ==> is_dec_digit(#[trigger] sub[i]));
            assert(sub.drop_last() =~= seq![s@[from as int]]);
            assert(sub.drop_last().drop_last() =~= Seq::<char>::empty());
            assert(sub.last() == sub[1] && sub.drop_last().last() == sub[0]);
            assert(dec_val(sub.drop_last().drop_last()) == 0);
            assert(dec_val(sub.drop_last()) == digit_val(sub[0]));
            assert(dec_val(sub) == digit_val(sub[0]) * 10 + digit_val(sub[1]));
        }
        Some(d0 * 10 + d1)
    }
}

/// Parses a stored bitrate-multiplier string into hundredths, with the
/// default and the clamp applied.
pub fn load_mult_x100(s: &str) -> (r: u32)
    ensures
        r == spec_loaded_mult(s@),
{
    let n = s.unicode_len();
    // The index of the first dot, if any.
    let mut dot: Option<usize> = None;
    let mut i: usize = 0;
    while i < n
        invariant
            0 <= i <= n,
            n == s@.len(),
            dot is None ==> forall|j: int| 0 <= j < i ==> s@[j] != '.',
            dot is Some ==> 0 <= dot->0 < i && s@[dot->0 as int] == '.' && (forall|j: int|
                0 <= j < dot->0 ==> s@[j] != '.'),
        decreases n - i,
    {
        if dot.is_none() && s.get_char(i) == '.' {
            dot = Some(i);
        }
        i = i + 1;
    }
    match dot {
        None => {
            proof {
                lemma_find_char_none(s@, '.');
            }
            if n == 0 {
                return DEFAULT_GAMING_MULT_X100;
            }
            match scan_int_capped(s, 0, n) {
                None => {
                    proof {
                        assert(s@.subrange(0, n as int) =~= s@);
                    }
                    DEFAULT_GAMING_MULT_X100
                },
                Some(v) => {
                    proof {
                        assert(s@.subrange(0, n as int) =~= s@);
                    }
                    if v >= 6 {
                        MAX_GAMING_MULT_X100
                    } else {
                        clamp_u32(v * 100, MIN_GAMING_MULT_X100, MAX_GAMING_MULT_X100)
                    }
                },
            }
        },
        Some(k) => {
            proof {
                lemma_find_char_at(s@, '.', k as int);
            }
            if k == 0 || n - k - 1 < 1 || n - k - 1 > 2 {
                return DEFAULT_GAMING_MULT_X100;
            }
            let ghost intp = s@.take(k as int);
            let ghost frac = s@.skip(k + 1);
            proof {
                assert(intp =~= s@.subrange(0, k as int));
                assert(frac =~= s@.subrange(k + 1, n as int));
            }
            let iv = match scan_int_capped(s, 0, k) {
                None => {
                    return DEFAULT_GAMING_MULT_X100;
                },
                Some(v) => v,
            };
            let fv = match scan_frac_hundredths(s, k + 1, n) {
                None => {
                    return DEFAULT_GAMING_MULT_X100;
                },
                Some(f) => f,
            };
            if iv >= 6 {
                MAX_GAMING_MULT_X100
            } else {
                clamp_u32(iv * 100 + fv, MIN_GAMING_MULT_X100, MAX_GAMING_MULT_X100)
            }
        },
    }
}

/// Serializes a bitrate multiplier held in hundredths.
pub fn mult_x100_to_string(h: u32) -> (r: String)
    ensures
        r@ == spec_mult_str(h),
{
    let mut r = u32_to_dec_string(h / 100);
    r.append(".");
    r.append(digit_str((h / 10) % 10));
    r.append(digit_str(h % 10));
    proof {
        reveal_strlit(".");
        assert(r@ =~= spec_mult_str(h));
    }
    r
}

/// Reads a configuration from the six stored strings and pushes the result
/// live: the mode and the parsed, defaulted and clamped profile replace the
/// optimizer's, and the detection state is untouched.
pub fn load_gaming_config(optimizer: &mut GamingOptimizer, values: &GamingConfigValues)
    ensures
        final(optimizer).mode == spec_parse_mode(values.mode@),
        final(optimizer).profile == spec_loaded_profile(
            values.target_fps@,
            values.bitrate_multiplier@,
            values.input_priority@,
            values.immediate_frame@,
            values.capture_optimization@,
        ),
        final(optimizer).detection == old(optimizer).detection,
{
    let mode = parse_gaming_mode(values.mode.as_str());
    let profile = GamingProfile {
        target_fps: load_fps(values.target_fps.as_str()),
        max_bitrate_mult_x100: load_mult_x100(values.bitrate_multiplier.as_str()),
        input_priority: parse_yn(values.input_priority.as_str()),
        immediate_frame_mode: parse_yn(values.immediate_frame.as_str()),
        capture_optimization: parse_yn(values.capture_optimization.as_str()),
    };
    optimizer.set_mode(mode);
    optimizer.set_profile(profile);
}

/// Serializes a mode and profile to the six stored strings and pushes the new
/// state live, leaving the detection state untouched.
pub fn save_gaming_config(
    optimizer: &mut GamingOptimizer,
    mode: GamingMode,
    profile: &GamingProfile,
) -> (values: GamingConfigValues)
    ensures
        final(optimizer).mode == mode,
        final(optimizer).profile == *profile,
        final(optimizer).detection == old(optimizer).detection,
        spec_saved_values(mode, *profile, values),
{
    let values = GamingConfigValues {
        mode: gaming_mode_to_string(mode),
        target_fps: u32_to_dec_string(profile.target_fps),
        bitrate_multiplier: mult_x100_to_string(profile.max_bitrate_mult_x100),
        input_priority: String::from_str(yn_str(profile.input_priority)),
        immediate_frame: String::from_str(yn_str(profile.immediate_frame_mode)),
        capture_optimization: String::from_str(yn_str(profile.capture_optimization)),
    };
    optimizer.set_mode(mode);
    optimizer.set_profile(*profile);
    values
}

/// The preset tuned for the lowest latency.
pub open spec fn spec_low_latency_profile() -> GamingProfile {
    GamingProfile {
        target_fps: 60,
        max_bitrate_mult_x100: 150,
        input_priority: true,
        immediate_frame_mode: true,
        capture_optimization: true,
    }
}

/// The preset tuned for the highest picture quality.
pub open spec fn spec_high_quality_profile() -> GamingProfile {
    GamingProfile {
        target_fps: 120,
        max_bitrate_mult_x100: 300,
        input_priority: true,
        immediate_frame_mode: false,
        capture_optimization: true,
    }
}

/// The balanced preset.
pub open spec fn spec_balanced_profile() -> GamingProfile {
    GamingProfile {
        target_fps: 75,
        max_bitrate_mult_x100: 200,
        input_priority: true,
        immediate_frame_mode: true,
        capture_optimization: true,
    }
}

/// Applies the low-latency preset through the save path.
pub fn apply_gaming_preset_low_latency(optimizer: &mut GamingOptimizer) -> (values:
    GamingConfigValues)
    ensures
        final(optimizer).mode == GamingMode::Auto,
        final(optimizer).profile == spec_low_latency_profile(),
        final(optimizer).detection == old(optimizer).detection,
        spec_saved_values(GamingMode::Auto, spec_low_latency_profile(), values),
{
    let profile = GamingProfile {
        target_fps: 60,
        max_bitrate_mult_x100: 150,
        input_priority: true,
        immediate_frame_mode: true,
        capture_optimization: true,
    };
    save_gaming_config(optimizer, GamingMode::Auto, &profile)
}

/// Applies the high-quality preset through the save path.
pub fn apply_gaming_preset_high_quality(optimizer: &mut GamingOptimizer) -> (values:
    GamingConfigValues)
    ensures
        final(optimizer).mode == GamingMode::Auto,
        final(optimizer).profile == spec_high_quality_profile(),
        final(optimizer).detection == old(optimizer).detection,
        spec_saved_values(GamingMode::Auto, spec_high_quality_profile(), values),
{
    let profile = GamingProfile {
        target_fps: 120,
        max_bitrate_mult_x100: 300,
        input_priority: true,
        immediate_frame_mode: false,
        capture_optimization: true,
    };
    save_gaming_config(optimizer, GamingMode::Auto, &profile)
}

/// Applies the balanced preset through the save path.
pub fn apply_gaming_preset_balanced(optimizer: &mut GamingOptimizer) -> (values:
    GamingConfigValues)
    ensures
        final(optimizer).mode == GamingMode::Auto,
        final(optimizer).profile == spec_balanced_profile(),
        final(optimizer).detection == old(optimizer).detection,
        spec_saved_values(GamingMode::Auto, spec_balanced_profile(), values),
{
    let profile = GamingProfile {
        target_fps: 75,
        max_bitrate_mult_x100: 200,
        input_priority: true,
        immediate_frame_mode: true,
        capture_optimization: true,
    };
    save_gaming_config(optimizer, GamingMode::Auto, &profile)
}

/// Law: loading the stored name of a mode yields that mode, for the modes the
/// format can express (every stored name but Disabled's reads back as given).
pub proof fn lemma_mode_round_trip(mode: GamingMode)
    requires
        mode != GamingMode::Disabled,
    ensures
        spec_parse_mode(spec_mode_str(mode)) == mode,
{
    reveal_strlit("auto");
    reveal_strlit("force");
    assert("auto"@.len() == 4);
    assert("force"@.len() == 5);
}

/// Law: loading the stored form of an fps within the clamp range yields it.
pub proof fn lemma_fps_round_trip(v: u32)
    requires
        MIN_GAMING_FPS <= v <= MAX_GAMING_FPS,
    ensures
        spec_loaded_fps(dec_str_view(v as nat)) == v,
{
    lemma_dec_str_view(v as nat);
}

/// Law: loading the stored form of a boolean setting yields it.
pub proof fn lemma_yn_round_trip(b: bool)
    ensures
        spec_parse_yn(spec_yn_str(b)) == b,
{
    reveal_strlit("Y");
    reveal_strlit("N");
    assert("Y"@.len() == 1 && "N"@.len() == 1);
    assert("Y"@[0] == 'Y' && "N"@[0] == 'N');
}

/// Law: loading the stored form of a bitrate multiplier within the clamp
/// range yields it.
pub proof fn lemma_mult_round_trip(h: u32)
    requires
        MIN_GAMING_MULT_X100 <= h <= MAX_GAMING_MULT_X100,
    ensures
        spec_loaded_mult(spec_mult_str(h)) == h,
{
    let ip = dec_str_view((h / 100) as nat);
    lemma_dec_str_view((h / 100) as nat);
    assert(h / 100 < 10);
    assert(ip =~= seq![digit_char((h / 100) as nat)]);
    let s = spec_mult_str(h);
    lemma_digit_char_val((h / 100) as nat);
    lemma_digit_char_val(((h / 10) % 10) as nat);
    lemma_digit_char_val((h % 10) as nat);
    assert(s[0] == ip[0]);
    assert(s[1] == '.');
    assert(is_dec_digit(s[0]) && s[0] != '.');
    lemma_find_char_at(s, '.', 1);
    let intp = s.take(1);
    let frac = s.skip(2);
    assert(intp =~= ip);
    assert(frac =~= seq![digit_char(((h / 10) % 10) as nat), digit_char((h % 10) as nat)]);
    assert(frac.drop_last() =~= seq![digit_char(((h / 10) % 10) as nat)]);
    assert(frac.drop_last().drop_last() =~= Seq::<char>::empty());
    assert(frac.last() == frac[1] && frac.drop_last().last() == frac[0]);
    assert(dec_val(frac.drop_last().drop_last()) == 0);
    assert(dec_val(frac.drop_last()) == digit_val(frac[0]));
    assert(dec_val(frac) == ((h / 10) % 10) * 10 + h % 10);
    assert(dec_val(intp) == h / 100);
    assert((h / 100) * 100 + ((h / 10) % 10) * 10 + h % 10 == h) by {
        vstd::arithmetic::div_mod::lemma_fundamental_div_mod(h as int, 10);
        vstd::arithmetic::div_mod::lemma_fundamental_div_mod(h as int / 10, 10);
        vstd::arithmetic::div_mod::lemma_div_denominator(h as int, 10, 10);
    }
    assert(spec_mult_hundredths(s) == Some((h as nat) * 1));
}

/// Law: saving a mode and a profile and loading the saved strings yields the
/// same mode and profile, for every mode the stored format can express and
/// every profile within the clamp ranges. (Disabled is stored but reads back
/// as Auto, so it is left out here.)
pub proof fn lemma_config_round_trip(mode: GamingMode, profile: GamingProfile)
    requires
        mode != GamingMode::Disabled,
        MIN_GAMING_FPS <= profile.target_fps <= MAX_GAMING_FPS,
        MIN_GAMING_MULT_X100 <= profile.max_bitrate_mult_x100 <= MAX_GAMING_MULT_X100,
    ensures
        spec_parse_mode(spec_mode_str(mode)) == mode,
        spec_loaded_profile(
            dec_str_view(profile.target_fps as nat),
            spec_mult_str(profile.max_bitrate_mult_x100),
            spec_yn_str(profile.input_priority),
            spec_yn_str(profile.immediate_frame_mode),
            spec_yn_str(profile.capture_optimization),
        ) == profile,
{
    lemma_mode_round_trip(mode);
    lemma_fps_round_trip(profile.target_fps);
    lemma_mult_round_trip(profile.max_bitrate_mult_x100);
    lemma_yn_round_trip(profile.input_priority);
    lemma_yn_round_trip(profile.immediate_frame_mode);
    lemma_yn_round_trip(profile.capture_optimization);
}

} // verus!

//! The flat, C-style entry points the kernel module calls. Each returns
//! plain values or fills the `&mut` outputs it is handed, and reports a bad
//! input as `-EINVAL` where the interface has a status code.

use vstd::prelude::*;

use crate::fan::{decode_fanspeed, spec_decode_fanspeed, FanSensor};
use crate::led::{
    pack_led_word, spec_pack_led_word, spec_parse_hex, spec_unpack_led_word, unpack_led_word,
    LedMode, RgbColor, TOTAL_ZONE_COUNT, ZONE_IDS,
};
use crate::power::PowerPlan;
use crate::protocol::ExcaliburWmiArgs;

verus! {

/// Status returned for an invalid argument (`-EINVAL`).
pub const NEG_EINVAL: i32 = -22;

/// The sysfs device name of a zone index, for the four zone indices.
pub open spec fn spec_zone_name(index: int) -> Option<Seq<char>> {
    if index == 0 {
        Some("excalibur::kbd_backlight-left"@)
    } else if index == 1 {
        Some("excalibur::kbd_backlight-middle"@)
    } else if index == 2 {
        Some("excalibur::kbd_backlight-right"@)
    } else if index == 3 {
        Some("excalibur::kbd_backlight-corners"@)
    } else {
        None
    }
}

/// The hardware zone ID of a zone index; 0 for an index past the last zone.
pub open spec fn spec_zone_id(index: int) -> u8 {
    if index == 0 {
        0x05
    } else if index == 1 {
        0x04
    } else if index == 2 {
        0x03
    } else if index == 3 {
        0x07
    } else {
        0
    }
}

/// The name reported for a mode number: the mode's name, or `unknown`.
pub open spec fn spec_mode_name(mode: u8) -> Seq<char> {
    match LedMode::spec_from_u8(mode) {
        Some(m) => m.spec_as_str(),
        None => "unknown"@,
    }
}

/// The hwmon label of a fan channel.
pub open spec fn spec_fan_label(channel: int) -> Option<Seq<char>> {
    if channel == 0 {
        Some("cpu_fan"@)
    } else if channel == 1 {
        Some("gpu_fan"@)
    } else {
        None
    }
}

/// The plan number a platform profile value maps to, or `-EINVAL`.
pub open spec fn spec_platform_profile_to_plan(profile: i32) -> i32 {
    match PowerPlan::spec_from_platform_profile(profile) {
        Some(plan) => plan.spec_as_u32() as i32,
        None => NEG_EINVAL,
    }
}

/// The platform profile value a plan number maps to, or `-EINVAL`.
pub open spec fn spec_plan_to_platform_profile(plan: u32) -> i32 {
    match PowerPlan::spec_from_u32(plan) {
        Some(p) => p.spec_to_platform_profile(),
        None => NEG_EINVAL,
    }
}

/// Returns the sysfs device name for a zone index (0 to 3), or `None` for
/// any other index.
pub fn excalibur_core_get_zone_name(index: usize) -> (name: Option<&'static str>)
    ensures
        name is Some <==> spec_zone_name(index as int) is Some,
        name matches Some(n) ==> Some(n@) == spec_zone_name(index as int),
{
    if index < TOTAL_ZONE_COUNT {
        match index {
            0 => Some("excalibur::kbd_backlight-left"),
            1 => Some("excalibur::kbd_backlight-middle"),
            2 => Some("excalibur::kbd_backlight-right"),
            3 => Some("excalibur::kbd_backlight-corners"),
            _ => None,
        }
    } else {
        None
    }
}

/// Returns the hardware zone ID for a zone index (0 to 3), or 0 for any
/// other index.
pub fn excalibur_core_get_zone_id(index: usize) -> (id: u8)
    ensures
        id == spec_zone_id(index as int),
{
    if index < TOTAL_ZONE_COUNT {
        ZONE_IDS[index]
    } else {
        0
    }
}

/// Packs mode, brightness and RGB components into the 32-bit LED word.
pub fn excalibur_core_pack_led(mode: u8, brightness: u8, r: u8, g: u8, b: u8) -> (w: u32)
    ensures
        w == spec_pack_led_word(mode, brightness, RgbColor { r, g, b }),
{
    pack_led_word(mode, brightness, RgbColor::new(r, g, b))
}

/// Unpacks a 32-bit LED word into mode, brightness and RGB components.
pub fn excalibur_core_unpack_led(
    packed: u32,
    mode: &mut u8,
    brightness: &mut u8,
    r: &mut u8,
    g: &mut u8,
    b: &mut u8,
)
    ensures
        ({
            let (m, br, col) = spec_unpack_led_word(packed);
            &&& *final(mode) == m
            &&& *final(brightness) == br
            &&& *final(r) == col.r
            &&& *final(g) == col.g
            &&& *final(b) == col.b
        }),
{
    let (m, br, col) = unpack_led_word(packed);
    *mode = m;
    *brightness = br;
    *r = col.r;
    *g = col.g;
    *b = col.b;
}

/// Parses a hex colour text (`FF0000`, `#00FF88`, `0x123456`) into RGB
/// bytes. Returns 0 and writes the components on success; returns
/// `-EINVAL` and leaves them unchanged on an empty or malformed text.
pub fn excalibur_core_parse_color_hex(
    bytes: &[u8],
    r: &mut u8,
    g: &mut u8,
    b: &mut u8,
) -> (status: i32)
    ensures
        bytes@.len() > 0 && spec_parse_hex(bytes@) is Some ==> {
            let c = spec_parse_hex(bytes@)->0;
            &&& status == 0
            &&& *final(r) == c.r
            &&& *final(g) == c.g
            &&& *final(b) == c.b
        },
        !(bytes@.len() > 0 && spec_parse_hex(bytes@) is Some) ==> {
            &&& status == NEG_EINVAL
            &&& *final(r) == *old(r)
            &&& *final(g) == *old(g)
            &&& *final(b) == *old(b)
        },
{
    if bytes.len() == 0 {
        return NEG_EINVAL;
    }
    match RgbColor::parse_hex(bytes) {
        Some(col) => {
            *r = col.r;
            *g = col.g;
            *b = col.b;
            0
        },
        None => NEG_EINVAL,
    }
}

/// Parses an animation mode text (`fade`, `rainbow`, `static`, ...).
/// Returns 0 and writes the mode number on success; returns `-EINVAL` and
/// leaves the output unchanged on an empty or unknown text.
pub fn excalibur_core_parse_mode_str(bytes: &[u8], mode_out: &mut u8) -> (status: i32)
    ensures
        bytes@.len() > 0 && LedMode::spec_from_bytes(bytes@) is Some ==> {
            &&& status == 0
            &&& *final(mode_out) == LedMode::spec_from_bytes(bytes@)->0.spec_as_u8()
        },
        !(bytes@.len() > 0 && LedMode::spec_from_bytes(bytes@) is Some) ==> {
            &&& status == NEG_EINVAL
            &&& *final(mode_out) == *old(mode_out)
        },
{
    if bytes.len() == 0 {
        return NEG_EINVAL;
    }
    match LedMode::from_bytes(bytes) {
        Some(mode) => {
            *mode_out = mode.as_u8();
            0
        },
        None => NEG_EINVAL,
    }
}

/// Returns the name of a mode number, or `unknown`.
pub fn excalibur_core_mode_name(mode: u8) -> (name: &'static str)
    ensures
        name@ == spec_mode_name(mode),
{
    match LedMode::from_u8(mode) {
        Some(m) => m.as_str(),
        None => "unknown",
    }
}

/// Returns the space-separated list of all mode names.
pub fn excalibur_core_available_modes() -> (modes: &'static str)
    ensures
        modes@ == "off static blink fade heartbeat wave random rainbow"@,
{
    "off static blink fade heartbeat wave random rainbow"
}

/// Decodes fan speed RPM from a raw 32-bit register value.
pub fn excalibur_core_decode_fanspeed(raw: u32, has_raw_fanspeed: bool) -> (rpm: u16)
    ensures
        rpm as int == spec_decode_fanspeed(raw, has_raw_fanspeed),
{
    decode_fanspeed(raw, has_raw_fanspeed)
}

/// Returns the hwmon label of a fan channel (0 = `cpu_fan`, 1 = `gpu_fan`),
/// or `None` for any other channel.
pub fn excalibur_core_fan_label(channel: usize) -> (label: Option<&'static str>)
    ensures
        label is Some <==> spec_fan_label(channel as int) is Some,
        label matches Some(l) ==> Some(l@) == spec_fan_label(channel as int),
{
    match channel {
        0 => Some("cpu_fan"),
        1 => Some("gpu_fan"),
        _ => None,
    }
}

/// Returns whether a number is a valid power plan (1 to 4).
pub fn excalibur_core_validate_power_plan(plan: u32) -> (valid: bool)
    ensures
        valid == PowerPlan::spec_from_u32(plan) is Some,
{
    PowerPlan::from_u32(plan).is_some()
}

/// Converts a Linux platform profile value into a plan number (1 to 4), or
/// `-EINVAL` for an unmapped profile.
pub fn excalibur_core_platform_profile_to_plan(profile: i32) -> (plan: i32)
    ensures
        plan == spec_platform_profile_to_plan(profile),
{
    match PowerPlan::from_platform_profile(profile) {
        Some(p) => {
            let v = p.as_u32();
            v as i32
        },
        None => NEG_EINVAL,
    }
}

/// Converts a plan number (1 to 4) into a Linux platform profile value, or
/// `-EINVAL` for an invalid plan.
pub fn excalibur_core_plan_to_platform_profile(plan: u32) -> (profile: i32)
    ensures
        profile == spec_plan_to_platform_profile(plan),
{
    match PowerPlan::from_u32(plan) {
        Some(p) => p.to_platform_profile(),
        None => NEG_EINVAL,
    }
}

/// Fills a WMI write request buffer.
pub fn excalibur_core_create_write_args(
    sub_cmd: u16,
    param: u32,
    data: u32,
    out: &mut ExcaliburWmiArgs,
)
    ensures
        *final(out) == ExcaliburWmiArgs::spec_write_cmd(sub_cmd, param, data),
{
    *out = ExcaliburWmiArgs::write_cmd(sub_cmd, param, data);
}

/// Fills a WMI read request buffer.
pub fn excalibur_core_create_read_args(sub_cmd: u16, out: &mut ExcaliburWmiArgs)
    ensures
        *final(out) == ExcaliburWmiArgs::spec_read_cmd(sub_cmd),
{
    *out = ExcaliburWmiArgs::read_cmd(sub_cmd);
}

/// Plan numbers and platform profile values convert into each other and
/// back: a valid plan number survives the round trip, and so does every
/// profile value that maps to a plan; everything else is `-EINVAL`.
pub proof fn lemma_ffi_plan_profile_roundtrip(plan: u32, profile: i32)
    ensures
        PowerPlan::spec_from_u32(plan) is Some ==> spec_platform_profile_to_plan(
            spec_plan_to_platform_profile(plan),
        ) == plan,
        PowerPlan::spec_from_u32(plan) is None ==> spec_plan_to_platform_profile(plan)
            == NEG_EINVAL,
        spec_platform_profile_to_plan(profile) != NEG_EINVAL ==> spec_plan_to_platform_profile(
            spec_platform_profile_to_plan(profile) as u32,
        ) == profile,
{
}

/// The list of available modes is the name of every mode, by mode number,
/// each followed by a space but the last.
pub proof fn lemma_available_modes_lists_all()
    ensures
        "off static blink fade heartbeat wave random rainbow"@ =~= LedMode::Off.spec_as_str() + " "@
            + LedMode::Static.spec_as_str() + " "@ + LedMode::Blink.spec_as_str() + " "@
            + LedMode::Fade.spec_as_str() + " "@ + LedMode::Heartbeat.spec_as_str() + " "@
            + LedMode::Wave.spec_as_str() + " "@ + LedMode::Random.spec_as_str() + " "@
            + LedMode::Rainbow.spec_as_str(),
{
    reveal_strlit("off static blink fade heartbeat wave random rainbow");
    reveal_strlit(" ");
    reveal_strlit("off");
    reveal_strlit("static");
    reveal_strlit("blink");
    reveal_strlit("fade");
    reveal_strlit("heartbeat");
    reveal_strlit("wave");
    reveal_strlit("random");
    reveal_strlit("rainbow");
}

/// Exactly the zone indices that have a device name have a nonzero zone ID.
pub proof fn lemma_zone_index_consistent(index: int)
    ensures
        spec_zone_name(index) is Some <==> spec_zone_id(index) != 0,
        spec_zone_name(index) is Some <==> 0 <= index < TOTAL_ZONE_COUNT,
{
}

/// The zone IDs the C interface reports are those of the zone ID table, in
/// zone index order, and its fan labels are the sensors' own labels.
pub proof fn lemma_ffi_tables_match_library(index: int)
    requires
        0 <= index < TOTAL_ZONE_COUNT,
    ensures
        spec_zone_id(index) == ZONE_IDS[index],
        spec_fan_label(0) == Some(FanSensor::Cpu.spec_label()),
        spec_fan_label(1) == Some(FanSensor::Gpu.spec_label()),
{
}

} // verus!

//! Protocol logic for the Casper Excalibur laptop platform: WMI request
//! buffers, packed LED words, colour and mode parsing, power plans, fan
//! speed decoding, the flat entry points the kernel module calls, and the
//! decisions of the `excalibur-ctl` utility.

pub mod ctl;
pub mod fan;
pub mod ffi;
pub mod led;
pub mod power;
pub mod protocol;
pub mod text;

pub use fan::{decode_fanspeed, FanSensor};
pub use ffi::{
    excalibur_core_available_modes, excalibur_core_create_read_args,
    excalibur_core_create_write_args, excalibur_core_decode_fanspeed, excalibur_core_fan_label,
    excalibur_core_get_zone_id, excalibur_core_get_zone_name, excalibur_core_mode_name,
    excalibur_core_pack_led, excalibur_core_parse_color_hex, excalibur_core_parse_mode_str,
    excalibur_core_plan_to_platform_profile, excalibur_core_platform_profile_to_plan,
    excalibur_core_unpack_led, excalibur_core_validate_power_plan, NEG_EINVAL,
};
pub use led::{
    pack_led_word, unpack_led_word, LedMode, RgbColor, ZoneState, KBD_ZONE_COUNT, MAX_BRIGHTNESS,
    TOTAL_ZONE_COUNT, ZONE_ALL_KBD, ZONE_CORNERS, ZONE_IDS, ZONE_LEFT, ZONE_MIDDLE, ZONE_NAMES,
    ZONE_RIGHT,
};
pub use power::PowerPlan;
pub use protocol::{ExcaliburWmiArgs, WmiCommand, EXCALIBUR_WMI_GUID};

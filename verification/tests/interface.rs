use excalibur_core::ctl::{
    parse_command, parse_rgb_args, parse_sysfs_u32, plan_description, platform_profile_name,
    profile_action, profile_switch_step, profile_target, rgb_zone_writes, wants_watch,
    zone_sysfs_name, zones_to_apply, Command, ProfileAction, ProfileSwitchAction,
    ProfileSwitchEvent, FAN_WATCH_INTERVAL_MS, ZONE_SHORT_NAMES,
};
use excalibur_core::{
    excalibur_core_available_modes, excalibur_core_create_read_args,
    excalibur_core_create_write_args, excalibur_core_decode_fanspeed, excalibur_core_fan_label,
    excalibur_core_get_zone_id, excalibur_core_get_zone_name, excalibur_core_mode_name,
    excalibur_core_pack_led, excalibur_core_parse_color_hex, excalibur_core_parse_mode_str,
    excalibur_core_plan_to_platform_profile, excalibur_core_platform_profile_to_plan,
    excalibur_core_unpack_led, excalibur_core_validate_power_plan, ExcaliburWmiArgs, LedMode,
    PowerPlan, NEG_EINVAL, ZONE_IDS, ZONE_NAMES,
};

fn strings(items: &[&str]) -> Vec<String> {
    items.iter().map(|s| s.to_string()).collect()
}

#[test]
fn ffi_zone_lookup() {
    for i in 0..4 {
        assert_eq!(excalibur_core_get_zone_name(i), Some(ZONE_NAMES[i]));
        assert_eq!(excalibur_core_get_zone_id(i), ZONE_IDS[i]);
    }
    assert_eq!(excalibur_core_get_zone_name(4), None);
    assert_eq!(excalibur_core_get_zone_id(4), 0);
    assert_eq!(excalibur_core_get_zone_id(usize::MAX), 0);
}

#[test]
fn ffi_pack_unpack() {
    let w = excalibur_core_pack_led(5, 1, 0x10, 0x20, 0x30);
    assert_eq!(w, 0x5110_2030);
    let (mut m, mut b, mut r, mut g, mut bl) = (9u8, 9u8, 9u8, 9u8, 9u8);
    excalibur_core_unpack_led(w, &mut m, &mut b, &mut r, &mut g, &mut bl);
    assert_eq!((m, b, r, g, bl), (5, 1, 0x10, 0x20, 0x30));
}

#[test]
fn ffi_parse_color() {
    let (mut r, mut g, mut b) = (1u8, 2u8, 3u8);
    assert_eq!(excalibur_core_parse_color_hex(b"#00FF88", &mut r, &mut g, &mut b), 0);
    assert_eq!((r, g, b), (0x00, 0xFF, 0x88));
    assert_eq!(excalibur_core_parse_color_hex(b"nothex", &mut r, &mut g, &mut b), NEG_EINVAL);
    assert_eq!((r, g, b), (0x00, 0xFF, 0x88));
    assert_eq!(excalibur_core_parse_color_hex(b"", &mut r, &mut g, &mut b), -22);
    assert_eq!((r, g, b), (0x00, 0xFF, 0x88));
}

#[test]
fn ffi_parse_mode() {
    let mut m = 0xAAu8;
    assert_eq!(excalibur_core_parse_mode_str(b"rainbow\n", &mut m), 0);
    assert_eq!(m, 7);
    assert_eq!(excalibur_core_parse_mode_str(b"breathe", &mut m), 0);
    assert_eq!(m, 3);
    assert_eq!(excalibur_core_parse_mode_str(b"bogus", &mut m), -22);
    assert_eq!(m, 3);
    assert_eq!(excalibur_core_parse_mode_str(b"", &mut m), -22);
    assert_eq!(m, 3);
}

#[test]
fn ffi_names_and_labels() {
    assert_eq!(excalibur_core_mode_name(0), "off");
    assert_eq!(excalibur_core_mode_name(4), "heartbeat");
    assert_eq!(excalibur_core_mode_name(8), "unknown");
    assert_eq!(excalibur_core_available_modes(), LedMode::ALL_MODES_STR);
    assert_eq!(excalibur_core_fan_label(0), Some("cpu_fan"));
    assert_eq!(excalibur_core_fan_label(1), Some("gpu_fan"));
    assert_eq!(excalibur_core_fan_label(2), None);
    assert_eq!(excalibur_core_decode_fanspeed(0xAC0D, false), 3500);
}

#[test]
fn ffi_power_plans() {
    for v in 0u32..8 {
        assert_eq!(excalibur_core_validate_power_plan(v), (1..=4).contains(&v));
    }
    assert_eq!(excalibur_core_platform_profile_to_plan(5), 1);
    assert_eq!(excalibur_core_platform_profile_to_plan(0), 4);
    assert_eq!(excalibur_core_platform_profile_to_plan(1), -22);
    assert_eq!(excalibur_core_plan_to_platform_profile(1), 5);
    assert_eq!(excalibur_core_plan_to_platform_profile(3), 2);
    assert_eq!(excalibur_core_plan_to_platform_profile(9), -22);
}

#[test]
fn ffi_plan_profile_roundtrip_law() {
    for plan in 1u32..=4 {
        let profile = excalibur_core_plan_to_platform_profile(plan);
        assert_eq!(excalibur_core_platform_profile_to_plan(profile), plan as i32);
    }
    for profile in -3i32..10 {
        let plan = excalibur_core_platform_profile_to_plan(profile);
        if plan != NEG_EINVAL {
            assert_eq!(excalibur_core_plan_to_platform_profile(plan as u32), profile);
        }
    }
}

#[test]
fn ffi_wmi_buffers() {
    let mut out = ExcaliburWmiArgs { a4: 9, rev1: 7, ..Default::default() };
    excalibur_core_create_write_args(0x0300, 2, 3, &mut out);
    assert_eq!(out, ExcaliburWmiArgs::write_cmd(0x0300, 2, 3));
    excalibur_core_create_read_args(0x0200, &mut out);
    assert_eq!(out, ExcaliburWmiArgs::read_cmd(0x0200));
    assert_eq!(out.a2, 0);
}

#[test]
fn ctl_commands() {
    assert_eq!(parse_command("status"), Some(Command::Status));
    assert_eq!(parse_command("info"), Some(Command::Status));
    assert_eq!(parse_command("p"), Some(Command::Profile));
    assert_eq!(parse_command("led"), Some(Command::Rgb));
    assert_eq!(parse_command("fans"), Some(Command::Fan));
    assert_eq!(parse_command("--help"), Some(Command::Help));
    assert_eq!(parse_command("Status"), None);
    assert_eq!(parse_command(""), None);
}

#[test]
fn ctl_profile_requests() {
    assert_eq!(profile_action(&strings(&[])), ProfileAction::Show);
    assert_eq!(profile_action(&strings(&["get"])), ProfileAction::Show);
    assert_eq!(profile_action(&strings(&["set"])), ProfileAction::MissingTarget);
    assert_eq!(
        profile_action(&strings(&["set", "PERFORMANCE"])),
        ProfileAction::Switch(PowerPlan::HighPower)
    );
    assert_eq!(profile_action(&strings(&["set", "eco"])), ProfileAction::Switch(PowerPlan::LowPower));
    assert_eq!(profile_action(&strings(&["set", "office"])), ProfileAction::InvalidTarget);
    assert_eq!(profile_action(&strings(&["frob"])), ProfileAction::UnknownSubcommand);
    assert_eq!(profile_target("silent"), Some(PowerPlan::TextMode));
    assert_eq!(profile_target("2"), Some(PowerPlan::Gaming));
    assert_eq!(profile_target("game"), None);
    assert_eq!(platform_profile_name(PowerPlan::LowPower), "low-power");
    assert_eq!(platform_profile_name(PowerPlan::Gaming), "balanced");
}

#[test]
fn ctl_status_descriptions() {
    assert_eq!(plan_description(1), "High Power / Turbo (1)");
    assert_eq!(plan_description(4), "Low Power / Eco (4)");
    assert_eq!(plan_description(0), "Unknown");
}

#[test]
fn ctl_zones() {
    for (i, z) in ZONE_SHORT_NAMES.iter().enumerate() {
        assert_eq!(zone_sysfs_name(z), Some(ZONE_NAMES[i]));
    }
    assert_eq!(zone_sysfs_name("all"), None);
    assert_eq!(zones_to_apply("all"), strings(&["left", "middle", "right", "corners"]));
    assert_eq!(zones_to_apply("middle"), strings(&["middle"]));
    assert_eq!(zones_to_apply("bogus"), strings(&["bogus"]));
}

#[test]
fn ctl_rgb_options() {
    let o = parse_rgb_args(&strings(&[]));
    assert_eq!(o.zone, "all");
    assert_eq!((o.color, o.mode, o.brightness), (None, None, None));

    let o = parse_rgb_args(&strings(&[
        "--zone", "LEFT", "-c", "FF0033", "--mode", "Static", "-b", "2",
    ]));
    assert_eq!(o.zone, "left");
    assert_eq!(o.color.as_deref(), Some("FF0033"));
    assert_eq!(o.mode.as_deref(), Some("static"));
    assert_eq!(o.brightness.as_deref(), Some("2"));

    // Unknown words are skipped, later flags win, a trailing flag is ignored.
    let o = parse_rgb_args(&strings(&["x", "-m", "fade", "-m", "wave", "--zone"]));
    assert_eq!(o.zone, "all");
    assert_eq!(o.mode.as_deref(), Some("wave"));
    // A flag's value is consumed even when it looks like a flag.
    let o = parse_rgb_args(&strings(&["-c", "-m", "rainbow"]));
    assert_eq!(o.color.as_deref(), Some("-m"));
    assert_eq!(o.mode, None);
}

#[test]
fn ctl_watch_flag() {
    assert!(wants_watch(&strings(&["--watch"])));
    assert!(wants_watch(&strings(&["x", "-w"])));
    assert!(!wants_watch(&strings(&["watch"])));
    assert!(!wants_watch(&strings(&[])));
}

#[test]
fn ctl_sysfs_numbers() {
    for text in ["3500\n", " 0 ", "+12", "4294967295", "007", "\u{2003}42\u{3000}"] {
        assert_eq!(parse_sysfs_u32(text), text.trim().parse::<u32>().ok(), "{:?}", text);
    }
    assert_eq!(parse_sysfs_u32("3500\n"), Some(3500));
    for text in ["", "+", "-1", "4294967296", "99999999999", "12a", "1 2", "0x10"] {
        assert_eq!(parse_sysfs_u32(text), None, "{:?}", text);
        assert_eq!(text.trim().parse::<u32>().ok(), None);
    }
}

fn run_switch(platform_ok: bool, hwmon_found: bool, pwm_ok: bool) -> (ProfileSwitchAction, usize) {
    let mut event = ProfileSwitchEvent::Start;
    let mut steps = 0;
    loop {
        steps += 1;
        match profile_switch_step(event) {
            ProfileSwitchAction::WritePlatformProfile => {
                event = ProfileSwitchEvent::PlatformProfileWritten(platform_ok)
            }
            ProfileSwitchAction::FindHwmon => event = ProfileSwitchEvent::HwmonFound(hwmon_found),
            ProfileSwitchAction::WritePwm => event = ProfileSwitchEvent::PwmWritten(pwm_ok),
            done => return (done, steps),
        }
    }
}

#[test]
fn ctl_profile_switch_steps() {
    assert_eq!(run_switch(true, false, false), (ProfileSwitchAction::ReportSuccess, 2));
    assert_eq!(run_switch(false, false, true), (ProfileSwitchAction::FailNoInterface, 3));
    assert_eq!(run_switch(false, true, true), (ProfileSwitchAction::ReportSuccess, 4));
    assert_eq!(run_switch(false, true, false), (ProfileSwitchAction::FailPwmWrite, 4));
}

#[test]
fn ctl_rgb_write_order() {
    let o = parse_rgb_args(&strings(&["-b", "2", "--mode", "Fade", "-c", "00FF00"]));
    let w: Vec<(&str, String)> = rgb_zone_writes(&o);
    assert_eq!(
        w,
        vec![("color", "00FF00".to_string()), ("mode", "fade".to_string()), ("brightness", "2".to_string())]
    );
    let o = parse_rgb_args(&strings(&["--brightness", "0"]));
    assert_eq!(rgb_zone_writes(&o), vec![("brightness", "0".to_string())]);
    assert!(rgb_zone_writes(&parse_rgb_args(&strings(&[]))).is_empty());
    assert_eq!(FAN_WATCH_INTERVAL_MS, 1000);
}

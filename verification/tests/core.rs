use excalibur_core::fan::FanSensor;
use excalibur_core::text::{is_whitespace, trim_blank_bytes};
use excalibur_core::{
    decode_fanspeed, pack_led_word, unpack_led_word, ExcaliburWmiArgs, LedMode, PowerPlan,
    RgbColor, WmiCommand, ZoneState, ZONE_IDS, ZONE_NAMES,
};

#[test]
fn test_led_pack_unpack() {
    let col = RgbColor::new(0x12, 0x34, 0x56);
    let word = pack_led_word(LedMode::Fade as u8, 2, col);
    let (mode, br, unpacked_col) = unpack_led_word(word);
    assert_eq!(mode, LedMode::Fade as u8);
    assert_eq!(br, 2);
    assert_eq!(unpacked_col, col);
}

#[test]
fn test_color_hex_parser() {
    let col = RgbColor::parse_hex(b"FF0080").unwrap();
    assert_eq!(col.r, 0xFF);
    assert_eq!(col.g, 0x00);
    assert_eq!(col.b, 0x80);

    let col_hash = RgbColor::parse_hex(b"#112233\n").unwrap();
    assert_eq!(col_hash.r, 0x11);
    assert_eq!(col_hash.g, 0x22);
    assert_eq!(col_hash.b, 0x33);
}

#[test]
fn test_power_plan_mapping() {
    assert_eq!(
        PowerPlan::from_platform_profile(PowerPlan::PLATFORM_PROFILE_PERFORMANCE),
        Some(PowerPlan::HighPower)
    );
    assert_eq!(
        PowerPlan::HighPower.to_platform_profile(),
        PowerPlan::PLATFORM_PROFILE_PERFORMANCE
    );
}

#[test]
fn test_fanspeed_quirk() {
    // Little endian
    let rpm = decode_fanspeed(0x0DAC, true); // 3500
    assert_eq!(rpm, 3500);

    // Big endian swap (0xAC0D -> 3500)
    let rpm_swapped = decode_fanspeed(0xAC0D, false);
    assert_eq!(rpm_swapped, 3500);
}

const ALL_MODES: [LedMode; 8] = [
    LedMode::Off,
    LedMode::Static,
    LedMode::Blink,
    LedMode::Fade,
    LedMode::Heartbeat,
    LedMode::Wave,
    LedMode::Random,
    LedMode::Rainbow,
];

const ALL_PLANS: [PowerPlan; 4] = [
    PowerPlan::HighPower,
    PowerPlan::Gaming,
    PowerPlan::TextMode,
    PowerPlan::LowPower,
];

#[test]
fn pack_layout_exact() {
    let w = pack_led_word(7, 2, RgbColor::new(0xAB, 0xCD, 0xEF));
    assert_eq!(w, 0x72AB_CDEF);
    // Only the low four bits of mode and brightness are kept.
    let w2 = pack_led_word(0x1F, 0x23, RgbColor::new(1, 2, 3));
    assert_eq!(w2, 0xF301_0203);
    assert_eq!(pack_led_word(0, 0, RgbColor::black()), 0);
}

#[test]
fn unpack_fields_exact() {
    let (m, b, c) = unpack_led_word(0x3201_0203);
    assert_eq!(m, 3);
    assert_eq!(b, 2);
    assert_eq!(c, RgbColor::new(1, 2, 3));
    let (m, b, c) = unpack_led_word(0xFFFF_FFFF);
    assert_eq!((m, b), (15, 15));
    assert_eq!(c, RgbColor::white());
}

#[test]
fn unpack_pack_roundtrip_law() {
    for mode in [0u8, 1, 7, 15, 16, 0xFF] {
        for br in [0u8, 2, 15, 0x42] {
            let c = RgbColor::new(mode, br, 0x5A);
            let (m, b, col) = unpack_led_word(pack_led_word(mode, br, c));
            assert_eq!((m, b, col), (mode % 16, br % 16, c));
        }
    }
}

#[test]
fn pack_unpack_roundtrip_law() {
    for w in [0u32, 1, 0x1234_5678, 0xDEAD_BEEF, 0xFFFF_FFFF, 0x8000_0001] {
        let (m, b, c) = unpack_led_word(w);
        assert_eq!(pack_led_word(m, b, c), w);
    }
}

#[test]
fn colour_constructors() {
    assert_eq!(RgbColor::white(), RgbColor::new(0xFF, 0xFF, 0xFF));
    assert_eq!(RgbColor::black(), RgbColor::new(0, 0, 0));
    assert_eq!(RgbColor::red(), RgbColor::new(0xFF, 0, 0));
    assert_eq!(RgbColor::green(), RgbColor::new(0, 0xFF, 0));
    assert_eq!(RgbColor::blue(), RgbColor::new(0, 0, 0xFF));
}

#[test]
fn parse_hex_prefixes_and_case() {
    assert_eq!(RgbColor::parse_hex(b"0x123456"), Some(RgbColor::new(0x12, 0x34, 0x56)));
    assert_eq!(RgbColor::parse_hex(b"0X123456"), Some(RgbColor::new(0x12, 0x34, 0x56)));
    assert_eq!(RgbColor::parse_hex(b"#abcdef"), Some(RgbColor::new(0xAB, 0xCD, 0xEF)));
    assert_eq!(RgbColor::parse_hex(b" \t00ff88\r\n"), Some(RgbColor::new(0, 0xFF, 0x88)));
    assert_eq!(RgbColor::parse_hex(b"aBcDeF"), Some(RgbColor::new(0xAB, 0xCD, 0xEF)));
}

#[test]
fn parse_hex_rejects() {
    assert_eq!(RgbColor::parse_hex(b""), None);
    assert_eq!(RgbColor::parse_hex(b"12345"), None);
    assert_eq!(RgbColor::parse_hex(b"1234567"), None);
    assert_eq!(RgbColor::parse_hex(b"GG0000"), None);
    assert_eq!(RgbColor::parse_hex(b"12345g"), None);
    assert_eq!(RgbColor::parse_hex(b"##112233"), None);
    assert_eq!(RgbColor::parse_hex(b"#0x112233"), None);
    assert_eq!(RgbColor::parse_hex(b"0x#11223"), None);
    assert_eq!(RgbColor::parse_hex(b"11 2233"), None);
}

#[test]
fn parse_hex_completeness_law() {
    for c in [RgbColor::new(0, 0, 0), RgbColor::new(0xFF, 0x80, 0x01), RgbColor::new(0x0A, 0xB0, 0xC9)] {
        let text = format!("{:02X}{:02X}{:02X}", c.r, c.g, c.b);
        assert_eq!(RgbColor::parse_hex(text.as_bytes()), Some(c));
        assert_eq!(RgbColor::parse_hex(format!("#{}", text).as_bytes()), Some(c));
        assert_eq!(RgbColor::parse_hex(format!("0x{}", text).as_bytes()), Some(c));
    }
}

#[test]
fn mode_numbers_law() {
    for m in ALL_MODES {
        assert_eq!(LedMode::from_u8(m.as_u8()), Some(m));
        assert_eq!(m.as_u8(), m as u8);
    }
    for v in 8u8..=255 {
        assert_eq!(LedMode::from_u8(v), None);
    }
}

#[test]
fn mode_names() {
    assert_eq!(LedMode::Off.as_str(), "off");
    assert_eq!(LedMode::Heartbeat.as_str(), "heartbeat");
    assert_eq!(LedMode::Rainbow.as_str(), "rainbow");
    let joined: Vec<&str> = ALL_MODES.iter().map(|m| m.as_str()).collect();
    assert_eq!(joined.join(" "), LedMode::ALL_MODES_STR);
}

#[test]
fn mode_name_roundtrip_law() {
    for m in ALL_MODES {
        assert_eq!(LedMode::from_bytes(m.as_str().as_bytes()), Some(m));
    }
}

#[test]
fn mode_from_bytes_forms() {
    assert_eq!(LedMode::from_bytes(b"breathe"), Some(LedMode::Fade));
    assert_eq!(LedMode::from_bytes(b"FADE"), Some(LedMode::Fade));
    assert_eq!(LedMode::from_bytes(b"  RainBow\n"), Some(LedMode::Rainbow));
    assert_eq!(LedMode::from_bytes(b"\tStatic\r"), Some(LedMode::Static));
    for v in 0u8..8 {
        assert_eq!(LedMode::from_bytes(&[b'0' + v]), LedMode::from_u8(v));
    }
    assert_eq!(LedMode::from_bytes(b"8"), None);
    assert_eq!(LedMode::from_bytes(b""), None);
    assert_eq!(LedMode::from_bytes(b"strobe"), None);
    assert_eq!(LedMode::from_bytes(b"fa de"), None);
    assert_eq!(LedMode::from_bytes(b"\x0bfade"), None);
}

#[test]
fn zone_state_defaults() {
    let z = ZoneState::new(ZONE_IDS[3]);
    assert_eq!(z.zone_id, 0x07);
    assert_eq!(z.mode, LedMode::Static as u8);
    assert_eq!(z.brightness, 0);
    assert_eq!(z.color, RgbColor::white());
    assert_eq!(z.packed_word(), 0x10FF_FFFF);
    let z2 = ZoneState { zone_id: 5, mode: 3, brightness: 2, color: RgbColor::new(1, 2, 3) };
    assert_eq!(z2.packed_word(), pack_led_word(3, 2, RgbColor::new(1, 2, 3)));
}

#[test]
fn zone_tables() {
    assert_eq!(ZONE_IDS, [0x05, 0x04, 0x03, 0x07]);
    assert_eq!(ZONE_NAMES[0], "excalibur::kbd_backlight-left");
    assert_eq!(ZONE_NAMES[3], "excalibur::kbd_backlight-corners");
}

#[test]
fn plan_numbers_law() {
    for p in ALL_PLANS {
        assert_eq!(PowerPlan::from_u32(p.as_u32()), Some(p));
        assert!(PowerPlan::MIN <= p.as_u32() && p.as_u32() <= PowerPlan::MAX);
    }
    assert_eq!(PowerPlan::from_u32(0), None);
    assert_eq!(PowerPlan::from_u32(5), None);
    assert_eq!(PowerPlan::Gaming.as_u32(), 2);
}

#[test]
fn plan_platform_profile_law() {
    for p in ALL_PLANS {
        assert_eq!(PowerPlan::from_platform_profile(p.to_platform_profile()), Some(p));
    }
    assert_eq!(PowerPlan::LowPower.to_platform_profile(), 0);
    assert_eq!(PowerPlan::TextMode.to_platform_profile(), 2);
    assert_eq!(PowerPlan::Gaming.to_platform_profile(), 3);
    for v in [-1, 1, 4, 6, 100] {
        assert_eq!(PowerPlan::from_platform_profile(v), None);
    }
}

#[test]
fn plan_name_roundtrip_law() {
    for p in ALL_PLANS {
        assert_eq!(PowerPlan::from_str(p.as_str()), Some(p));
    }
}

#[test]
fn plan_from_str_aliases() {
    assert_eq!(PowerPlan::from_str("performance"), Some(PowerPlan::HighPower));
    assert_eq!(PowerPlan::from_str("turbo"), Some(PowerPlan::HighPower));
    assert_eq!(PowerPlan::from_str(" 1\n"), Some(PowerPlan::HighPower));
    assert_eq!(PowerPlan::from_str("balanced"), Some(PowerPlan::Gaming));
    assert_eq!(PowerPlan::from_str("game"), Some(PowerPlan::Gaming));
    assert_eq!(PowerPlan::from_str("office"), Some(PowerPlan::TextMode));
    assert_eq!(PowerPlan::from_str("silent"), Some(PowerPlan::TextMode));
    assert_eq!(PowerPlan::from_str("3"), Some(PowerPlan::TextMode));
    assert_eq!(PowerPlan::from_str("eco"), Some(PowerPlan::LowPower));
    assert_eq!(PowerPlan::from_str("saver"), Some(PowerPlan::LowPower));
    assert_eq!(PowerPlan::from_str("\u{3000}battery\u{a0}"), Some(PowerPlan::LowPower));
    assert_eq!(PowerPlan::from_str("Gaming"), None);
    assert_eq!(PowerPlan::from_str(""), None);
    assert_eq!(PowerPlan::from_str("5"), None);
}

#[test]
fn fanspeed_details() {
    assert_eq!(decode_fanspeed(0xFFFF_0DAC, true), 3500);
    assert_eq!(decode_fanspeed(0x1234_AC0D, false), 3500);
    assert_eq!(decode_fanspeed(0, false), 0);
    for rpm in [0u16, 1, 255, 256, 3500, 0xFFFF] {
        assert_eq!(decode_fanspeed(rpm.swap_bytes() as u32, false), rpm);
        assert_eq!(decode_fanspeed(rpm as u32, true), rpm);
    }
}

#[test]
fn fan_sensor_labels() {
    assert_eq!(FanSensor::Cpu.label(), "cpu_fan");
    assert_eq!(FanSensor::Gpu.label(), "gpu_fan");
    assert_eq!(FanSensor::COUNT, 2);
}

#[test]
fn wmi_buffers() {
    let w = ExcaliburWmiArgs::write_cmd(0x0100, 0x05, 0x1234_5678);
    assert_eq!(
        w,
        ExcaliburWmiArgs { a0: 0xfb00, a1: 0x0100, a2: 5, a3: 0x1234_5678, ..Default::default() }
    );
    let r = ExcaliburWmiArgs::read_cmd(0x0200);
    assert_eq!(r, ExcaliburWmiArgs { a0: 0xfa00, a1: 0x0200, ..Default::default() });
    assert_eq!(WmiCommand::Read.as_u16(), 0xfa00);
    assert_eq!(WmiCommand::Write.as_u16(), 0xfb00);
    assert_eq!(WmiCommand::GetHardwareInfo.as_u16(), 0x0200);
    assert_eq!(WmiCommand::SetLed.as_u16(), 0x0100);
    assert_eq!(WmiCommand::PowerPlan.as_u16(), 0x0300);
}

#[test]
fn whitespace_matches_std() {
    for u in 0u32..=0x10FFFF {
        if let Some(c) = char::from_u32(u) {
            assert_eq!(is_whitespace(c), c.is_whitespace(), "U+{:04X}", u);
        }
    }
}

#[test]
fn blank_trim() {
    assert_eq!(trim_blank_bytes(b" \t\r\nab c\n "), b"ab c");
    assert_eq!(trim_blank_bytes(b"   "), b"");
    assert_eq!(trim_blank_bytes(b"\x0bx\x0c"), b"\x0bx\x0c");
}

//! RGB keyboard and corner LED lighting protocol and state.

use vstd::prelude::*;

use crate::text::{
    ascii_bytes, ascii_lower, ascii_lowercase, bytes_are, lemma_lowercase_trim_commute,
    lowercase_bytes, trim_blank, trim_blank_bytes,
};

verus! {

/// Hardware zone ID of the left keyboard zone.
pub const ZONE_LEFT: u8 = 0x05;
/// Hardware zone ID of the middle keyboard zone.
pub const ZONE_MIDDLE: u8 = 0x04;
/// Hardware zone ID of the right keyboard zone.
pub const ZONE_RIGHT: u8 = 0x03;
/// Hardware zone ID addressing the whole keyboard.
pub const ZONE_ALL_KBD: u8 = 0x06;
/// Hardware zone ID of the corner LEDs.
pub const ZONE_CORNERS: u8 = 0x07;

/// Number of keyboard zones.
pub const KBD_ZONE_COUNT: usize = 3;
/// Number of individually driven zones.
pub const TOTAL_ZONE_COUNT: usize = 4;
/// Highest brightness level.
pub const MAX_BRIGHTNESS: u8 = 2;

/// Hardware zone IDs in zone index order.
pub const ZONE_IDS: [u8; 4] = [ZONE_LEFT, ZONE_MIDDLE, ZONE_RIGHT, ZONE_CORNERS];

/// sysfs LED device names in zone index order.
pub const ZONE_NAMES: [&'static str; 4] = [
    "excalibur::kbd_backlight-left",
    "excalibur::kbd_backlight-middle",
    "excalibur::kbd_backlight-right",
    "excalibur::kbd_backlight-corners",
];

/// Animation modes supported by the Excalibur EC/WMI controller, in the
/// order of their hardware numbers 0 to 7.
#[derive(Debug, Clone, Copy, PartialEq, Eq, Structural)]
pub enum LedMode {
    Off,
    Static,
    Blink,
    Fade,
    Heartbeat,
    Wave,
    Random,
    Rainbow,
}

impl LedMode {
    /// Space-separated names of all modes.
    pub const ALL_MODES_STR: &'static str = "off static blink fade heartbeat wave random rainbow";

    /// The hardware number of the mode (0 to 7).
    pub open spec fn spec_as_u8(self) -> u8 {
        match self {
            LedMode::Off => 0,
            LedMode::Static => 1,
            LedMode::Blink => 2,
            LedMode::Fade => 3,
            LedMode::Heartbeat => 4,
            LedMode::Wave => 5,
            LedMode::Random => 6,
            LedMode::Rainbow => 7,
        }
    }

    /// The mode with a given hardware number, if there is one.
    pub open spec fn spec_from_u8(val: u8) -> Option<LedMode> {
        if val == 0 {
            Some(LedMode::Off)
        } else if val == 1 {
            Some(LedMode::Static)
        } else if val == 2 {
            Some(LedMode::Blink)
        } else if val == 3 {
            Some(LedMode::Fade)
        } else if val == 4 {
            Some(LedMode::Heartbeat)
        } else if val == 5 {
            Some(LedMode::Wave)
        } else if val == 6 {
            Some(LedMode::Random)
        } else if val == 7 {
            Some(LedMode::Rainbow)
        } else {
            None
        }
    }

    /// The name of the mode.
    pub open spec fn spec_as_str(self) -> Seq<char> {
        match self {
            LedMode::Off => "off"@,
            LedMode::Static => "static"@,
            LedMode::Blink => "blink"@,
            LedMode::Fade => "fade"@,
            LedMode::Heartbeat => "heartbeat"@,
            LedMode::Wave => "wave"@,
            LedMode::Random => "random"@,
            LedMode::Rainbow => "rainbow"@,
        }
    }

    /// The mode a lower-case word names: its name, an alias, or its number
    /// as a decimal digit.
    pub open spec fn spec_from_word(w: Seq<u8>) -> Option<LedMode> {
        if w == ascii_bytes("off"@) || w == ascii_bytes("0"@) {
            Some(LedMode::Off)
        } else if w == ascii_bytes("static"@) || w == ascii_bytes("1"@) {
            Some(LedMode::Static)
        } else if w == ascii_bytes("blink"@) || w == ascii_bytes("2"@) {
            Some(LedMode::Blink)
        } else if w == ascii_bytes("fade"@) || w == ascii_bytes("breathe"@) || w == ascii_bytes(
            "3"@,
        ) {
            Some(LedMode::Fade)
        } else if w == ascii_bytes("heartbeat"@) || w == ascii_bytes("4"@) {
            Some(LedMode::Heartbeat)
        } else if w == ascii_bytes("wave"@) || w == ascii_bytes("5"@) {
            Some(LedMode::Wave)
        } else if w == ascii_bytes("random"@) || w == ascii_bytes("6"@) {
            Some(LedMode::Random)
        } else if w == ascii_bytes("rainbow"@) || w == ascii_bytes("7"@) {
            Some(LedMode::Rainbow)
        } else {
            None
        }
    }

    /// The mode a byte string names once surrounding blanks are stripped,
    /// compared without regard to ASCII case.
    pub open spec fn spec_from_bytes(bytes: Seq<u8>) -> Option<LedMode> {
        Self::spec_from_word(ascii_lowercase(trim_blank(bytes)))
    }

    /// Returns the hardware number of the mode.
    pub fn as_u8(&self) -> (v: u8)
        ensures
            v == self.spec_as_u8(),
    {
        match self {
            LedMode::Off => 0,
            LedMode::Static => 1,
            LedMode::Blink => 2,
            LedMode::Fade => 3,
            LedMode::Heartbeat => 4,
            LedMode::Wave => 5,
            LedMode::Random => 6,
            LedMode::Rainbow => 7,
        }
    }

    /// Converts a hardware mode number into a mode.
    pub fn from_u8(val: u8) -> (r: Option<Self>)
        ensures
            r == Self::spec_from_u8(val),
    {
        match val {
            0 => Some(LedMode::Off),
            1 => Some(LedMode::Static),
            2 => Some(LedMode::Blink),
            3 => Some(LedMode::Fade),
            4 => Some(LedMode::Heartbeat),
            5 => Some(LedMode::Wave),
            6 => Some(LedMode::Random),
            7 => Some(LedMode::Rainbow),
            _ => None,
        }
    }

    /// Returns the name of the mode.
    pub fn as_str(&self) -> (s: &'static str)
        ensures
            s@ == self.spec_as_str(),
    {
        match self {
            LedMode::Off => "off",
            LedMode::Static => "static",
            LedMode::Blink => "blink",
            LedMode::Fade => "fade",
            LedMode::Heartbeat => "heartbeat",
            LedMode::Wave => "wave",
            LedMode::Random => "random",
            LedMode::Rainbow => "rainbow",
        }
    }

    /// Parses a mode from its name, an alias (`breathe`) or its number,
    /// ignoring surrounding blanks and ASCII case.
    pub fn from_bytes(bytes: &[u8]) -> (r: Option<Self>)
        ensures
            r == Self::spec_from_bytes(bytes@),
    {
        let t = trim_blank_bytes(bytes);
        let lower = lowercase_bytes(t);
        let w = lower.as_slice();
        if bytes_are(w, "off") || bytes_are(w, "0") {
            Some(LedMode::Off)
        } else if bytes_are(w, "static") || bytes_are(w, "1") {
            Some(LedMode::Static)
        } else if bytes_are(w, "blink") || bytes_are(w, "2") {
            Some(LedMode::Blink)
        } else if bytes_are(w, "fade") || bytes_are(w, "breathe") || bytes_are(w, "3") {
            Some(LedMode::Fade)
        } else if bytes_are(w, "heartbeat") || bytes_are(w, "4") {
            Some(LedMode::Heartbeat)
        } else if bytes_are(w, "wave") || bytes_are(w, "5") {
            Some(LedMode::Wave)
        } else if bytes_are(w, "random") || bytes_are(w, "6") {
            Some(LedMode::Random)
        } else if bytes_are(w, "rainbow") || bytes_are(w, "7") {
            Some(LedMode::Rainbow)
        } else {
            None
        }
    }
}

/// Represents an RGB color (24-bit).
///
/// The type has Rust's default layout; a C-compatible copy must be made by
/// code that passes it across a C boundary.
#[derive(Debug, Clone, Copy, PartialEq, Eq, Structural)]
pub struct RgbColor {
    pub r: u8,
    pub g: u8,
    pub b: u8,
}

impl RgbColor {
    /// Full-intensity white.
    pub fn white() -> (c: Self)
        ensures
            c == (RgbColor { r: 0xFF, g: 0xFF, b: 0xFF }),
    {
        RgbColor { r: 0xFF, g: 0xFF, b: 0xFF }
    }

    /// All channels off.
    pub fn black() -> (c: Self)
        ensures
            c == (RgbColor { r: 0, g: 0, b: 0 }),
    {
        RgbColor { r: 0, g: 0, b: 0 }
    }

    /// Pure red.
    pub fn red() -> (c: Self)
        ensures
            c == (RgbColor { r: 0xFF, g: 0, b: 0 }),
    {
        RgbColor { r: 0xFF, g: 0, b: 0 }
    }

    /// Pure green.
    pub fn green() -> (c: Self)
        ensures
            c == (RgbColor { r: 0, g: 0xFF, b: 0 }),
    {
        RgbColor { r: 0, g: 0xFF, b: 0 }
    }

    /// Pure blue.
    pub fn blue() -> (c: Self)
        ensures
            c == (RgbColor { r: 0, g: 0, b: 0xFF }),
    {
        RgbColor { r: 0, g: 0, b: 0xFF }
    }

    /// Parses a hex colour such as `FF0000`, `#FF0000` or `0xFF0000`,
    /// ignoring surrounding blanks.
    pub fn parse_hex(bytes: &[u8]) -> (r: Option<Self>)
        ensures
            r == spec_parse_hex(bytes@),
    {
        let t = trim_blank_bytes(bytes);
        let s: &[u8] = if t.len() >= 1 && t[0] == 0x23 {
            &t[1..t.len()]
        } else if t.len() >= 2 && t[0] == 0x30 && (t[1] == 0x78 || t[1] == 0x58) {
            &t[2..t.len()]
        } else {
            t
        };
        assert(s@ == strip_hex_prefix(t@));
        if s.len() != 6 {
            return None;
        }
        let r = match hex_pair(s[0], s[1]) {
            Some(v) => v,
            None => return None,
        };
        let g = match hex_pair(s[2], s[3]) {
            Some(v) => v,
            None => return None,
        };
        let b = match hex_pair(s[4], s[5]) {
            Some(v) => v,
            None => return None,
        };
        Some(RgbColor { r, g, b })
    }

    /// Creates a colour from its red, green and blue components.
    pub fn new(r: u8, g: u8, b: u8) -> (c: Self)
        ensures
            c == (RgbColor { r, g, b }),
    {
        RgbColor { r, g, b }
    }
}

/// The value of a hexadecimal digit byte (either case), if it is one.
pub open spec fn hex_digit_value(b: u8) -> Option<u8> {
    if 0x30 <= b <= 0x39 {
        Some((b - 0x30) as u8)
    } else if 0x61 <= b <= 0x66 {
        Some((b - 0x61 + 10) as u8)
    } else if 0x41 <= b <= 0x46 {
        Some((b - 0x41 + 10) as u8)
    } else {
        None
    }
}

/// The byte two hex digits spell, high digit first.
pub open spec fn hex_pair_value(hi: u8, lo: u8) -> Option<u8> {
    match (hex_digit_value(hi), hex_digit_value(lo)) {
        (Some(h), Some(l)) => Some((h * 16 + l) as u8),
        _ => None,
    }
}

/// A colour text with one leading `#`, or else one leading `0x` or `0X`, removed.
pub open spec fn strip_hex_prefix(s: Seq<u8>) -> Seq<u8> {
    if s.len() >= 1 && s[0] == 0x23 {
        s.subrange(1, s.len() as int)
    } else if s.len() >= 2 && s[0] == 0x30 && (s[1] == 0x78 || s[1] == 0x58) {
        s.subrange(2, s.len() as int)
    } else {
        s
    }
}

/// The colour a text names: after blanks are trimmed and a `#`, `0x` or
/// `0X` prefix is stripped, exactly six hex digits, two for each of red,
/// green and blue.
pub open spec fn spec_parse_hex(bytes: Seq<u8>) -> Option<RgbColor> {
    let s = strip_hex_prefix(trim_blank(bytes));
    if s.len() != 6 {
        None
    } else {
        match (hex_pair_value(s[0], s[1]), hex_pair_value(s[2], s[3]), hex_pair_value(s[4], s[5])) {
            (Some(r), Some(g), Some(b)) => Some(RgbColor { r, g, b }),
            _ => None,
        }
    }
}

/// Returns the value of a hexadecimal digit byte, if it is one.
fn hex_val(b: u8) -> (r: Option<u8>)
    ensures
        r == hex_digit_value(b),
        r matches Some(v) ==> v < 16,
{
    if 0x30 <= b && b <= 0x39 {
        Some(b - 0x30)
    } else if 0x61 <= b && b <= 0x66 {
        Some(b - 0x61 + 10)
    } else if 0x41 <= b && b <= 0x46 {
        Some(b - 0x41 + 10)
    } else {
        None
    }
}

/// Returns the byte two hex digits spell, high digit first.
fn hex_pair(hi: u8, lo: u8) -> (r: Option<u8>)
    ensures
        r == hex_pair_value(hi, lo),
{
    let h = match hex_val(hi) {
        Some(v) => v,
        None => return None,
    };
    let l = match hex_val(lo) {
        Some(v) => v,
        None => return None,
    };
    let v: u8 = (h << 4) | l;
    assert(v == (h * 16 + l) as u8) by (bit_vector)
        requires
            v == (h << 4) | l,
            h < 16,
            l < 16,
    ;
    Some(v)
}

/// The 32-bit LED word for a mode, a brightness and a colour:
/// bits 31..28 hold the low four bits of the mode, bits 27..24 the low four
/// bits of the brightness, then red, green and blue one byte each.
pub open spec fn spec_pack_led_word(mode: u8, brightness: u8, color: RgbColor) -> u32 {
    ((mode as int % 16) * 0x1000_0000 + (brightness as int % 16) * 0x100_0000 + color.r as int
        * 0x1_0000 + color.g as int * 0x100 + color.b as int) as u32
}

/// The mode, brightness and colour fields of a 32-bit LED word.
pub open spec fn spec_unpack_led_word(val: u32) -> (u8, u8, RgbColor) {
    (
        (val as int / 0x1000_0000) as u8,
        (val as int / 0x100_0000 % 16) as u8,
        RgbColor {
            r: (val as int / 0x1_0000 % 0x100) as u8,
            g: (val as int / 0x100 % 0x100) as u8,
            b: (val as int % 0x100) as u8,
        },
    )
}

/// Packs a mode, a brightness level and a colour into the 32-bit LED word.
///
/// Bit layout: bits 31..28 mode, 27..24 brightness, 23..16 red,
/// 15..8 green, 7..0 blue.
pub fn pack_led_word(mode: u8, brightness: u8, color: RgbColor) -> (w: u32)
    ensures
        w == spec_pack_led_word(mode, brightness, color),
{
    let m: u32 = ((mode as u32) & 0x0F) << 28;
    let a: u32 = ((brightness as u32) & 0x0F) << 24;
    let r: u32 = (color.r as u32) << 16;
    let g: u32 = (color.g as u32) << 8;
    let b: u32 = color.b as u32;
    let w: u32 = m | a | r | g | b;
    let cr: u8 = color.r;
    let cg: u8 = color.g;
    let cb: u8 = color.b;
    assert(w as int == (mode as int % 16) * 0x1000_0000 + (brightness as int % 16) * 0x100_0000
        + cr as int * 0x1_0000 + cg as int * 0x100 + cb as int) by (bit_vector)
        requires
            w == (((mode as u32) & 0x0F) << 28) | (((brightness as u32) & 0x0F) << 24) | ((
            cr as u32) << 16) | ((cg as u32) << 8) | (cb as u32),
    ;
    w
}

/// Unpacks a 32-bit LED word into its mode, brightness and colour.
pub fn unpack_led_word(val: u32) -> (parts: (u8, u8, RgbColor))
    ensures
        parts == spec_unpack_led_word(val),
{
    let mode: u8 = ((val >> 28) & 0x0F) as u8;
    let brightness: u8 = ((val >> 24) & 0x0F) as u8;
    let r: u8 = ((val >> 16) & 0xFF) as u8;
    let g: u8 = ((val >> 8) & 0xFF) as u8;
    let b: u8 = (val & 0xFF) as u8;
    assert(mode as int == val as int / 0x1000_0000 && brightness as int == val as int / 0x100_0000
        % 16 && r as int == val as int / 0x1_0000 % 0x100 && g as int == val as int / 0x100
        % 0x100 && b as int == val as int % 0x100) by (bit_vector)
        requires
            mode == ((val >> 28) & 0x0F) as u8,
            brightness == ((val >> 24) & 0x0F) as u8,
            r == ((val >> 16) & 0xFF) as u8,
            g == ((val >> 8) & 0xFF) as u8,
            b == (val & 0xFF) as u8,
    ;
    (mode, brightness, RgbColor { r, g, b })
}

/// State of a single lighting zone.
///
/// The type has Rust's default layout; a C-compatible copy must be made by
/// code that passes it across a C boundary.
#[derive(Debug, Clone, Copy, PartialEq, Eq, Structural)]
pub struct ZoneState {
    pub zone_id: u8,
    pub mode: u8,
    pub brightness: u8,
    pub color: RgbColor,
}

impl ZoneState {
    /// The state a zone starts in: static white at brightness 0.
    pub open spec fn spec_new(zone_id: u8) -> ZoneState {
        ZoneState {
            zone_id,
            mode: LedMode::Static.spec_as_u8(),
            brightness: 0,
            color: RgbColor { r: 0xFF, g: 0xFF, b: 0xFF },
        }
    }

    /// Creates the initial state of a zone: static white at brightness 0.
    pub fn new(zone_id: u8) -> (s: Self)
        ensures
            s == Self::spec_new(zone_id),
    {
        ZoneState {
            zone_id,
            mode: LedMode::Static.as_u8(),
            brightness: 0,
            color: RgbColor::white(),
        }
    }

    /// Returns the LED word that programs the zone's mode, brightness and colour.
    pub fn packed_word(&self) -> (w: u32)
        ensures
            w == spec_pack_led_word(self.mode, self.brightness, self.color),
    {
        pack_led_word(self.mode, self.brightness, self.color)
    }
}

/// Unpacking a packed LED word gives back the colour, and the mode and
/// brightness reduced to the four bits their fields hold.
pub proof fn lemma_unpack_pack(mode: u8, brightness: u8, color: RgbColor)
    ensures
        spec_unpack_led_word(spec_pack_led_word(mode, brightness, color)) == (
            mode % 16,
            brightness % 16,
            color,
        ),
{
    let r = color.r;
    let g = color.g;
    let b = color.b;
    let w = spec_pack_led_word(mode, brightness, color);
    assert(({
        let w = ((mode as int % 16) * 0x1000_0000 + (brightness as int % 16) * 0x100_0000 + r as int
            * 0x1_0000 + g as int * 0x100 + b as int) as u32;
        &&& (w as int / 0x1000_0000) as u8 == mode % 16
        &&& (w as int / 0x100_0000 % 16) as u8 == brightness % 16
        &&& (w as int / 0x1_0000 % 0x100) as u8 == r
        &&& (w as int / 0x100 % 0x100) as u8 == g
        &&& (w as int % 0x100) as u8 == b
    })) by (bit_vector);
}

/// Packing the fields of an LED word gives back the word.
pub proof fn lemma_pack_unpack(val: u32)
    ensures
        ({
            let (mode, brightness, color) = spec_unpack_led_word(val);
            spec_pack_led_word(mode, brightness, color) == val
        }),
{
    assert(((((val as int / 0x1000_0000) as u8) as int % 16) * 0x1000_0000 + (((val as int
        / 0x100_0000 % 16) as u8) as int % 16) * 0x100_0000 + ((val as int / 0x1_0000
        % 0x100) as u8) as int * 0x1_0000 + ((val as int / 0x100 % 0x100) as u8) as int * 0x100
        + ((val as int % 0x100) as u8) as int) as u32 == val) by (bit_vector);
}

/// The characters of the words the mode table matches.
proof fn lemma_mode_words()
    ensures
        "off"@ == seq!['o', 'f', 'f'],
        "0"@ == seq!['0'],
        "static"@ == seq!['s', 't', 'a', 't', 'i', 'c'],
        "1"@ == seq!['1'],
        "blink"@ == seq!['b', 'l', 'i', 'n', 'k'],
        "2"@ == seq!['2'],
        "fade"@ == seq!['f', 'a', 'd', 'e'],
        "breathe"@ == seq!['b', 'r', 'e', 'a', 't', 'h', 'e'],
        "3"@ == seq!['3'],
        "heartbeat"@ == seq!['h', 'e', 'a', 'r', 't', 'b', 'e', 'a', 't'],
        "4"@ == seq!['4'],
        "wave"@ == seq!['w', 'a', 'v', 'e'],
        "5"@ == seq!['5'],
        "random"@ == seq!['r', 'a', 'n', 'd', 'o', 'm'],
        "6"@ == seq!['6'],
        "rainbow"@ == seq!['r', 'a', 'i', 'n', 'b', 'o', 'w'],
        "7"@ == seq!['7'],
{
    reveal_strlit("off");
    reveal_strlit("0");
    reveal_strlit("static");
    reveal_strlit("1");
    reveal_strlit("blink");
    reveal_strlit("2");
    reveal_strlit("fade");
    reveal_strlit("breathe");
    reveal_strlit("3");
    reveal_strlit("heartbeat");
    reveal_strlit("4");
    reveal_strlit("wave");
    reveal_strlit("5");
    reveal_strlit("random");
    reveal_strlit("6");
    reveal_strlit("rainbow");
    reveal_strlit("7");
}

/// A mode number converts back to the mode it came from, and exactly the
/// numbers 0 to 7 name modes.
pub proof fn lemma_mode_number_roundtrip(m: LedMode, val: u8)
    ensures
        LedMode::spec_from_u8(m.spec_as_u8()) == Some(m),
        LedMode::spec_from_u8(val) == Some(m) ==> m.spec_as_u8() == val,
        LedMode::spec_from_u8(val) is Some <==> val < 8,
{
}

/// Parsing the name of a mode gives back the mode.
pub proof fn lemma_mode_name_roundtrip(m: LedMode)
    ensures
        LedMode::spec_from_bytes(ascii_bytes(m.spec_as_str())) == Some(m),
{
    lemma_mode_words();
    let w = ascii_bytes(m.spec_as_str());
    assert(trim_blank(w) == w);
    assert(ascii_lowercase(w) =~= w);
}

/// Mode names are matched without regard to ASCII case: two texts that
/// differ only in the case of their letters name the same mode.
pub proof fn lemma_mode_case_insensitive(a: Seq<u8>, b: Seq<u8>)
    requires
        ascii_lowercase(a) == ascii_lowercase(b),
    ensures
        LedMode::spec_from_bytes(a) == LedMode::spec_from_bytes(b),
{
    lemma_lowercase_trim_commute(a);
    lemma_lowercase_trim_commute(b);
}

/// A mode number written as a decimal digit parses as the mode of that number.
pub proof fn lemma_mode_digit(val: u8)
    requires
        val < 8,
    ensures
        LedMode::spec_from_bytes(seq![(0x30 + val) as u8]) == LedMode::spec_from_u8(val),
{
    lemma_mode_words();
    let w = seq![(0x30 + val) as u8];
    assert(trim_blank(w) == w);
    assert(ascii_lowercase(w) =~= w);
    if val == 0 {
        assert(w =~= ascii_bytes("0"@));
    } else if val == 1 {
        assert(w =~= ascii_bytes("1"@));
    } else if val == 2 {
        assert(w =~= ascii_bytes("2"@));
    } else if val == 3 {
        assert(w =~= ascii_bytes("3"@));
    } else if val == 4 {
        assert(w =~= ascii_bytes("4"@));
    } else if val == 5 {
        assert(w =~= ascii_bytes("5"@));
    } else if val == 6 {
        assert(w =~= ascii_bytes("6"@));
    } else {
        assert(w =~= ascii_bytes("7"@));
    }
}

/// The upper-case hexadecimal digit byte for a value below 16.
pub open spec fn hex_digit_byte(n: int) -> u8 {
    if n < 10 {
        (0x30 + n) as u8
    } else {
        (0x41 + n - 10) as u8
    }
}

/// The six upper-case hex digits of a colour, red first.
pub open spec fn hex_text(c: RgbColor) -> Seq<u8> {
    seq![
        hex_digit_byte(c.r as int / 16),
        hex_digit_byte(c.r as int % 16),
        hex_digit_byte(c.g as int / 16),
        hex_digit_byte(c.g as int % 16),
        hex_digit_byte(c.b as int / 16),
        hex_digit_byte(c.b as int % 16),
    ]
}

proof fn lemma_hex_pair_of_byte(x: u8)
    ensures
        hex_pair_value(hex_digit_byte(x as int / 16), hex_digit_byte(x as int % 16)) == Some(x),
{
}

/// Every colour is read back from its six hex digits, bare or after a `#`
/// or `0x` prefix.
pub proof fn lemma_parse_hex_complete(c: RgbColor)
    ensures
        spec_parse_hex(hex_text(c)) == Some(c),
        spec_parse_hex(seq![0x23u8] + hex_text(c)) == Some(c),
        spec_parse_hex(seq![0x30u8, 0x78u8] + hex_text(c)) == Some(c),
{
    lemma_hex_pair_of_byte(c.r);
    lemma_hex_pair_of_byte(c.g);
    lemma_hex_pair_of_byte(c.b);
    let t = hex_text(c);
    assert(trim_blank(t) == t);
    assert(strip_hex_prefix(t) == t);
    let t1 = seq![0x23u8] + t;
    assert(trim_blank(t1) == t1);
    assert(strip_hex_prefix(t1) =~= t);
    let t2 = seq![0x30u8, 0x78u8] + t;
    assert(trim_blank(t2) == t2);
    assert(strip_hex_prefix(t2) =~= t);
}

/// Every word of the mode table names its mode, read as text: `off`/`0`,
/// `static`/`1`, `blink`/`2`, `fade`/`breathe`/`3`, `heartbeat`/`4`,
/// `wave`/`5`, `random`/`6`, `rainbow`/`7`.
pub proof fn lemma_mode_word_table()
    ensures
        LedMode::spec_from_bytes(ascii_bytes("off"@)) == Some(LedMode::Off),
        LedMode::spec_from_bytes(ascii_bytes("0"@)) == Some(LedMode::Off),
        LedMode::spec_from_bytes(ascii_bytes("static"@)) == Some(LedMode::Static),
        LedMode::spec_from_bytes(ascii_bytes("1"@)) == Some(LedMode::Static),
        LedMode::spec_from_bytes(ascii_bytes("blink"@)) == Some(LedMode::Blink),
        LedMode::spec_from_bytes(ascii_bytes("2"@)) == Some(LedMode::Blink),
        LedMode::spec_from_bytes(ascii_bytes("fade"@)) == Some(LedMode::Fade),
        LedMode::spec_from_bytes(ascii_bytes("breathe"@)) == Some(LedMode::Fade),
        LedMode::spec_from_bytes(ascii_bytes("3"@)) == Some(LedMode::Fade),
        LedMode::spec_from_bytes(ascii_bytes("heartbeat"@)) == Some(LedMode::Heartbeat),
        LedMode::spec_from_bytes(ascii_bytes("4"@)) == Some(LedMode::Heartbeat),
        LedMode::spec_from_bytes(ascii_bytes("wave"@)) == Some(LedMode::Wave),
        LedMode::spec_from_bytes(ascii_bytes("5"@)) == Some(LedMode::Wave),
        LedMode::spec_from_bytes(ascii_bytes("random"@)) == Some(LedMode::Random),
        LedMode::spec_from_bytes(ascii_bytes("6"@)) == Some(LedMode::Random),
        LedMode::spec_from_bytes(ascii_bytes("rainbow"@)) == Some(LedMode::Rainbow),
        LedMode::spec_from_bytes(ascii_bytes("7"@)) == Some(LedMode::Rainbow),
{
    lemma_mode_words();
    assert(trim_blank(ascii_bytes("off"@)) == ascii_bytes("off"@));
    assert(ascii_lowercase(ascii_bytes("off"@)) =~= ascii_bytes("off"@));
    assert(trim_blank(ascii_bytes("0"@)) == ascii_bytes("0"@));
    assert(ascii_lowercase(ascii_bytes("0"@)) =~= ascii_bytes("0"@));
    assert(trim_blank(ascii_bytes("static"@)) == ascii_bytes("static"@));
    assert(ascii_lowercase(ascii_bytes("static"@)) =~= ascii_bytes("static"@));
    assert(trim_blank(ascii_bytes("1"@)) == ascii_bytes("1"@));
    assert(ascii_lowercase(ascii_bytes("1"@)) =~= ascii_bytes("1"@));
    assert(trim_blank(ascii_bytes("blink"@)) == ascii_bytes("blink"@));
    assert(ascii_lowercase(ascii_bytes("blink"@)) =~= ascii_bytes("blink"@));
    assert(trim_blank(ascii_bytes("2"@)) == ascii_bytes("2"@));
    assert(ascii_lowercase(ascii_bytes("2"@)) =~= ascii_bytes("2"@));
    assert(trim_blank(ascii_bytes("fade"@)) == ascii_bytes("fade"@));
    assert(ascii_lowercase(ascii_bytes("fade"@)) =~= ascii_bytes("fade"@));
    assert(trim_blank(ascii_bytes("breathe"@)) == ascii_bytes("breathe"@));
    assert(ascii_lowercase(ascii_bytes("breathe"@)) =~= ascii_bytes("breathe"@));
    assert(trim_blank(ascii_bytes("3"@)) == ascii_bytes("3"@));
    assert(ascii_lowercase(ascii_bytes("3"@)) =~= ascii_bytes("3"@));
    assert(trim_blank(ascii_bytes("heartbeat"@)) == ascii_bytes("heartbeat"@));
    assert(ascii_lowercase(ascii_bytes("heartbeat"@)) =~= ascii_bytes("heartbeat"@));
    assert(trim_blank(ascii_bytes("4"@)) == ascii_bytes("4"@));
    assert(ascii_lowercase(ascii_bytes("4"@)) =~= ascii_bytes("4"@));
    assert(trim_blank(ascii_bytes("wave"@)) == ascii_bytes("wave"@));
    assert(ascii_lowercase(ascii_bytes("wave"@)) =~= ascii_bytes("wave"@));
    assert(trim_blank(ascii_bytes("5"@)) == ascii_bytes("5"@));
    assert(ascii_lowercase(ascii_bytes("5"@)) =~= ascii_bytes("5"@));
    assert(trim_blank(ascii_bytes("random"@)) == ascii_bytes("random"@));
    assert(ascii_lowercase(ascii_bytes("random"@)) =~= ascii_bytes("random"@));
    assert(trim_blank(ascii_bytes("6"@)) == ascii_bytes("6"@));
    assert(ascii_lowercase(ascii_bytes("6"@)) =~= ascii_bytes("6"@));
    assert(trim_blank(ascii_bytes("rainbow"@)) == ascii_bytes("rainbow"@));
    assert(ascii_lowercase(ascii_bytes("rainbow"@)) =~= ascii_bytes("rainbow"@));
    assert(trim_blank(ascii_bytes("7"@)) == ascii_bytes("7"@));
    assert(ascii_lowercase(ascii_bytes("7"@)) =~= ascii_bytes("7"@));
}

/// The hardware numbers and names of the modes: off 0, static 1, blink 2,
/// fade 3, heartbeat 4, wave 5, random 6, rainbow 7.
pub proof fn lemma_mode_number_table()
    ensures
        LedMode::Off.spec_as_u8() == 0,
        LedMode::Static.spec_as_u8() == 1,
        LedMode::Blink.spec_as_u8() == 2,
        LedMode::Fade.spec_as_u8() == 3,
        LedMode::Heartbeat.spec_as_u8() == 4,
        LedMode::Wave.spec_as_u8() == 5,
        LedMode::Random.spec_as_u8() == 6,
        LedMode::Rainbow.spec_as_u8() == 7,
        LedMode::Off.spec_as_str() == "off"@,
        LedMode::Static.spec_as_str() == "static"@,
        LedMode::Blink.spec_as_str() == "blink"@,
        LedMode::Fade.spec_as_str() == "fade"@,
        LedMode::Heartbeat.spec_as_str() == "heartbeat"@,
        LedMode::Wave.spec_as_str() == "wave"@,
        LedMode::Random.spec_as_str() == "random"@,
        LedMode::Rainbow.spec_as_str() == "rainbow"@,
{
}

/// Hex colours are read without regard to ASCII case: a text and its
/// lower-cased copy name the same colour, or both none.
pub proof fn lemma_parse_hex_case_insensitive(bytes: Seq<u8>)
    ensures
        spec_parse_hex(ascii_lowercase(bytes)) == spec_parse_hex(bytes),
{
    lemma_lowercase_trim_commute(bytes);
    let t = trim_blank(bytes);
    let lt = ascii_lowercase(t);
    assert(ascii_lowercase(trim_blank(bytes)) == trim_blank(ascii_lowercase(bytes)));
    let st = strip_hex_prefix(t);
    let slt = strip_hex_prefix(lt);
    assert(slt =~= ascii_lowercase(st));
    assert forall|b: u8| hex_digit_value(#[trigger] ascii_lower(b)) == hex_digit_value(b) by {}
    if st.len() == 6 {
        assert(slt[0] == ascii_lower(st[0]));
        assert(slt[1] == ascii_lower(st[1]));
        assert(slt[2] == ascii_lower(st[2]));
        assert(slt[3] == ascii_lower(st[3]));
        assert(slt[4] == ascii_lower(st[4]));
        assert(slt[5] == ascii_lower(st[5]));
    }
}

} // verus!

//! Fan speed decoding with per-model byte order quirks.

use vstd::prelude::*;

verus! {

/// The low 16 bits of a raw fan register, in native order.
pub open spec fn spec_raw_rpm(raw: u32) -> int {
    raw as int % 0x1_0000
}

/// A 16-bit value with its two bytes exchanged.
pub open spec fn spec_swap16(v: int) -> int {
    (v % 0x100) * 0x100 + v / 0x100
}

/// The RPM reported by a raw fan register: the low 16 bits, byte-swapped
/// unless the model reports native little-endian values.
pub open spec fn spec_decode_fanspeed(raw: u32, has_raw_fanspeed: bool) -> int {
    if has_raw_fanspeed {
        spec_raw_rpm(raw)
    } else {
        spec_swap16(spec_raw_rpm(raw))
    }
}

/// Decodes fan speed RPM from the raw 32-bit register value returned by a
/// WMI query.
///
/// Newer generations (11th gen and later, G770, G870, G911) return RPM in
/// native little-endian order. Older generations (10th gen Intel, G650, G750,
/// G670, G900) return the two RPM bytes swapped.
pub fn decode_fanspeed(raw: u32, has_raw_fanspeed: bool) -> (rpm: u16)
    ensures
        rpm as int == spec_decode_fanspeed(raw, has_raw_fanspeed),
{
    let val: u16 = (raw & 0xFFFF) as u16;
    assert(val as int == raw as int % 0x1_0000) by (bit_vector)
        requires
            val == (raw & 0xFFFF) as u16,
    ;
    if has_raw_fanspeed {
        val
    } else {
        let swapped: u16 = (val << 8) | (val >> 8);
        assert(swapped as int == (val as int % 0x100) * 0x100 + val as int / 0x100) by (bit_vector)
            requires
                swapped == (val << 8) | (val >> 8),
        ;
        swapped
    }
}

/// Exchanging the two bytes of a 16-bit value twice gives the value back.
pub proof fn lemma_swap16_involution(v: int)
    requires
        0 <= v < 0x1_0000,
    ensures
        0 <= spec_swap16(v) < 0x1_0000,
        spec_swap16(spec_swap16(v)) == v,
{
}

/// Decoding with and without the byte order quirk differ exactly by a byte
/// swap, and a model that reports an RPM with its bytes swapped has it
/// decoded back to the RPM.
pub proof fn lemma_fanspeed_byte_order(raw: u32, rpm: u16)
    ensures
        spec_decode_fanspeed(raw, false) == spec_swap16(spec_decode_fanspeed(raw, true)),
        spec_decode_fanspeed(spec_swap16(rpm as int) as u32, false) == rpm,
        spec_decode_fanspeed(rpm as u32, true) == rpm,
{
    lemma_swap16_involution(rpm as int);
}

/// Fan sensor identifiers.
#[derive(Debug, Clone, Copy, PartialEq, Eq, Structural)]
pub enum FanSensor {
    Cpu,
    Gpu,
}

impl FanSensor {
    /// Number of fan sensors.
    pub const COUNT: usize = 2;

    /// The hwmon label of the sensor.
    pub open spec fn spec_label(self) -> Seq<char> {
        match self {
            FanSensor::Cpu => "cpu_fan"@,
            FanSensor::Gpu => "gpu_fan"@,
        }
    }

    /// Returns the hwmon label of the sensor.
    pub fn label(&self) -> (s: &'static str)
        ensures
            s@ == self.spec_label(),
    {
        match self {
            FanSensor::Cpu => "cpu_fan",
            FanSensor::Gpu => "gpu_fan",
        }
    }
}

} // verus!

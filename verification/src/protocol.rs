//! Hardware protocol constants and the WMI request buffer layout.

use vstd::prelude::*;

verus! {

/// Casper Excalibur ACPI-WMI device GUID.
pub const EXCALIBUR_WMI_GUID: &'static str = "644C5791-B7B0-4123-A90B-E93876E0DAAD";

/// WMI command codes.
///
/// The variants carry no explicit discriminants, so `cmd as u16` gives the
/// declaration index 0 to 4, not the firmware code; use
/// [`WmiCommand::as_u16`] for the code.
#[derive(Debug, Clone, Copy, PartialEq, Eq, Structural)]
pub enum WmiCommand {
    /// Read request to firmware.
    Read,
    /// Write request to firmware.
    Write,
    /// Query hardware sensor info (fan speeds, status).
    GetHardwareInfo,
    /// Set LED lighting state for a zone.
    SetLed,
    /// Get / set system power plan.
    PowerPlan,
}

impl WmiCommand {
    /// The 16-bit code the firmware expects for the command.
    pub open spec fn spec_code(self) -> u16 {
        match self {
            WmiCommand::Read => 0xfa00,
            WmiCommand::Write => 0xfb00,
            WmiCommand::GetHardwareInfo => 0x0200,
            WmiCommand::SetLed => 0x0100,
            WmiCommand::PowerPlan => 0x0300,
        }
    }

    /// Returns the 16-bit code the firmware expects for the command.
    pub fn as_u16(&self) -> (code: u16)
        ensures
            code == self.spec_code(),
    {
        match self {
            WmiCommand::Read => 0xfa00,
            WmiCommand::Write => 0xfb00,
            WmiCommand::GetHardwareInfo => 0x0200,
            WmiCommand::SetLed => 0x0100,
            WmiCommand::PowerPlan => 0x0300,
        }
    }
}

/// The fields of the WMI packet passed to and from the firmware, in ACPI
/// buffer order.
///
/// The type has Rust's default layout, so its fields may sit in memory in
/// another order; code that hands the buffer across a C boundary copies the
/// fields into a `#[repr(C)]` struct of its own.
#[derive(Debug, Default, Clone, Copy, PartialEq, Eq, Structural)]
pub struct ExcaliburWmiArgs {
    pub a0: u16,
    pub a1: u16,
    pub a2: u32,
    pub a3: u32,
    pub a4: u32,
    pub a5: u32,
    pub a6: u32,
    pub rev0: u32,
    pub rev1: u32,
}

impl ExcaliburWmiArgs {
    /// The write request buffer for a sub-command, its zone or parameter,
    /// and its data word; every other field is zero.
    pub open spec fn spec_write_cmd(sub_cmd: u16, zone_or_param: u32, data: u32) -> ExcaliburWmiArgs {
        ExcaliburWmiArgs {
            a0: WmiCommand::Write.spec_code(),
            a1: sub_cmd,
            a2: zone_or_param,
            a3: data,
            a4: 0,
            a5: 0,
            a6: 0,
            rev0: 0,
            rev1: 0,
        }
    }

    /// The read query buffer for a sub-command; every other field is zero.
    pub open spec fn spec_read_cmd(sub_cmd: u16) -> ExcaliburWmiArgs {
        ExcaliburWmiArgs {
            a0: WmiCommand::Read.spec_code(),
            a1: sub_cmd,
            a2: 0,
            a3: 0,
            a4: 0,
            a5: 0,
            a6: 0,
            rev0: 0,
            rev1: 0,
        }
    }

    /// Creates a write request buffer.
    pub fn write_cmd(sub_cmd: u16, zone_or_param: u32, data: u32) -> (args: Self)
        ensures
            args == Self::spec_write_cmd(sub_cmd, zone_or_param, data),
    {
        Self {
            a0: WmiCommand::Write.as_u16(),
            a1: sub_cmd,
            a2: zone_or_param,
            a3: data,
            a4: 0,
            a5: 0,
            a6: 0,
            rev0: 0,
            rev1: 0,
        }
    }

    /// Creates a read query request buffer.
    pub fn read_cmd(sub_cmd: u16) -> (args: Self)
        ensures
            args == Self::spec_read_cmd(sub_cmd),
    {
        Self {
            a0: WmiCommand::Read.as_u16(),
            a1: sub_cmd,
            a2: 0,
            a3: 0,
            a4: 0,
            a5: 0,
            a6: 0,
            rev0: 0,
            rev1: 0,
        }
    }
}

/// The firmware codes of the WMI commands: read 0xfa00, write 0xfb00,
/// hardware info 0x0200, LED 0x0100, power plan 0x0300; no two alike.
pub proof fn lemma_command_code_table(a: WmiCommand, b: WmiCommand)
    ensures
        WmiCommand::Read.spec_code() == 0xfa00,
        WmiCommand::Write.spec_code() == 0xfb00,
        WmiCommand::GetHardwareInfo.spec_code() == 0x0200,
        WmiCommand::SetLed.spec_code() == 0x0100,
        WmiCommand::PowerPlan.spec_code() == 0x0300,
        a.spec_code() == b.spec_code() ==> a == b,
{
}

} // verus!

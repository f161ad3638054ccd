//! The panel controller's command set: a closed, immutable mapping from a
//! named command to its one-byte opcode.
//!
//! Several entries carry no vendor documentation; they are calibration
//! commands this panel revision requires during initialization, issued with
//! fixed payloads whose values are load-bearing and must not change.

use vstd::prelude::*;

verus! {

/// A command recognized by the panel's controller.
#[derive(Clone, Copy, Debug, PartialEq, Eq, Structural)]
pub enum Command {
    /// Panel configuration register.
    PanelSetting,
    /// Switch the high-voltage generators off.
    PowerOff,
    /// Switch the high-voltage generators on.
    PowerOn,
    /// Enter deep sleep; only a hardware reset leaves it.
    DeepSleep,
    /// Begin streaming phase-1 ("old") frame data.
    DataStartTransmission1,
    /// Start a display refresh from the streamed data.
    DisplayRefresh,
    /// Begin streaming phase-2 ("new") frame data.
    DataStartTransmission2,
    /// Undocumented calibration command at opcode 0x4D.
    Internal4D,
    /// VCOM and data-interval configuration.
    VcomAndDataIntervalSetting,
    /// Timing-control (TCON) configuration.
    TconSetting,
    /// Panel resolution configuration.
    ResolutionSetting,
    /// Undocumented calibration command at opcode 0xAA.
    InternalAA,
    /// Undocumented calibration command at opcode 0xB6.
    InternalB6,
    /// Undocumented calibration command at opcode 0xE3.
    InternalE3,
    /// Undocumented calibration command at opcode 0xE9.
    InternalE9,
    /// Undocumented calibration command at opcode 0xF3.
    InternalF3,
    /// Set the RAM X-address window (start and end, in byte units).
    SetRamXAddressStartEndPosition,
    /// Set the RAM Y-address window (start and end, pixel-granular).
    SetRamYAddressStartEndPosition,
    /// Set the RAM X-address write counter (byte units).
    SetRamXAddressCounter,
    /// Set the RAM Y-address write counter (pixel-granular).
    SetRamYAddressCounter,
}

impl Command {
    /// The opcode byte of this command.
    pub open spec fn spec_address(self) -> u8 {
        match self {
            Command::PanelSetting => 0x00,
            Command::PowerOff => 0x02,
            Command::PowerOn => 0x04,
            Command::DeepSleep => 0x07,
            Command::DataStartTransmission1 => 0x10,
            Command::DisplayRefresh => 0x12,
            Command::DataStartTransmission2 => 0x13,
            Command::Internal4D => 0x4D,
            Command::VcomAndDataIntervalSetting => 0x50,
            Command::TconSetting => 0x60,
            Command::ResolutionSetting => 0x61,
            Command::InternalAA => 0xAA,
            Command::InternalB6 => 0xB6,
            Command::InternalE3 => 0xE3,
            Command::InternalE9 => 0xE9,
            Command::InternalF3 => 0xF3,
            Command::SetRamXAddressStartEndPosition => 0x44,
            Command::SetRamYAddressStartEndPosition => 0x45,
            Command::SetRamXAddressCounter => 0x4E,
            Command::SetRamYAddressCounter => 0x4F,
        }
    }

    /// Returns the opcode byte of this command.
    #[verifier::when_used_as_spec(spec_address)]
    pub fn address(self) -> (opcode: u8)
        ensures
            opcode == self.spec_address(),
    {
        match self {
            Command::PanelSetting => 0x00,
            Command::PowerOff => 0x02,
            Command::PowerOn => 0x04,
            Command::DeepSleep => 0x07,
            Command::DataStartTransmission1 => 0x10,
            Command::DisplayRefresh => 0x12,
            Command::DataStartTransmission2 => 0x13,
            Command::Internal4D => 0x4D,
            Command::VcomAndDataIntervalSetting => 0x50,
            Command::TconSetting => 0x60,
            Command::ResolutionSetting => 0x61,
            Command::InternalAA => 0xAA,
            Command::InternalB6 => 0xB6,
            Command::InternalE3 => 0xE3,
            Command::InternalE9 => 0xE9,
            Command::InternalF3 => 0xF3,
            Command::SetRamXAddressStartEndPosition => 0x44,
            Command::SetRamYAddressStartEndPosition => 0x45,
            Command::SetRamXAddressCounter => 0x4E,
            Command::SetRamYAddressCounter => 0x4F,
        }
    }
}

} // verus!

//! The bus-level vocabulary of the driver: everything the panel protocol can
//! ask of the hardware lines, as plain data.
//!
//! The driver does not touch pins itself.  It records a transcript of
//! [`BusAction`] values, in order, and an unverified shell replays them on the
//! physical bus.  Contracts speak about the transcript through [`TxSpec`], the
//! mathematical view of one action, in which a payload is a `Seq<u8>`.

use vstd::prelude::*;

verus! {

/// One step of bus activity, as the mathematical value used in contracts.
pub enum TxSpec {
    /// Pulse the hardware reset line: hold it low for `hold_us` microseconds,
    /// release it, then wait `recovery_us` microseconds.
    Reset { hold_us: u32, recovery_us: u32 },
    /// Transmit one opcode byte in command framing.
    Cmd { opcode: u8 },
    /// Transmit one opcode byte in command framing, then the payload bytes in
    /// data framing as one contiguous transmission.
    CmdWithData { opcode: u8, data: Seq<u8> },
    /// Transmit `count` copies of `value` in data framing.
    DataRepeated { value: u8, count: u32 },
    /// Block for `ms` milliseconds.
    DelayMs { ms: u32 },
    /// Poll the busy input line until it reports ready; `is_busy_low` gives
    /// the line's polarity (true when a low level means busy).
    WaitUntilIdle { is_busy_low: bool },
}

/// The payload bytes a transaction moves across the bus in data framing:
/// a command's payload, the expansion of a repeated byte, and nothing for
/// the other steps.
pub open spec fn data_bytes(tx: TxSpec) -> Seq<u8> {
    match tx {
        TxSpec::CmdWithData { opcode: _, data } => data,
        TxSpec::DataRepeated { value, count } => Seq::new(count as nat, |i: int| value),
        _ => Seq::empty(),
    }
}

/// One step of bus activity, as recorded by the driver for later replay.
#[derive(Debug, PartialEq, Eq)]
pub enum BusAction {
    /// Pulse the hardware reset line: hold it low for `hold_us` microseconds,
    /// release it, then wait `recovery_us` microseconds.
    Reset { hold_us: u32, recovery_us: u32 },
    /// Transmit one opcode byte in command framing.
    Cmd { opcode: u8 },
    /// Transmit one opcode byte in command framing, then the payload bytes in
    /// data framing as one contiguous transmission.
    CmdWithData { opcode: u8, data: Vec<u8> },
    /// Transmit `count` copies of `value` in data framing.
    DataRepeated { value: u8, count: u32 },
    /// Block for `ms` milliseconds.
    DelayMs { ms: u32 },
    /// Poll the busy input line until it reports ready; `is_busy_low` gives
    /// the line's polarity (true when a low level means busy).
    WaitUntilIdle { is_busy_low: bool },
}

impl View for BusAction {
    type V = TxSpec;

    open spec fn view(&self) -> TxSpec {
        match self {
            BusAction::Reset { hold_us, recovery_us } => (TxSpec::Reset {
                hold_us: *hold_us,
                recovery_us: *recovery_us,
            }),
            BusAction::Cmd { opcode } => (TxSpec::Cmd { opcode: *opcode }),
            BusAction::CmdWithData { opcode, data } => (TxSpec::CmdWithData {
                opcode: *opcode,
                data: data@,
            }),
            BusAction::DataRepeated { value, count } => (TxSpec::DataRepeated {
                value: *value,
                count: *count,
            }),
            BusAction::DelayMs { ms } => (TxSpec::DelayMs { ms: *ms }),
            BusAction::WaitUntilIdle { is_busy_low } => (TxSpec::WaitUntilIdle {
                is_busy_low: *is_busy_low,
            }),
        }
    }
}

} // verus!

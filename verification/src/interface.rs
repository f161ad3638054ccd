//! The transport layer of the driver: the primitive bus operations the panel
//! protocol is built from.
//!
//! [`DisplayInterface`] owns the transcript of pending bus activity.  Each
//! primitive appends exactly one [`BusAction`]; its contract states the new
//! transcript in full.  The layer is opcode-agnostic: it attaches no meaning
//! to any command byte.

use vstd::prelude::*;

use crate::bus::BusAction;
use crate::bus::TxSpec;

verus! {

/// The transport interface: records primitive bus operations, in order, for
/// replay on the physical lines by an unverified shell.
pub struct DisplayInterface {
    actions: Vec<BusAction>,
}

impl View for DisplayInterface {
    type V = Seq<TxSpec>;

    /// The transcript of recorded bus activity, oldest first.
    closed spec fn view(&self) -> Seq<TxSpec> {
        self.actions@.map_values(|a: BusAction| a@)
    }
}

impl DisplayInterface {
    /// Creates a transport with an empty transcript.
    pub fn new() -> (interface: DisplayInterface)
        ensures
            interface@ == Seq::<TxSpec>::empty(),
    {
        let interface = DisplayInterface { actions: Vec::new() };
        proof {
            assert(interface@ =~= Seq::<TxSpec>::empty());
        }
        interface
    }

    /// Records a hardware reset pulse: reset line low for `hold_us`
    /// microseconds, then high, then `recovery_us` microseconds of recovery.
    pub fn reset(&mut self, hold_us: u32, recovery_us: u32)
        ensures
            final(self)@ == old(self)@.push((TxSpec::Reset { hold_us, recovery_us })),
    {
        self.actions.push(BusAction::Reset { hold_us, recovery_us });
        proof {
            assert(self@ =~= old(self)@.push(TxSpec::Reset { hold_us, recovery_us }));
        }
    }

    /// Records the transmission of one opcode byte in command framing.
    pub fn cmd(&mut self, opcode: u8)
        ensures
            final(self)@ == old(self)@.push((TxSpec::Cmd { opcode })),
    {
        self.actions.push(BusAction::Cmd { opcode });
        proof {
            assert(self@ =~= old(self)@.push(TxSpec::Cmd { opcode }));
        }
    }

    /// Records one opcode byte in command framing followed by the payload in
    /// data framing, as the panel's controller requires: the command byte is
    /// framed separately from the payload.
    pub fn cmd_with_data(&mut self, opcode: u8, data: Vec<u8>)
        ensures
            final(self)@ == old(self)@.push((TxSpec::CmdWithData { opcode, data: data@ })),
    {
        let ghost payload = data@;
        self.actions.push(BusAction::CmdWithData { opcode, data });
        proof {
            assert(self@ =~= old(self)@.push(TxSpec::CmdWithData { opcode, data: payload }));
        }
    }

    /// Records the transmission of `count` copies of `value` in data framing;
    /// a count of zero is a no-op on the wire but is still recorded.
    pub fn data_x_times(&mut self, value: u8, count: u32)
        ensures
            final(self)@ == old(self)@.push((TxSpec::DataRepeated { value, count })),
    {
        self.actions.push(BusAction::DataRepeated { value, count });
        proof {
            assert(self@ =~= old(self)@.push(TxSpec::DataRepeated { value, count }));
        }
    }

    /// Records a blocking delay of `ms` milliseconds.
    pub fn delay_ms(&mut self, ms: u32)
        ensures
            final(self)@ == old(self)@.push((TxSpec::DelayMs { ms })),
    {
        self.actions.push(BusAction::DelayMs { ms });
        proof {
            assert(self@ =~= old(self)@.push(TxSpec::DelayMs { ms }));
        }
    }

    /// Records a busy-line wait: block until the busy input reaches its ready
    /// level, `is_busy_low` giving the polarity.
    pub fn wait_until_idle(&mut self, is_busy_low: bool)
        ensures
            final(self)@ == old(self)@.push((TxSpec::WaitUntilIdle { is_busy_low })),
    {
        self.actions.push(BusAction::WaitUntilIdle { is_busy_low });
        proof {
            assert(self@ =~= old(self)@.push(TxSpec::WaitUntilIdle { is_busy_low }));
        }
    }

    /// Hands the recorded transcript out for replay and leaves the transport
    /// with an empty one.
    pub fn take_actions(&mut self) -> (actions: Vec<BusAction>)
        ensures
            actions@.map_values(|a: BusAction| a@) == old(self)@,
            final(self)@ == Seq::<TxSpec>::empty(),
    {
        let mut taken: Vec<BusAction> = Vec::new();
        core::mem::swap(&mut taken, &mut self.actions);
        proof {
            assert(self@ =~= Seq::<TxSpec>::empty());
        }
        taken
    }
}

} // verus!

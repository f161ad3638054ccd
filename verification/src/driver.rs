//! The panel driver for the 200 x 200 monochrome e-paper display: power-on
//! initialization, addressable-window configuration, full and partial frame
//! updates, display refresh, clearing, and sleep/wake.
//!
//! Every operation appends a precisely specified sequence of bus transactions
//! to the transport's transcript; the `seq_*` spec functions below state those
//! sequences in full, and each operation's contract says exactly which one it
//! emits.  An unverified shell replays the transcript on the physical lines.

use vstd::prelude::*;

use crate::bus::BusAction;
use crate::bus::TxSpec;
use crate::color::Color;
use crate::command::Command;
use crate::interface::DisplayInterface;

verus! {

/// Width of the panel in pixels.
pub const WIDTH: u32 = 200;

/// Height of the panel in pixels.
pub const HEIGHT: u32 = 200;

/// Background color a freshly constructed driver starts with.
pub const DEFAULT_BACKGROUND_COLOR: Color = Color::White;

/// The busy line's polarity for this panel family: a low level means busy.
pub const IS_BUSY_LOW: bool = true;

/// Bytes in one full frame: WIDTH / 8 bytes per row, HEIGHT rows.
pub const FULL_FRAME_BYTES: u32 = 5000;

/// Microseconds the reset line is held low.
pub const RESET_HOLD_US: u32 = 10_000;

/// Microseconds of recovery after the reset line is released.
pub const RESET_RECOVERY_US: u32 = 10_000;

/// Milliseconds of settling after power-on, before the busy wait.
pub const POWER_ON_SETTLE_MS: u32 = 100;

/// Milliseconds of settling right after a display-refresh command.
pub const REFRESH_SETTLE_MS: u32 = 10;

/// Milliseconds of discharge settling during the sleep procedure.
pub const DISCHARGE_SETTLE_MS: u32 = 1000;

/// Waveform-table selector, accepted for interface parity with panel variants
/// that support downloadable lookup tables.  This panel revision uses only
/// its internal tables, so the selector has no effect here.
#[derive(Clone, Copy, Debug, PartialEq, Eq, Structural)]
pub enum RefreshLut {
    /// Full refresh waveform.
    Full,
    /// Quick (partial) refresh waveform.
    Quick,
}

/// The mathematical state of the driver: the transcript of bus activity it
/// has emitted so far, and its current background color.
pub struct DriverModel {
    /// Bus transcript, oldest first.
    pub log: Seq<TxSpec>,
    /// Current background color, used as the phase-1 flood value.
    pub background: Color,
}

/// The model state after setting the background color: same transcript, new
/// color.
pub open spec fn with_background(model: DriverModel, color: Color) -> DriverModel {
    DriverModel { log: model.log, background: color }
}

/// The X coordinate as the hardware takes it: in byte units, the low three
/// bits discarded (8-pixel granularity).
pub open spec fn x_address_byte(x: u32) -> u8 {
    (x >> 3) as u8
}

/// The low byte of a Y coordinate's little-endian split.
pub open spec fn y_low_byte(y: u32) -> u8 {
    y as u8
}

/// The high byte of a Y coordinate's little-endian split; the panel keeps
/// 9-bit Y addresses, so only its lowest bit can be set for valid input.
pub open spec fn y_high_byte(y: u32) -> u8 {
    (y >> 8) as u8
}

/// The busy-line wait this panel uses everywhere.
pub open spec fn tx_wait() -> TxSpec {
    TxSpec::WaitUntilIdle { is_busy_low: IS_BUSY_LOW }
}

/// Transactions that set the addressable window to
/// [start_x, end_x] x [start_y, end_y]: a busy wait, then the X window in
/// byte units, then the Y window as little-endian 9-bit splits.
pub open spec fn seq_ram_area(start_x: u32, start_y: u32, end_x: u32, end_y: u32) -> Seq<
    TxSpec,
> {
    seq![
        tx_wait(),
        (TxSpec::CmdWithData {
            opcode: Command::SetRamXAddressStartEndPosition.address(),
            data: seq![x_address_byte(start_x), x_address_byte(end_x)],
        }),
        (TxSpec::CmdWithData {
            opcode: Command::SetRamYAddressStartEndPosition.address(),
            data: seq![
                y_low_byte(start_y),
                y_high_byte(start_y),
                y_low_byte(end_y),
                y_high_byte(end_y),
            ],
        }),
    ]
}

/// Transactions that set the RAM write counter to (x, y): a busy wait, then
/// the X counter in byte units, then the Y counter as a little-endian 9-bit
/// split.
pub open spec fn seq_ram_counter(x: u32, y: u32) -> Seq<TxSpec> {
    seq![
        tx_wait(),
        (TxSpec::CmdWithData {
            opcode: Command::SetRamXAddressCounter.address(),
            data: seq![x_address_byte(x)],
        }),
        (TxSpec::CmdWithData {
            opcode: Command::SetRamYAddressCounter.address(),
            data: seq![y_low_byte(y), y_high_byte(y)],
        }),
    ]
}

/// Transactions that select the whole panel as the addressable window and
/// put the write counter at the origin.
pub open spec fn seq_full_window() -> Seq<TxSpec> {
    seq_ram_area(0, 0, (WIDTH - 1) as u32, (HEIGHT - 1) as u32) + seq_ram_counter(0, 0)
}

/// The power-on initialization sequence: hardware reset, panel setting, the
/// fixed calibration commands this revision requires, resolution, TCON and
/// VCOM settings, one more calibration command, then power-on followed by a
/// settle delay and a busy wait.  The payload values are load-bearing
/// calibration constants and must be reproduced exactly.
pub open spec fn seq_init() -> Seq<TxSpec> {
    seq![
        (TxSpec::Reset { hold_us: RESET_HOLD_US, recovery_us: RESET_RECOVERY_US }),
        (TxSpec::CmdWithData {
            opcode: Command::PanelSetting.address(),
            data: seq![0xDF, 0x0E],
        }),
        (TxSpec::CmdWithData { opcode: Command::Internal4D.address(), data: seq![0x55] }),
        (TxSpec::CmdWithData { opcode: Command::InternalAA.address(), data: seq![0x0F] }),
        (TxSpec::CmdWithData { opcode: Command::InternalE9.address(), data: seq![0x02] }),
        (TxSpec::CmdWithData { opcode: Command::InternalB6.address(), data: seq![0x11] }),
        (TxSpec::CmdWithData { opcode: Command::InternalF3.address(), data: seq![0x0A] }),
        (TxSpec::CmdWithData {
            opcode: Command::ResolutionSetting.address(),
            data: seq![0xC8, 0x00, 0xC8],
        }),
        (TxSpec::CmdWithData { opcode: Command::TconSetting.address(), data: seq![0x00] }),
        (TxSpec::CmdWithData {
            opcode: Command::VcomAndDataIntervalSetting.address(),
            data: seq![0x97],
        }),
        (TxSpec::CmdWithData { opcode: Command::InternalE3.address(), data: seq![0x00] }),
        (TxSpec::Cmd { opcode: Command::PowerOn.address() }),
        (TxSpec::DelayMs { ms: POWER_ON_SETTLE_MS }),
        tx_wait(),
    ]
}

/// The sleep sequence: power off, busy wait, discharge delay, then deep
/// sleep with its fixed payload byte.
pub open spec fn seq_sleep() -> Seq<TxSpec> {
    seq![
        (TxSpec::Cmd { opcode: Command::PowerOff.address() }),
        tx_wait(),
        (TxSpec::DelayMs { ms: DISCHARGE_SETTLE_MS }),
        (TxSpec::CmdWithData { opcode: Command::DeepSleep.address(), data: seq![0xA5] }),
    ]
}

/// The display-refresh sequence: a busy wait, the refresh command, a short
/// settle delay that the panel requires electrically, and a busy wait for
/// refresh completion.
pub open spec fn seq_display_frame() -> Seq<TxSpec> {
    seq![
        tx_wait(),
        (TxSpec::Cmd { opcode: Command::DisplayRefresh.address() }),
        (TxSpec::DelayMs { ms: REFRESH_SETTLE_MS }),
        tx_wait(),
    ]
}

/// The full-frame update sequence: select the whole panel and reset the
/// write counter, busy wait, flood phase 1 with the background color's byte
/// for the whole frame, then stream the caller's buffer verbatim as phase 2.
pub open spec fn seq_update_frame(background: Color, frame: Seq<u8>) -> Seq<TxSpec> {
    seq_full_window() + seq![
        tx_wait(),
        (TxSpec::Cmd { opcode: Command::DataStartTransmission1.address() }),
        (TxSpec::DataRepeated {
            value: background.spec_byte_value(),
            count: FULL_FRAME_BYTES,
        }),
        (TxSpec::CmdWithData {
            opcode: Command::DataStartTransmission2.address(),
            data: frame,
        }),
    ]
}

/// The partial-frame update sequence: busy wait, window and counter set to
/// the region, phase-1 flood with the background color's byte sized
/// width / 8 x height, then the caller's buffer verbatim as phase 2.
pub open spec fn seq_update_partial_frame(
    background: Color,
    frame: Seq<u8>,
    x: u32,
    y: u32,
    width: u32,
    height: u32,
) -> Seq<TxSpec> {
    seq![tx_wait()] + seq_ram_area(x, y, (x + width) as u32, (y + height) as u32)
        + seq_ram_counter(x, y) + seq![
        (TxSpec::Cmd { opcode: Command::DataStartTransmission1.address() }),
        (TxSpec::DataRepeated {
            value: background.spec_byte_value(),
            count: (width / 8 * height) as u32,
        }),
        (TxSpec::CmdWithData {
            opcode: Command::DataStartTransmission2.address(),
            data: frame,
        }),
    ]
}

/// The clear sequence, mirroring the vendor's cleaning procedure: busy wait,
/// full window, phase 1 flooded with the fixed sentinel 0x00, phase 2 flooded
/// with the background color's byte, then a display refresh.
pub open spec fn seq_clear_frame(background: Color) -> Seq<TxSpec> {
    seq![tx_wait()] + seq_full_window() + seq![
        (TxSpec::Cmd { opcode: Command::DataStartTransmission1.address() }),
        (TxSpec::DataRepeated { value: 0x00, count: FULL_FRAME_BYTES }),
        (TxSpec::Cmd { opcode: Command::DataStartTransmission2.address() }),
        (TxSpec::DataRepeated {
            value: background.spec_byte_value(),
            count: FULL_FRAME_BYTES,
        }),
    ] + seq_display_frame()
}

/// Driver for the 1.54 inch, 200 x 200 monochrome e-paper panel.
pub struct Epd1in54 {
    /// Connection interface.
    interface: DisplayInterface,
    /// Background color.
    color: Color,
}

impl View for Epd1in54 {
    type V = DriverModel;

    /// The driver's mathematical state: its bus transcript and background
    /// color.
    closed spec fn view(&self) -> DriverModel {
        DriverModel { log: self.interface@, background: self.color }
    }
}

impl Epd1in54 {
    /// Creates a driver and runs the power-on initialization, leaving the
    /// initialization sequence as the whole transcript and the default
    /// background color set.
    pub fn new() -> (epd: Epd1in54)
        ensures
            epd@.log == seq_init(),
            epd@.background == DEFAULT_BACKGROUND_COLOR,
    {
        let mut epd = Epd1in54 {
            interface: DisplayInterface::new(),
            color: DEFAULT_BACKGROUND_COLOR,
        };
        epd.init();
        proof {
            assert(epd@.log =~= seq_init());
        }
        epd
    }

    /// Emits the power-on initialization sequence.  Must run once before any
    /// other operation and again after waking from sleep.
    pub fn init(&mut self)
        ensures
            final(self)@.log == old(self)@.log + seq_init(),
            final(self)@.background == old(self)@.background,
    {
        self.interface.reset(RESET_HOLD_US, RESET_RECOVERY_US);
        self.interface.cmd_with_data(Command::PanelSetting.address(), payload2(0xDF, 0x0E));
        self.interface.cmd_with_data(Command::Internal4D.address(), payload1(0x55));
        self.interface.cmd_with_data(Command::InternalAA.address(), payload1(0x0F));
        self.interface.cmd_with_data(Command::InternalE9.address(), payload1(0x02));
        self.interface.cmd_with_data(Command::InternalB6.address(), payload1(0x11));
        self.interface.cmd_with_data(Command::InternalF3.address(), payload1(0x0A));
        self.interface.cmd_with_data(
            Command::ResolutionSetting.address(),
            payload3(0xC8, 0x00, 0xC8),
        );
        self.interface.cmd_with_data(Command::TconSetting.address(), payload1(0x00));
        self.interface.cmd_with_data(
            Command::VcomAndDataIntervalSetting.address(),
            payload1(0x97),
        );
        self.interface.cmd_with_data(Command::InternalE3.address(), payload1(0x00));
        self.interface.cmd(Command::PowerOn.address());
        self.interface.delay_ms(POWER_ON_SETTLE_MS);
        self.interface.wait_until_idle(IS_BUSY_LOW);
        proof {
            assert(self@.log =~= old(self)@.log + seq_init());
        }
    }

    /// Emits the sleep sequence.  After it, only `wake_up` (or a fresh
    /// initialization) is a valid next operation.
    pub fn sleep(&mut self)
        ensures
            final(self)@.log == old(self)@.log + seq_sleep(),
            final(self)@.background == old(self)@.background,
    {
        self.interface.cmd(Command::PowerOff.address());
        self.interface.wait_until_idle(IS_BUSY_LOW);
        self.interface.delay_ms(DISCHARGE_SETTLE_MS);
        self.interface.cmd_with_data(Command::DeepSleep.address(), payload1(0xA5));
        proof {
            assert(self@.log =~= old(self)@.log + seq_sleep());
        }
    }

    /// Wakes the panel from sleep by re-running the exact power-on
    /// initialization sequence.
    pub fn wake_up(&mut self)
        ensures
            final(self)@.log == old(self)@.log + seq_init(),
            final(self)@.background == old(self)@.background,
    {
        self.init();
    }

    /// Sets the background color.  Pure state: the transcript is untouched,
    /// so no bus activity results.
    pub fn set_background_color(&mut self, color: Color)
        ensures
            final(self)@ == with_background(old(self)@, color),
    {
        self.color = color;
    }

    /// The current background color.
    pub fn background_color(&self) -> (color: &Color)
        ensures
            *color == self@.background,
    {
        &self.color
    }

    /// The panel's width in pixels.
    pub fn width(&self) -> (w: u32)
        ensures
            w == WIDTH,
    {
        WIDTH
    }

    /// The panel's height in pixels.
    pub fn height(&self) -> (h: u32)
        ensures
            h == HEIGHT,
    {
        HEIGHT
    }

    /// Streams a full frame into panel RAM: whole-panel window, busy wait,
    /// phase-1 flood of the background color (the assumed prior frame
    /// content), then the buffer verbatim as phase 2.  The buffer holds one
    /// bit per pixel, row-major, most significant bit first.
    pub fn update_frame(&mut self, buffer: &[u8])
        requires
            buffer@.len() == FULL_FRAME_BYTES,
        ensures
            final(self)@.log == old(self)@.log + seq_update_frame(
                old(self)@.background,
                buffer@,
            ),
            final(self)@.background == old(self)@.background,
    {
        self.use_full_frame();
        self.wait_until_idle();
        self.interface.cmd(Command::DataStartTransmission1.address());
        let value = self.color.get_byte_value();
        self.interface.data_x_times(value, WIDTH / 8 * HEIGHT);
        self.interface.cmd_with_data(
            Command::DataStartTransmission2.address(),
            vstd::slice::slice_to_vec(buffer),
        );
        proof {
            assert(self@.log =~= old(self)@.log + seq_update_frame(
                old(self)@.background,
                buffer@,
            ));
        }
    }

    /// Streams a frame for the region [x, x + width) x [y, y + height): busy
    /// wait, window and counter set to the region, phase-1 flood of the
    /// background color sized width / 8 x height, then the buffer verbatim
    /// as phase 2.  The region must lie inside the panel and be non-empty,
    /// and the buffer's length must match the region.
    pub fn update_partial_frame(&mut self, buffer: &[u8], x: u32, y: u32, width: u32, height: u32)
        requires
            0 < width,
            0 < height,
            x + width <= WIDTH,
            y + height <= HEIGHT,
            buffer@.len() == ((width + 7) / 8) * height,
        ensures
            final(self)@.log == old(self)@.log + seq_update_partial_frame(
                old(self)@.background,
                buffer@,
                x,
                y,
                width,
                height,
            ),
            final(self)@.background == old(self)@.background,
    {
        self.wait_until_idle();
        self.set_ram_area(x, y, x + width, y + height);
        self.set_ram_counter(x, y);
        self.interface.cmd(Command::DataStartTransmission1.address());
        let value = self.color.get_byte_value();
        let row_bytes = width / 8;
        proof {
            assert(row_bytes * height <= 5000) by (nonlinear_arith)
                requires
                    row_bytes <= 25,
                    height <= 200,
            ;
        }
        self.interface.data_x_times(value, row_bytes * height);
        self.interface.cmd_with_data(
            Command::DataStartTransmission2.address(),
            vstd::slice::slice_to_vec(buffer),
        );
        proof {
            assert(self@.log =~= old(self)@.log + seq_update_partial_frame(
                old(self)@.background,
                buffer@,
                x,
                y,
                width,
                height,
            ));
        }
    }

    /// Refreshes the display from the streamed data: busy wait, the refresh
    /// command, a short settle delay, and a busy wait for completion.
    pub fn display_frame(&mut self)
        ensures
            final(self)@.log == old(self)@.log + seq_display_frame(),
            final(self)@.background == old(self)@.background,
    {
        self.wait_until_idle();
        self.interface.cmd(Command::DisplayRefresh.address());
        self.interface.delay_ms(REFRESH_SETTLE_MS);
        self.interface.wait_until_idle(IS_BUSY_LOW);
        proof {
            assert(self@.log =~= old(self)@.log + seq_display_frame());
        }
    }

    /// Streams a full frame and refreshes the display: the composition of
    /// `update_frame` and `display_frame`, as a convenience.
    pub fn update_and_display_frame(&mut self, buffer: &[u8])
        requires
            buffer@.len() == FULL_FRAME_BYTES,
        ensures
            final(self)@.log == old(self)@.log + seq_update_frame(
                old(self)@.background,
                buffer@,
            ) + seq_display_frame(),
            final(self)@.background == old(self)@.background,
    {
        self.update_frame(buffer);
        self.display_frame();
        proof {
            assert(self@.log =~= old(self)@.log + seq_update_frame(
                old(self)@.background,
                buffer@,
            ) + seq_display_frame());
        }
    }

    /// Clears the panel with the vendor's cleaning procedure: phase 1
    /// flooded with the fixed sentinel 0x00, phase 2 flooded with the
    /// background color's byte, then a display refresh.
    pub fn clear_frame(&mut self)
        ensures
            final(self)@.log == old(self)@.log + seq_clear_frame(old(self)@.background),
            final(self)@.background == old(self)@.background,
    {
        self.wait_until_idle();
        self.use_full_frame();
        self.interface.cmd(Command::DataStartTransmission1.address());
        self.interface.data_x_times(0x00, WIDTH / 8 * HEIGHT);
        self.interface.cmd(Command::DataStartTransmission2.address());
        let value = self.color.get_byte_value();
        self.interface.data_x_times(value, WIDTH / 8 * HEIGHT);
        self.display_frame();
        proof {
            assert(self@.log =~= old(self)@.log + seq_clear_frame(old(self)@.background));
        }
    }

    /// Accepts a waveform-table selection for interface parity with other
    /// panel variants.  This revision's controller only uses its internal
    /// tables, so nothing is emitted and nothing changes.
    pub fn set_lut(&mut self, _refresh_rate: Option<RefreshLut>)
        ensures
            final(self)@ == old(self)@,
    {
    }

    /// Emits one busy-line wait with this panel's polarity.
    pub fn wait_until_idle(&mut self)
        ensures
            final(self)@.log == old(self)@.log.push(tx_wait()),
            final(self)@.background == old(self)@.background,
    {
        self.interface.wait_until_idle(IS_BUSY_LOW);
    }

    /// Selects the whole panel as the addressable window and puts the write
    /// counter at the origin.
    pub fn use_full_frame(&mut self)
        ensures
            final(self)@.log == old(self)@.log + seq_full_window(),
            final(self)@.background == old(self)@.background,
    {
        self.set_ram_area(0, 0, WIDTH - 1, HEIGHT - 1);
        self.set_ram_counter(0, 0);
        proof {
            assert(self@.log =~= old(self)@.log + seq_full_window());
        }
    }

    /// Programs the addressable window to
    /// [start_x, end_x] x [start_y, end_y] after a busy wait, X in byte
    /// units, Y as little-endian 9-bit splits.  The window invariant
    /// start < end on both axes is a precondition: a violating call is a
    /// caller defect and is ruled out at verification time, so no
    /// transaction can ever be emitted for one.  The bounds keep the
    /// coordinates inside the hardware's address range.
    pub fn set_ram_area(&mut self, start_x: u32, start_y: u32, end_x: u32, end_y: u32)
        requires
            start_x < end_x,
            start_y < end_y,
            end_x <= 2047,
            end_y <= 511,
        ensures
            final(self)@.log == old(self)@.log + seq_ram_area(start_x, start_y, end_x, end_y),
            final(self)@.background == old(self)@.background,
    {
        self.wait_until_idle();
        proof {
            assert(start_x >> 3 <= 255 && end_x >> 3 <= 255) by (bit_vector)
                requires
                    start_x <= 2047,
                    end_x <= 2047,
            ;
            assert(start_y >> 8 <= 1 && end_y >> 8 <= 1) by (bit_vector)
                requires
                    start_y <= 511,
                    end_y <= 511,
            ;
        }
        self.interface.cmd_with_data(
            Command::SetRamXAddressStartEndPosition.address(),
            payload2((start_x >> 3) as u8, (end_x >> 3) as u8),
        );
        self.interface.cmd_with_data(
            Command::SetRamYAddressStartEndPosition.address(),
            payload4(
                #[verifier::truncate] (start_y as u8),
                (start_y >> 8) as u8,
                #[verifier::truncate] (end_y as u8),
                (end_y >> 8) as u8,
            ),
        );
        proof {
            assert(self@.log =~= old(self)@.log + seq_ram_area(start_x, start_y, end_x, end_y));
        }
    }

    /// Programs the RAM write counter to (x, y) after a busy wait, with the
    /// same byte/pixel granularity encoding as the window.
    pub fn set_ram_counter(&mut self, x: u32, y: u32)
        requires
            x <= 2047,
            y <= 511,
        ensures
            final(self)@.log == old(self)@.log + seq_ram_counter(x, y),
            final(self)@.background == old(self)@.background,
    {
        self.wait_until_idle();
        proof {
            assert(x >> 3 <= 255) by (bit_vector)
                requires
                    x <= 2047,
            ;
            assert(y >> 8 <= 1) by (bit_vector)
                requires
                    y <= 511,
            ;
        }
        self.interface.cmd_with_data(
            Command::SetRamXAddressCounter.address(),
            payload1((x >> 3) as u8),
        );
        self.interface.cmd_with_data(
            Command::SetRamYAddressCounter.address(),
            payload2(#[verifier::truncate] (y as u8), (y >> 8) as u8),
        );
        proof {
            assert(self@.log =~= old(self)@.log + seq_ram_counter(x, y));
        }
    }

    /// Hands the recorded transcript out for replay on the hardware and
    /// leaves the driver with an empty one.
    pub fn take_actions(&mut self) -> (actions: Vec<BusAction>)
        ensures
            actions@.map_values(|a: BusAction| a@) == old(self)@.log,
            final(self)@.log == Seq::<TxSpec>::empty(),
            final(self)@.background == old(self)@.background,
    {
        self.interface.take_actions()
    }
}

/// Law: setting the background color is idempotent on the driver's state;
/// in particular a second set with the same value adds no bus activity,
/// because no set adds any.
pub proof fn lemma_set_background_color_idempotent(model: DriverModel, color: Color)
    ensures
        with_background(with_background(model, color), color) == with_background(model, color),
        with_background(model, color).log == model.log,
{
}

/// Law: a full-frame update carries exactly FULL_FRAME_BYTES flood bytes of
/// the background color as its phase-1 data, followed by exactly the
/// caller's bytes as its phase-2 data, in that order, whatever the buffer
/// holds.
pub proof fn lemma_update_frame_phases(background: Color, frame: Seq<u8>)
    ensures
        seq_update_frame(background, frame).len() == 10,
        crate::bus::data_bytes(seq_update_frame(background, frame)[8]) == Seq::new(
            FULL_FRAME_BYTES as nat,
            |i: int| background.spec_byte_value(),
        ),
        crate::bus::data_bytes(seq_update_frame(background, frame)[9]) == frame,
{
    assert(seq_update_frame(background, frame)[8] == (TxSpec::DataRepeated {
        value: background.spec_byte_value(),
        count: FULL_FRAME_BYTES,
    }));
    assert(seq_update_frame(background, frame)[9] == (TxSpec::CmdWithData {
        opcode: Command::DataStartTransmission2.address(),
        data: frame,
    }));
}

/// Law: within the hardware's addressable range the X encoding is exactly
/// the byte index x >> 3 of the coordinate, nothing truncated.
pub proof fn lemma_x_address_byte_exact(x: u32)
    requires
        x <= 2047,
    ensures
        x_address_byte(x) == x >> 3,
{
    assert((x >> 3) as u8 == x >> 3) by (bit_vector)
        requires
            x <= 2047,
    ;
}

/// Law: within the panel's 9-bit Y range the two transmitted Y bytes are the
/// little-endian split of the coordinate: low byte y % 256, high byte
/// y / 256, and together they recombine to y.
pub proof fn lemma_y_split_exact(y: u32)
    requires
        y <= 511,
    ensures
        y_low_byte(y) == y % 256,
        y_high_byte(y) == y / 256,
        y_low_byte(y) + 256 * (y_high_byte(y) as u32) == y,
{
    assert(y as u8 == y % 256) by (bit_vector)
        requires
            y <= 511,
    ;
    assert((y >> 8) as u8 == y / 256) by (bit_vector)
        requires
            y <= 511,
    ;
    assert((y as u8) as u32 + 256 * (((y >> 8) as u8) as u32) == y) by (bit_vector)
        requires
            y <= 511,
    ;
}

/// Builds a one-byte payload.
fn payload1(b0: u8) -> (payload: Vec<u8>)
    ensures
        payload@ == seq![b0],
{
    let mut payload: Vec<u8> = Vec::new();
    payload.push(b0);
    proof {
        assert(payload@ =~= seq![b0]);
    }
    payload
}

/// Builds a two-byte payload.
fn payload2(b0: u8, b1: u8) -> (payload: Vec<u8>)
    ensures
        payload@ == seq![b0, b1],
{
    let mut payload: Vec<u8> = Vec::new();
    payload.push(b0);
    payload.push(b1);
    proof {
        assert(payload@ =~= seq![b0, b1]);
    }
    payload
}

/// Builds a three-byte payload.
fn payload3(b0: u8, b1: u8, b2: u8) -> (payload: Vec<u8>)
    ensures
        payload@ == seq![b0, b1, b2],
{
    let mut payload: Vec<u8> = Vec::new();
    payload.push(b0);
    payload.push(b1);
    payload.push(b2);
    proof {
        assert(payload@ =~= seq![b0, b1, b2]);
    }
    payload
}

/// Builds a four-byte payload.
fn payload4(b0: u8, b1: u8, b2: u8, b3: u8) -> (payload: Vec<u8>)
    ensures
        payload@ == seq![b0, b1, b2, b3],
{
    let mut payload: Vec<u8> = Vec::new();
    payload.push(b0);
    payload.push(b1);
    payload.push(b2);
    payload.push(b3);
    proof {
        assert(payload@ =~= seq![b0, b1, b2, b3]);
    }
    payload
}

} // verus!

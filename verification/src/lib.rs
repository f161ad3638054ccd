//! Driver core for a 200 x 200 monochrome e-paper panel (GDEW0154M09 class)
//! that is commanded over a 4-wire SPI-like bus.
//!
//! The crate turns semantic operations ("update these pixels", "refresh the
//! display", "go to sleep") into the exact ordered sequence of bus
//! transactions, delays and busy-line waits that the panel's controller
//! requires.  Every operation of the driver is verified: its contract states
//! the precise transaction sequence it appends to the recorded transcript.
//! Replaying the transcript on real hardware lines is left to a thin
//! unverified shell around this crate.

pub mod bus;
pub mod color;
pub mod command;
pub mod driver;
pub mod interface;

pub use bus::BusAction;
pub use color::Color;
pub use command::Command;
pub use driver::Epd1in54;
pub use driver::RefreshLut;
pub use interface::DisplayInterface;

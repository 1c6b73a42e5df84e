//! Transport layer for HD44780-family character displays.
//!
//! A transport turns the request "send this byte, as a command or as data"
//! into the exact sequence of line changes, holds and bus writes that its
//! wiring needs. Nothing here touches hardware: a transport hands out a
//! [`Transfer`], and whoever owns the pins performs it signal by signal and
//! reports how each one went.

pub mod bus;
pub mod error;
pub mod signal;
pub mod transfer;
pub mod wire;

pub use bus::DataBus;
pub use bus::eightbit::{EightBitBus, EightBitBusPins};
pub use bus::fourbit::{FourBitBus, FourBitBusPins};
pub use bus::i2c::I2CBus;
pub use error::{Error, Port};
pub use signal::{Frame, Signal, ENABLE_HOLD_MS};
pub use transfer::{Pending, Step, Transfer};

//! A driver core for the AHT20 humidity and temperature sensor.
//!
//! The sensor hangs on a two-wire bus and is driven by a handful of
//! fixed commands. This crate holds everything about that protocol that
//! can be decided without touching the bus: the flags of the status byte,
//! the layout and checksum of the data frame, the two reading types, and
//! the sequencing of commands, polls and delays. Every function is
//! verified against its contract; the one exception is the call into
//! `crc_all` in [`checksum`], whose result is named and taken on trust.
//!
//! The crate performs no I/O of its own. [`Aht20`] names the next bus or
//! timer [`Action`]; the caller carries it out and reports the outcome as
//! an [`Event`].

pub mod checksum;
pub mod error;
pub mod frame;
pub mod protocol;
pub mod reading;
pub mod status;
pub mod trace;

pub use error::Error;
pub use protocol::{Aht20, Action, Command, Event, Sequel, State, Step, Task};
pub use reading::{Humidity, Temperature};
pub use status::StatusFlags;

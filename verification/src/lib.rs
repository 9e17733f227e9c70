//! Driver core for SX1276/77/78/79 ("LoRa") packet radio transceivers.
//!
//! The driver performs no input or output itself. Every operation is a
//! conversation: the driver hands out one action at a time (a level on a
//! control line, a frame to put on the bus, a pause), the caller carries it
//! out against the hardware and reports what happened as an event, and the
//! driver answers with the next action until the operation is done.

pub mod bits;
pub mod bus;
pub mod config;
pub mod laws;
pub mod machine;
pub mod mode;
pub mod payload;
pub mod register;
pub mod rfm96w;
pub mod script;

pub use crate::bus::{Action, Error, Event, Frame, Outcome};
pub use crate::mode::RadioMode;
pub use crate::rfm96w::{Bringup, LoRa, Progress};

//! Control logic of a three-burner induction cooktop.
//!
//! The cooktop is a set of boards on a CAN bus, steered by three rotary
//! dials and answering with seven LEDs. This crate decides; it performs no
//! input or output. What it wants done on the bus, on the clock or on the
//! panel it returns as a value, and what came of it is handed back to it.

pub mod burner;
pub mod controller;
pub mod dispatch;
pub mod exchange;
pub mod heartbeat;
pub mod i2c;
pub mod iox;
pub mod leds;
pub mod message;
pub mod pan;
pub mod readings;
pub mod script;
pub mod time;

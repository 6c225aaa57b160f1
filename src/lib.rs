//! Register-level driver for the WSEN-TIDS digital temperature sensor.
//!
//! The sensor is reached through any transport implementing [`bus::Bus`];
//! every operation is one or two single-byte transactions, and its contract
//! states exactly which transactions it issues and what it returns.
use vstd::prelude::*;

pub mod bus;
pub mod control;
pub mod registers;
pub mod sensor;
pub mod temperature;

pub use bus::{Bus, BusError, Record, SimulatedBus, Transfer};
pub use control::{Mode, Speed};
pub use registers::AddressSelect;
pub use sensor::Sensor;
pub use temperature::{compose_temperature, temperature_to_reg_value};


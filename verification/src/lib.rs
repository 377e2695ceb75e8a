//! Decision core of a battery-powered oven temperature monitor.
//!
//! The monitor samples a thermocouple-derived voltage, infers the oven's
//! operating phase (off / heating / at-temperature / cooling), and drives a
//! small segment or pixel display only while the reading is informative, to
//! conserve battery energy.  This crate holds the verified logic: the
//! hysteresis state machine, the battery-voltage percentage table, the two
//! display-buffer protocols, the temperature formatter and the controller
//! decisions.  Bus transactions, delays and ADC sampling are left to the
//! surrounding program, which exchanges plain integer values with this crate.
//!
//! Temperatures are carried as fixed-point integers in hundredths of a degree
//! Fahrenheit; voltages as integer millivolts.

pub mod battery;
pub mod controller;
pub mod font;
pub mod formatter;
pub mod ht16k33;
pub mod oventemp;
pub mod ssd1306;

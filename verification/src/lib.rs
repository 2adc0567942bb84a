//! Device-protocol layer and thermal control logic for a small board-monitor:
//! an AHT20 humidity/temperature sensor, an EMC2101 fan controller, ADC
//! channel scaling, and the duty-cycle control loop that ties them together.
//!
//! The two drivers talk to their peripherals over I2C through a small trusted
//! boundary (`bus`); everything the drivers decide or compute from the bytes
//! on the bus is verified.

mod bus;
mod seqs;

pub mod adc;
pub mod aht20;
pub mod control;
pub mod cpu;
pub mod emc2101;

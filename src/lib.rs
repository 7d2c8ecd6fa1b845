//! Drivers for a barometric pressure/temperature sensor and an absolute
//! orientation sensor on an I2C bus.
//!
//! The crate holds the sensor logic that does not touch the bus: the
//! calibration model, the fixed-point conversion of raw readings into
//! physical units, the timing and command bytes of a measurement, the
//! moving average of pressure samples, and the register layout of both
//! chips. Bus transfers and waiting are left to the caller.
pub mod averaging;
pub mod bno055;
pub mod calibration;
pub mod conversion;
pub mod measurement;

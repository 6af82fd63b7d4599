//! Sensor drivers for an I3G4250D gyroscope on a SPI bus and an LSM303AGR
//! accelerometer/magnetometer on an I2C bus.
//!
//! Each driver is a state machine with a single in-flight operation. Starting
//! an operation hands the bus transfer to perform back to the caller, which
//! owns the transport; the transport's completion is fed back into the driver,
//! which decodes the response and says what to deliver to the registered
//! clients.
pub mod codec;
pub mod components;
pub mod driver;
pub mod i3g4250d;
pub mod lsm303agr;

//! Register-level driver for the IIS3DWB three-axis accelerometer on an SPI bus.

pub mod access;
pub mod device;
pub mod fifos;
pub mod interrupts;
pub mod register;
pub mod vector;
pub mod wakeups;

pub use accelerometer::vector::I16x3;
pub use device::{Action, Config, DeviceError, Pending, Reading, IIS3DWB};
pub use register::{DataRate, Mode, Range, Register};

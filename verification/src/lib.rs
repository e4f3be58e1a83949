//! Driver for the ADXL343 three-axis accelerometer: its register map, its
//! data-format register, the two bus transports and the driver that ties
//! them together.

pub mod bus;
pub mod data_format;
pub mod driver;
pub mod i2c;
pub mod register;
pub mod spi;
pub mod transport;

pub use crate::bus::{ChipSelect, I2cBus, SpiBus};
pub use crate::data_format::{DataFormatFlags, DataFormatRange};
pub use crate::driver::{Adxl343, Error, I16x3, U16x3, DEVICE_ID, SAMPLE_RATE_HZ};
pub use crate::i2c::{I2cTransport, ADDRESS};
pub use crate::register::Register;
pub use crate::spi::SpiTransport;
pub use crate::transport::{RegisterLink, Transport, TransportError};

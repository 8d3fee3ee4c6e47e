//! Driver core for the ST LPS22 family of barometric pressure sensors.
//!
//! The sensor sits on an I2C bus. This crate holds everything about it that
//! can be decided without touching the bus: the register map, the bytes of
//! each bus transaction, the order of the transactions that make up one
//! measurement, and the decoding of the raw output registers. The caller
//! owns the loop that performs each transaction on a real bus and hands the
//! outcome back to the driver.

pub mod address;
pub mod bus;
pub mod decode;
pub mod driver;
pub mod register;

pub use address::I2cAddress;
pub use bus::{Outcome, Transaction};
pub use decode::{decode_pressure, decode_temperature, Measurement};
pub use driver::{Action, Lps22, Phase};
pub use register::{Lps22ReadRegister, Lps22ReadWriteRegister, ReadRegister, WriteRegister};

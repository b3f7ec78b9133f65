//! Register and error definitions of the SPI variant of the driver.

pub mod error;
pub mod register;

//! General-purpose I/O buses.

pub mod i2c;
pub mod spi;

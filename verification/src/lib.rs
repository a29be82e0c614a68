//! Verified core of the Flipper Zero SDK: kernel time arithmetic, Bluetooth
//! advertisement packets, log levels, input events, file options and I2C transaction
//! framing.

pub mod bluetooth;
pub mod dialogs;
pub mod dolphin;
pub mod filesystem;
pub mod furi;
pub mod gpio;
pub mod gui;
pub mod input;

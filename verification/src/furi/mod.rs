//! Furi, the Flipper Zero's core runtime.

pub mod event_flag;
pub mod kernel;
pub mod log;
pub mod rng;
pub mod status;
pub mod string;
pub mod thread;
pub mod time;

pub use status::{Error, Result};

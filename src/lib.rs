//! A character device that keeps one bounded message: callers write a message
//! (starting a new one or appending to it) and read it back.

pub mod buffer;
pub mod device;
pub mod error;
pub mod laws;

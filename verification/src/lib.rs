//! A character-output primitive for a bare-metal UART.
//!
//! The crate decides which byte stores a transmit register receives, and in
//! which order. [`uart`] holds the device model and the byte emitter;
//! [`printer`] layers text output on top of it; [`laws`] states what relates
//! the entry points to one another.

pub mod laws;
pub mod printer;
pub mod uart;

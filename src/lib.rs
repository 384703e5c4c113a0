//! Interrupt-driven driver logic for a hardware AES-128 engine in ECB mode.
pub mod block;
pub mod driver;
pub mod laws;
pub mod protocol;

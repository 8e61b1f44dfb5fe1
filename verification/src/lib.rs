//! Interrupt-driven PS/2 keyboard input: the controller protocol, the
//! scancode decoder, the key buffer and the interrupt-time drain, written as
//! a protocol engine that never touches a port itself.

pub mod buffer;
pub mod decoder;
pub mod driver;
pub mod driver_laws;
pub mod interrupt;
pub mod interrupt_laws;
pub mod mounts;
pub mod protocol;
pub mod status;

//! Core of a display driver that talks to an ST7789-class controller over a
//! bit-serial bus generated by a small programmable sequencing engine.
//!
//! The crate holds the protocol logic: compiling the two-instruction
//! sequencing program, framing controller commands with the chip-select and
//! data/command-select lines, the fixed initialization sequence, and the
//! framebuffer stream. Each driver operation returns the exact sequence of
//! bus effects ([`action::Action`]) to perform; the hardware itself (pins,
//! the engine's transmit queue, the countdown timer) is driven by the
//! unverified binary around this crate, which interprets those effects one
//! by one.

pub mod action;
pub mod driver;
pub mod laws;
pub mod program;

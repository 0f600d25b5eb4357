//! An interpreter for the CHIP-8 virtual machine: machine state, instruction
//! decoding, the instruction semantics and the sprite compositor, each with
//! a machine-checked contract.
//!
//! Conventions the whole engine keeps:
//! - every memory address (`pc`, `I + k`) is taken modulo 4096, and `pc`
//!   advances modulo 4096;
//! - `I` itself is 16 bits and wraps modulo 65536 under `FX1E`;
//! - the call stack holds 16 return addresses; a 17th call is a fault;
//! - sprites are clipped at the right and bottom edges, never wrapped;
//! - the engine never blocks: `FX0A` puts the machine in a waiting state
//!   that `CPU::press_key` ends, and the display, the keyboard, the 60 Hz
//!   clock and the random byte for `CXNN` are supplied by the caller
//!   (`CPU::step` draws the byte itself).
//!
//! `semantics` states what every instruction does over the `Machine` view;
//! `ops` and `cpu` implement it, and `laws` proves properties across
//! instructions and steps.
pub mod cpu;
pub mod decode;
pub mod font;
pub mod graphics;
pub mod laws;
pub mod semantics;

pub use cpu::ops;

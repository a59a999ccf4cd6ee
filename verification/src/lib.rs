//! A verified simulator core for a small 16-bit instruction set with eight
//! general registers, a flat 65536-word memory, a memory-mapped keyboard
//! device and a trap-based system-call interface.
//!
//! The crate holds the pure machine: decoding, instruction semantics and the
//! trap dispatch. Host concerns (reading an image from disk, terminal modes,
//! blocking keyboard reads) stay outside; the core takes their results as
//! plain values.

pub mod isa;
pub mod memory;
pub mod registers;
pub mod vm;

//! A minimal hardware abstraction layer for a small RISC-V class
//! microcontroller: memory-mapped register primitives, exclusively owned
//! peripheral blocks, typestate GPIO pins, a UART driver with a
//! non-blocking error model, a millisecond delay timer, and interrupt
//! enable controls.
//!
//! The chip's register file is modeled by [`mem::Mem`], a flat array of
//! words owned by the caller; exclusive access to the hardware is the
//! exclusive borrow of that value. A test harness (or, in firmware, the
//! hardware itself) plays the device's side by storing into the words the
//! drivers read.

pub mod error;
pub mod gpio;
pub mod intc;
pub mod mem;
pub mod pac;
pub mod reg;
pub mod serial;
pub mod time;
pub mod timer;

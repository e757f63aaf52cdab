//! Core of a minimal bare-metal kernel, modelled as verified state machines:
//! a text-mode console driver with line wrap and scrolling, and the interrupt
//! dispatch subsystem (vector table, chained interrupt-controller pair, and
//! the exception/interrupt handlers).

pub mod interrupts;
pub mod vga_buffer;

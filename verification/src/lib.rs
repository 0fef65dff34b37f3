//! Exception/interrupt core of a small single-core x86 kernel, modelled and
//! verified over plain data.
//!
//! The hardware-facing edges (port reads and writes, the actual CPU table
//! load, memory-mapped frame buffers) live outside this library; everything
//! here is the decision logic those edges consult: the trap vector table and
//! its installation order, the chained interrupt-controller state with its
//! offset and acknowledgement rules, the scancode decoder, and the text
//! writer's layout rules.

pub mod bga;
pub mod boot;
pub mod idt;
pub mod keyboard;
pub mod pic;
pub mod vga;

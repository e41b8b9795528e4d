//! Protection and interrupt bring-up for a single-core x86 kernel: the flat
//! segment descriptor table, the 256-entry trap gate table with vector-level
//! handler registration, the cascaded interrupt controller pair with
//! line-level routing, and the boot orchestrator that sequences them.
//!
//! Privileged instructions (table loads, `sti`/`cli`/`hlt`) and raw port
//! access live behind the [`ports::PortIo`] interface; the architecture layer
//! supplies the real implementation, while this crate holds the logic that
//! decides what is written, in what order, and which callback runs.

pub mod cpu;
pub mod gdt;
pub mod idt;
pub mod pic;
pub mod handler;
pub mod ports;

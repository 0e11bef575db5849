//! Interrupt dispatch for a single-core x86-64 kernel: gate descriptors, the
//! 256-entry descriptor table, register-preserving entry trampolines and the
//! per-vector handler bodies, each with a machine-checked contract.
//!
//! The library computes and decides; it touches no hardware. Its caller loads
//! the table register, reads ports, calls the interrupt controller and the
//! keyboard, and executes the instructions that open the interrupt gate.

pub mod bytes;
pub mod descriptor;
pub mod handlers;
pub mod registers;
pub mod report;
pub mod system;
pub mod table;
pub mod trampoline;

pub use descriptor::IdtEntry;
pub use handlers::interrupt_handler;
pub use system::enable;
pub use system::install;
pub use table::Idt;
pub use table::IdtPointer;

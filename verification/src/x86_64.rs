//! Control structures and instruction sequences of the x86_64 architecture.

pub mod gdt;
pub mod idt;
pub mod instruction;
pub mod layout;
pub mod register;
pub mod serial;
pub mod startup;
pub mod tss;

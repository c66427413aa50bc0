//! The privileged operations that the table components ask for.
//!
//! Nothing here touches the processor. A load sequence is a list of
//! `Instruction` values in the order in which they must be issued; whoever
//! owns the hardware issues them one by one.

use vstd::prelude::*;

use super::gdt;
use super::idt;

verus! {

/// One privileged operation, with its operands.
#[derive(Clone, Copy, PartialEq, Eq, Structural, Debug)]
pub enum Instruction {
    /// `cli`: mask maskable interrupts.
    Cli,
    /// `sti`: unmask maskable interrupts.
    Sti,
    /// `hlt`: suspend until the next interrupt.
    Hlt,
    /// `in al, dx`: read one byte from a port.
    Inb(u16),
    /// `out dx, al`: write one byte to a port.
    Outb(u16, u8),
    /// `int3`: raise the breakpoint exception.
    Int3,
    /// `lgdt`: install a global descriptor table.
    Lgdt(gdt::Register),
    /// `lidt`: install an interrupt descriptor table.
    Lidt(idt::Register),
    /// `ltr`: load the task register.
    Ltr(gdt::Selector),
    /// Reload `CS` through a far return to the next instruction.
    SetCs(gdt::Selector),
    /// `mov ds, reg`.
    SetDs(gdt::Selector),
    /// `mov es, reg`.
    SetEs(gdt::Selector),
    /// `mov fs, reg`.
    SetFs(gdt::Selector),
    /// `mov gs, reg`.
    SetGs(gdt::Selector),
    /// `mov ss, reg`.
    SetSs(gdt::Selector),
}

} // verus!

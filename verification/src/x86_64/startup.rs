//! The order in which the tables go into the processor.
//!
//! Each stage rests on the one before it. The descriptor of the task state
//! segment lies in the global descriptor table, so the task register can be
//! loaded only once that table is installed; every interrupt descriptor
//! names a code segment of that table, and interrupts stay masked until the
//! interrupt descriptor table is in place.

use vstd::prelude::*;

use super::gdt;
use super::idt;
use super::instruction::Instruction;
use super::tss::Segment;

verus! {

/// The operations that install `global` at `global_base`, make the task
/// state segment active, and install an interrupt descriptor table at
/// `interrupt_base`.
pub open spec fn startup_sequence(
    global: gdt::Table,
    global_base: u64,
    interrupt_base: u64,
) -> Seq<Instruction> {
    global.load_sequence(global_base) + seq![Instruction::Ltr(global@.selectors[5])]
        + idt::Table::load_sequence(interrupt_base)
}

/// Lists, in the order in which they must be issued, the operations that
/// bring the processor from the boot loader's tables to `global` and
/// `interrupt`.
///
/// Interrupts are masked first and unmasked only after `lidt`. The task
/// register is loaded after `lgdt` and before `lidt`, with the selector of
/// the task state descriptor. The breakpoint exception that ends the
/// sequence finds a present descriptor on its vector.
pub fn sequence(
    global: &gdt::Table,
    global_base: u64,
    interrupt: &idt::Table,
    interrupt_base: u64,
) -> (sequence: Vec<Instruction>)
    ensures
        global.well_formed(),
        interrupt.well_formed(),
        sequence@ == startup_sequence(*global, global_base, interrupt_base),
        sequence@.len() == 12,
        sequence@[0] == Instruction::Cli,
        sequence@[1] == Instruction::Lgdt(gdt::Register { limit: 55, base: global_base }),
        sequence@[8] == Instruction::Ltr(gdt::Selector(0x0028)),
        sequence@[9] == Instruction::Lidt(idt::Register { limit: 4095, base: interrupt_base }),
        sequence@[10] == Instruction::Sti,
        sequence@[11] == Instruction::Int3,
        forall|i: int| 0 < i < 12 && i != 10 ==> sequence@[i] != Instruction::Sti,
        interrupt@[3].present(),
{
    let mut sequence = global.load(global_base);
    sequence.push(Segment::load(global.selector(5)));
    let mut rest = interrupt.load(interrupt_base);
    sequence.append(&mut rest);
    proof {
        gdt::lemma_layout(global@.task_state_base());
        assert(sequence@ =~= startup_sequence(*global, global_base, interrupt_base));
    }
    sequence
}

} // verus!

//! Task state segment: the stack pointers that the processor switches to on
//! a privilege change or on an interrupt that names a dedicated stack.

use vstd::prelude::*;

use super::gdt;
use super::instruction::Instruction;
use super::layout::{le_bytes, push_le};

verus! {

/// Number of privilege-level stack pointers.
pub const PRIVILEGE_STACKS: usize = 3;

/// Number of interrupt stack table slots.
pub const INTERRUPT_STACKS: usize = 7;

/// Size in bytes of the segment as the processor reads it: a reserved
/// doubleword, three stack pointers, a reserved quadword, seven stack
/// pointers, a reserved quadword, a reserved word and the I/O map base.
pub const SIZE: usize = 4 + 3 * 8 + 8 + 7 * 8 + 8 + 2 + 2;

/// The task state segment.
pub struct Segment {
    reserved_1: u32,
    privilege_stack_table: [u64; 3],
    reserved_2: u64,
    interrupt_stack_table: [u64; 7],
    reserved_3: u64,
    reserved_4: u16,
    io_map_base: u16,
}

/// What a segment holds, apart from its reserved fields.
pub ghost struct SegmentView {
    pub privilege_stacks: Seq<u64>,
    pub interrupt_stacks: Seq<u64>,
    pub io_map_base: u16,
}

impl SegmentView {
    /// The segment as the processor reads it from memory: the reserved
    /// doubleword, the three privilege-level stack pointers, a reserved
    /// quadword, the seven interrupt stack pointers, a reserved quadword, a
    /// reserved word and the I/O map base, with no padding between them.
    pub open spec fn bytes(self) -> Seq<u8> {
        le_bytes(0, 4) + le_bytes(self.privilege_stacks[0], 8) + le_bytes(
            self.privilege_stacks[1],
            8,
        ) + le_bytes(self.privilege_stacks[2], 8) + le_bytes(0, 8) + le_bytes(
            self.interrupt_stacks[0],
            8,
        ) + le_bytes(self.interrupt_stacks[1], 8) + le_bytes(self.interrupt_stacks[2], 8)
            + le_bytes(self.interrupt_stacks[3], 8) + le_bytes(self.interrupt_stacks[4], 8)
            + le_bytes(self.interrupt_stacks[5], 8) + le_bytes(self.interrupt_stacks[6], 8)
            + le_bytes(0, 8) + le_bytes(0, 2) + le_bytes(self.io_map_base as u64, 2)
    }
}

impl View for Segment {
    type V = SegmentView;

    closed spec fn view(&self) -> SegmentView {
        SegmentView {
            privilege_stacks: self.privilege_stack_table@,
            interrupt_stacks: self.interrupt_stack_table@,
            io_map_base: self.io_map_base,
        }
    }
}

impl Segment {
    /// The reserved fields are zero, and the I/O map base is the size of
    /// the segment.
    pub closed spec fn well_formed(&self) -> bool {
        &&& self.reserved_1 == 0
        &&& self.reserved_2 == 0
        &&& self.reserved_3 == 0
        &&& self.reserved_4 == 0
        &&& self.io_map_base == SIZE
    }

    #[verifier::type_invariant]
    spec fn reserved_clear(&self) -> bool {
        self.well_formed()
    }

    /// The segment as `new` builds it: every stack pointer zero, and the I/O
    /// map base at the end of the segment, which tells the processor that
    /// there is no I/O permission bitmap.
    pub open spec fn initial() -> SegmentView {
        SegmentView {
            privilege_stacks: Seq::new(PRIVILEGE_STACKS as nat, |i: int| 0u64),
            interrupt_stacks: Seq::new(INTERRUPT_STACKS as nat, |i: int| 0u64),
            io_map_base: SIZE as u16,
        }
    }

    /// Builds a segment with no stacks and no I/O permission bitmap.
    #[must_use]
    pub fn new() -> (segment: Self)
        ensures
            segment.well_formed(),
            segment@ == Self::initial(),
            segment@.io_map_base == SIZE,
            segment@.io_map_base == 0x68,
    {
        let segment = Self {
            reserved_1: 0,
            privilege_stack_table: [0; 3],
            reserved_2: 0,
            interrupt_stack_table: [0; 7],
            reserved_3: 0,
            reserved_4: 0,
            io_map_base: SIZE as u16,
        };
        assert(segment@.privilege_stacks =~= Self::initial().privilege_stacks);
        assert(segment@.interrupt_stacks =~= Self::initial().interrupt_stacks);
        segment
    }

    /// Offset from the start of the segment at which the I/O permission
    /// bitmap would begin.
    pub fn io_map_base(&self) -> (base: u16)
        ensures
            self.well_formed(),
            base == self@.io_map_base,
            base == SIZE,
    {
        proof {
            use_type_invariant(self);
        }
        self.io_map_base
    }

    /// The stack pointer for privilege level `level`.
    pub fn privilege_stack(&self, level: usize) -> (pointer: u64)
        requires
            level < PRIVILEGE_STACKS,
        ensures
            self@.privilege_stacks.len() == PRIVILEGE_STACKS,
            pointer == self@.privilege_stacks[level as int],
    {
        self.privilege_stack_table[level]
    }

    /// The stack pointer in slot `slot` of the interrupt stack table. Slot 0
    /// here is the one that a gate names as 1.
    pub fn interrupt_stack(&self, slot: usize) -> (pointer: u64)
        requires
            slot < INTERRUPT_STACKS,
        ensures
            self@.interrupt_stacks.len() == INTERRUPT_STACKS,
            pointer == self@.interrupt_stacks[slot as int],
    {
        self.interrupt_stack_table[slot]
    }

    /// Lays the segment out as the processor reads it. The I/O map base
    /// lands in the last two of the `SIZE` bytes.
    pub fn bytes(&self) -> (bytes: Vec<u8>)
        ensures
            self.well_formed(),
            bytes@ == self@.bytes(),
            bytes@.len() == SIZE,
    {
        proof {
            use_type_invariant(self);
        }
        let mut bytes: Vec<u8> = Vec::new();
        push_le(&mut bytes, self.reserved_1 as u64, 4);
        push_le(&mut bytes, self.privilege_stack_table[0], 8);
        push_le(&mut bytes, self.privilege_stack_table[1], 8);
        push_le(&mut bytes, self.privilege_stack_table[2], 8);
        push_le(&mut bytes, self.reserved_2, 8);
        push_le(&mut bytes, self.interrupt_stack_table[0], 8);
        push_le(&mut bytes, self.interrupt_stack_table[1], 8);
        push_le(&mut bytes, self.interrupt_stack_table[2], 8);
        push_le(&mut bytes, self.interrupt_stack_table[3], 8);
        push_le(&mut bytes, self.interrupt_stack_table[4], 8);
        push_le(&mut bytes, self.interrupt_stack_table[5], 8);
        push_le(&mut bytes, self.interrupt_stack_table[6], 8);
        push_le(&mut bytes, self.reserved_3, 8);
        push_le(&mut bytes, self.reserved_4 as u64, 2);
        push_le(&mut bytes, self.io_map_base as u64, 2);
        assert(bytes@ =~= self@.bytes());
        bytes
    }

    /// The operation that makes the segment addressed by `selector` the
    /// active one. The table that holds its descriptor must be installed
    /// first.
    pub fn load(selector: gdt::Selector) -> (instruction: Instruction)
        ensures
            instruction == Instruction::Ltr(selector),
    {
        Instruction::Ltr(selector)
    }
}

impl Default for Segment {
    fn default() -> (segment: Self)
        ensures
            segment.well_formed(),
            segment@ == Self::initial(),
    {
        Self::new()
    }
}

} // verus!

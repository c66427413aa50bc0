//! Interrupt descriptor table: gate descriptors, through which the processor
//! enters an exception handler, and the table of all 256 of them.

use vstd::prelude::*;

use super::gdt::Selector;
use super::instruction::Instruction;
use super::layout::{le_bytes, push_le};

verus! {

/// Number of vectors, and so of gates in the table.
pub const VECTORS: usize = 256;

/// Size in bytes of one gate.
pub const DESCRIPTOR_SIZE: usize = 16;

/// Entry point of a handler that takes the interrupt frame alone and
/// returns to the interrupted code.
#[derive(Clone, Copy, PartialEq, Eq, Structural, Debug)]
pub struct Handler(pub u64);

/// Entry point of a handler that takes the interrupt frame alone and never
/// returns.
#[derive(Clone, Copy, PartialEq, Eq, Structural, Debug)]
pub struct HaltHandler(pub u64);

/// Entry point of a handler that takes the interrupt frame and an error
/// code, and returns to the interrupted code.
#[derive(Clone, Copy, PartialEq, Eq, Structural, Debug)]
pub struct ErrorHandler(pub u64);

/// Entry point of a handler that takes the interrupt frame and an error
/// code, and never returns.
#[derive(Clone, Copy, PartialEq, Eq, Structural, Debug)]
pub struct HaltErrorHandler(pub u64);

/// The kind of a gate.
#[derive(Clone, Copy, PartialEq, Eq, Structural, Debug)]
pub enum Gate {
    /// An unused slot: a gate type without the present bit, so that the
    /// processor faults instead of jumping.
    Null,
    /// Entered with interrupts masked.
    Interrupt,
    /// Entered with the interrupt flag left as it was.
    Trap,
}

impl Gate {
    /// The type and attributes byte of a gate of this kind.
    pub open spec fn spec_bits(self) -> u8 {
        match self {
            Gate::Null => 0x0E,
            Gate::Interrupt => 0x8E,
            Gate::Trap => 0x8F,
        }
    }

    /// The kind that a type and attributes byte stands for, if any.
    pub open spec fn spec_from_bits(bits: u8) -> Option<Gate> {
        if bits == 0x0E {
            Some(Gate::Null)
        } else if bits == 0x8E {
            Some(Gate::Interrupt)
        } else if bits == 0x8F {
            Some(Gate::Trap)
        } else {
            None
        }
    }

    /// The type and attributes byte of a gate of this kind.
    #[verifier::when_used_as_spec(spec_bits)]
    pub fn bits(self) -> (bits: u8)
        ensures
            bits == self.spec_bits(),
            Self::spec_from_bits(bits) == Some(self),
    {
        match self {
            Gate::Null => 0x0E,
            Gate::Interrupt => 0x8E,
            Gate::Trap => 0x8F,
        }
    }

    /// Reads a type and attributes byte back.
    #[verifier::when_used_as_spec(spec_from_bits)]
    pub fn from_bits(bits: u8) -> (gate: Option<Gate>)
        ensures
            gate == Self::spec_from_bits(bits),
            gate is Some <==> bits == 0x0E || bits == 0x8E || bits == 0x8F,
            gate is Some ==> gate->0.spec_bits() == bits,
    {
        if bits == 0x0E {
            Some(Gate::Null)
        } else if bits == 0x8E {
            Some(Gate::Interrupt)
        } else if bits == 0x8F {
            Some(Gate::Trap)
        } else {
            None
        }
    }
}

/// The pointer that `lidt` reads: the table's size in bytes less one, and
/// the linear address of its first gate.
#[derive(Clone, Copy, PartialEq, Eq, Structural, Debug)]
pub struct Register {
    pub limit: u16,
    pub base: u64,
}

impl Register {
    /// The ten bytes that `lidt` reads: the limit, directly followed by the
    /// base.
    pub open spec fn spec_bytes(self) -> Seq<u8> {
        le_bytes(self.limit as u64, 2) + le_bytes(self.base, 8)
    }

    /// Lays the pointer out as `lidt` reads it.
    pub fn bytes(&self) -> (bytes: Vec<u8>)
        ensures
            bytes@ == self.spec_bytes(),
            bytes@.len() == 10,
    {
        let mut bytes: Vec<u8> = Vec::new();
        push_le(&mut bytes, self.limit as u64, 2);
        push_le(&mut bytes, self.base, 8);
        assert(bytes@ =~= self.spec_bytes());
        bytes
    }
}

/// Bits 0..16 of a handler address.
pub open spec fn offset_low(address: u64) -> u16 {
    (address & 0xFFFF) as u16
}

/// Bits 16..32 of a handler address.
pub open spec fn offset_middle(address: u64) -> u16 {
    ((address >> 16) & 0xFFFF) as u16
}

/// Bits 32..64 of a handler address.
pub open spec fn offset_high(address: u64) -> u32 {
    (address >> 32) as u32
}

/// The address whose three parts are `low`, `middle` and `high`.
pub open spec fn offset_join(low: u16, middle: u16, high: u32) -> u64 {
    low as u64 | (middle as u64) << 16 | (high as u64) << 32
}

/// Splitting an address into its three parts and joining them gives the
/// address back, whatever its upper bits are.
pub proof fn lemma_offset_round_trip(address: u64)
    ensures
        offset_join(offset_low(address), offset_middle(address), offset_high(address)) == address,
{
    assert(offset_join(offset_low(address), offset_middle(address), offset_high(address))
        == address) by (bit_vector);
}

/// Joining three parts and splitting the address gives the parts back.
pub proof fn lemma_offset_parts(low: u16, middle: u16, high: u32)
    ensures
        offset_low(offset_join(low, middle, high)) == low,
        offset_middle(offset_join(low, middle, high)) == middle,
        offset_high(offset_join(low, middle, high)) == high,
{
    assert(offset_low(offset_join(low, middle, high)) == low) by (bit_vector);
    assert(offset_middle(offset_join(low, middle, high)) == middle) by (bit_vector);
    assert(offset_high(offset_join(low, middle, high)) == high) by (bit_vector);
}

/// One sixteen-byte gate.
#[derive(Clone, Copy)]
pub struct Descriptor {
    offset_low: u16,
    selector: Selector,
    interrupt_stack_table: u8,
    type_attributes: u8,
    offset_middle: u16,
    offset_high: u32,
    reserved: u32,
}

/// The fields of a gate.
pub ghost struct DescriptorView {
    pub offset_low: u16,
    pub selector: Selector,
    pub interrupt_stack_table: u8,
    pub type_attributes: u8,
    pub offset_middle: u16,
    pub offset_high: u32,
    pub reserved: u32,
}

impl DescriptorView {
    /// A descriptor of kind `gate` that enters the handler at `address` through
    /// the code segment `selector`, on the stack that `interrupt_stack_table`
    /// names (0 for the current one).
    pub open spec fn gate(
        address: u64,
        selector: Selector,
        interrupt_stack_table: u8,
        gate: Gate,
    ) -> DescriptorView {
        DescriptorView {
            offset_low: offset_low(address),
            selector,
            interrupt_stack_table,
            type_attributes: gate.spec_bits(),
            offset_middle: offset_middle(address),
            offset_high: offset_high(address),
            reserved: 0,
        }
    }

    /// The descriptor of an unused vector: everything zero but its type.
    pub open spec fn null() -> DescriptorView {
        DescriptorView {
            offset_low: 0,
            selector: Selector(0),
            interrupt_stack_table: 0,
            type_attributes: Gate::Null.spec_bits(),
            offset_middle: 0,
            offset_high: 0,
            reserved: 0,
        }
    }

    /// The handler address that the descriptor carries.
    pub open spec fn offset(self) -> u64 {
        offset_join(self.offset_low, self.offset_middle, self.offset_high)
    }

    /// Present bit of the type and attributes byte.
    pub open spec fn present(self) -> bool {
        self.type_attributes & 0x80 != 0
    }

    /// The sixteen bytes of the descriptor as the processor reads them: the
    /// low offset word, the selector, the stack table index, the type and
    /// attributes byte, the middle offset word, the high offset doubleword
    /// and the reserved doubleword, each directly after the other.
    pub open spec fn bytes(self) -> Seq<u8> {
        le_bytes(self.offset_low as u64, 2) + le_bytes(self.selector.0 as u64, 2) + le_bytes(
            self.interrupt_stack_table as u64,
            1,
        ) + le_bytes(self.type_attributes as u64, 1) + le_bytes(self.offset_middle as u64, 2)
            + le_bytes(self.offset_high as u64, 4) + le_bytes(self.reserved as u64, 4)
    }
}

impl View for Descriptor {
    type V = DescriptorView;

    closed spec fn view(&self) -> DescriptorView {
        DescriptorView {
            offset_low: self.offset_low,
            selector: self.selector,
            interrupt_stack_table: self.interrupt_stack_table,
            type_attributes: self.type_attributes,
            offset_middle: self.offset_middle,
            offset_high: self.offset_high,
            reserved: self.reserved,
        }
    }
}

impl Default for Descriptor {
    /// The descriptor of an unused vector.
    fn default() -> (descriptor: Self)
        ensures
            descriptor@ == DescriptorView::null(),
            !descriptor@.present(),
            descriptor@.offset() == 0,
    {
        proof {
            lemma_gate_present();
            assert(offset_join(0, 0, 0) == 0) by (bit_vector);
        }
        Self {
            offset_low: 0,
            selector: Selector(0),
            interrupt_stack_table: 0,
            type_attributes: Gate::Null.bits(),
            offset_middle: 0,
            offset_high: 0,
            reserved: 0,
        }
    }
}

/// A gate is present exactly when its kind is not `Null`.
pub proof fn lemma_gate_present()
    ensures
        Gate::Null.spec_bits() & 0x80 == 0,
        Gate::Interrupt.spec_bits() & 0x80 != 0,
        Gate::Trap.spec_bits() & 0x80 != 0,
{
    assert(0x0Eu8 & 0x80 == 0) by (bit_vector);
    assert(0x8Eu8 & 0x80 != 0) by (bit_vector);
    assert(0x8Fu8 & 0x80 != 0) by (bit_vector);
}

impl Descriptor {
    /// The reserved doubleword is zero.
    pub open spec fn well_formed(&self) -> bool {
        self@.reserved == 0
    }

    #[verifier::type_invariant]
    spec fn reserved_clear(&self) -> bool {
        self.well_formed()
    }

    /// A descriptor that leads to the entry point at `address`.
    fn with_offset(
        address: u64,
        selector: Selector,
        interrupt_stack_table: u8,
        gate: Gate,
    ) -> (descriptor: Self)
        ensures
            descriptor@ == DescriptorView::gate(address, selector, interrupt_stack_table, gate),
            descriptor@.offset() == address,
            descriptor@.present() <==> gate != Gate::Null,
    {
        proof {
            lemma_offset_round_trip(address);
            lemma_gate_present();
        }
        Self {
            offset_low: (address & 0xFFFF) as u16,
            selector,
            interrupt_stack_table,
            type_attributes: gate.bits(),
            offset_middle: ((address >> 16) & 0xFFFF) as u16,
            offset_high: (address >> 32) as u32,
            reserved: 0,
        }
    }

    /// A gate for a handler that takes no error code and returns.
    #[must_use]
    pub fn new(
        handler: Handler,
        selector: Selector,
        interrupt_stack_table: u8,
        gate: Gate,
    ) -> (descriptor: Self)
        ensures
            descriptor@ == DescriptorView::gate(handler.0, selector, interrupt_stack_table, gate),
            descriptor@.offset() == handler.0,
            descriptor@.present() <==> gate != Gate::Null,
    {
        Self::with_offset(handler.0, selector, interrupt_stack_table, gate)
    }

    /// A gate for a handler that takes no error code and never returns.
    pub fn new_with_halt(
        handler: HaltHandler,
        selector: Selector,
        interrupt_stack_table: u8,
        gate: Gate,
    ) -> (descriptor: Self)
        ensures
            descriptor@ == DescriptorView::gate(handler.0, selector, interrupt_stack_table, gate),
            descriptor@.offset() == handler.0,
            descriptor@.present() <==> gate != Gate::Null,
    {
        Self::with_offset(handler.0, selector, interrupt_stack_table, gate)
    }

    /// A gate for a handler that takes an error code and returns.
    #[must_use]
    pub fn new_with_error(
        handler: ErrorHandler,
        selector: Selector,
        interrupt_stack_table: u8,
        gate: Gate,
    ) -> (descriptor: Self)
        ensures
            descriptor@ == DescriptorView::gate(handler.0, selector, interrupt_stack_table, gate),
            descriptor@.offset() == handler.0,
            descriptor@.present() <==> gate != Gate::Null,
    {
        Self::with_offset(handler.0, selector, interrupt_stack_table, gate)
    }

    /// A gate for a handler that takes an error code and never returns.
    pub fn new_with_halt_error(
        handler: HaltErrorHandler,
        selector: Selector,
        interrupt_stack_table: u8,
        gate: Gate,
    ) -> (descriptor: Self)
        ensures
            descriptor@ == DescriptorView::gate(handler.0, selector, interrupt_stack_table, gate),
            descriptor@.offset() == handler.0,
            descriptor@.present() <==> gate != Gate::Null,
    {
        Self::with_offset(handler.0, selector, interrupt_stack_table, gate)
    }

    /// The handler address, put together from its three parts.
    pub fn offset(&self) -> (address: u64)
        ensures
            address == self@.offset(),
    {
        (self.offset_low as u64) | ((self.offset_middle as u64) << 16) | ((self.offset_high as u64)
            << 32)
    }

    /// The code segment selector through which the handler is entered.
    pub fn selector(&self) -> (selector: Selector)
        ensures
            selector == self@.selector,
    {
        self.selector
    }

    /// The interrupt stack table index: 0 for the current stack, 1 to 7 for
    /// a dedicated one.
    pub fn interrupt_stack_table(&self) -> (index: u8)
        ensures
            index == self@.interrupt_stack_table,
    {
        self.interrupt_stack_table
    }

    /// The type and attributes byte.
    pub fn type_attributes(&self) -> (bits: u8)
        ensures
            bits == self@.type_attributes,
    {
        self.type_attributes
    }

    /// The kind of this descriptor, if the type and attributes byte is that of
    /// one.
    pub fn gate(&self) -> (gate: Option<Gate>)
        ensures
            gate == Gate::spec_from_bits(self@.type_attributes),
    {
        Gate::from_bits(self.type_attributes)
    }

    /// Whether the present bit is set.
    pub fn is_present(&self) -> (present: bool)
        ensures
            present == self@.present(),
    {
        self.type_attributes & 0x80 != 0
    }

    /// Lays the descriptor out as the processor reads it.
    pub fn bytes(&self) -> (bytes: Vec<u8>)
        ensures
            bytes@ == self@.bytes(),
            bytes@.len() == DESCRIPTOR_SIZE,
    {
        let mut bytes: Vec<u8> = Vec::new();
        push_le(&mut bytes, self.offset_low as u64, 2);
        push_le(&mut bytes, self.selector.0 as u64, 2);
        push_le(&mut bytes, self.interrupt_stack_table as u64, 1);
        push_le(&mut bytes, self.type_attributes as u64, 1);
        push_le(&mut bytes, self.offset_middle as u64, 2);
        push_le(&mut bytes, self.offset_high as u64, 4);
        push_le(&mut bytes, self.reserved as u64, 4);
        assert(bytes@ =~= self@.bytes());
        bytes
    }
}

/// A handler together with its calling convention: whether the processor
/// pushes an error code for it, and whether it may return.
#[derive(Clone, Copy, PartialEq, Eq, Structural, Debug)]
pub enum Routine {
    /// No error code; returns.
    Plain(Handler),
    /// No error code; never returns.
    Halt(HaltHandler),
    /// Error code; returns.
    Error(ErrorHandler),
    /// Error code; never returns.
    HaltError(HaltErrorHandler),
}

impl Routine {
    /// The entry point.
    pub open spec fn spec_address(self) -> u64 {
        match self {
            Routine::Plain(handler) => handler.0,
            Routine::Halt(handler) => handler.0,
            Routine::Error(handler) => handler.0,
            Routine::HaltError(handler) => handler.0,
        }
    }

    /// Whether the handler takes an error code.
    pub open spec fn spec_takes_error_code(self) -> bool {
        self is Error || self is HaltError
    }

    /// Whether the handler may return to the interrupted code.
    pub open spec fn spec_may_return(self) -> bool {
        self is Plain || self is Error
    }

    /// The entry point.
    #[verifier::when_used_as_spec(spec_address)]
    pub fn address(self) -> (address: u64)
        ensures
            address == self.spec_address(),
    {
        match self {
            Routine::Plain(handler) => handler.0,
            Routine::Halt(handler) => handler.0,
            Routine::Error(handler) => handler.0,
            Routine::HaltError(handler) => handler.0,
        }
    }

    /// Whether the handler takes an error code.
    #[verifier::when_used_as_spec(spec_takes_error_code)]
    pub fn takes_error_code(self) -> (takes: bool)
        ensures
            takes == self.spec_takes_error_code(),
    {
        match self {
            Routine::Plain(_) => false,
            Routine::Halt(_) => false,
            Routine::Error(_) => true,
            Routine::HaltError(_) => true,
        }
    }

    /// Whether the handler may return to the interrupted code.
    #[verifier::when_used_as_spec(spec_may_return)]
    pub fn may_return(self) -> (resumes: bool)
        ensures
            resumes == self.spec_may_return(),
    {
        match self {
            Routine::Plain(_) => true,
            Routine::Halt(_) => false,
            Routine::Error(_) => true,
            Routine::HaltError(_) => false,
        }
    }
}

/// One handler for each exception that the architecture defines.
pub struct Handlers {
    /// Divide error, vector 0.
    pub division_error_handler: Handler,
    /// Debug, vector 1.
    pub debug_handler: Handler,
    /// Non-maskable interrupt, vector 2.
    pub non_maskable_interrupt_handler: Handler,
    /// Breakpoint, vector 3.
    pub breakpoint_handler: Handler,
    /// Overflow, vector 4.
    pub overflow_handler: Handler,
    /// Bound range exceeded, vector 5.
    pub bound_range_exceeded_handler: Handler,
    /// Invalid opcode, vector 6.
    pub invalid_opcode_handler: Handler,
    /// Device not available, vector 7.
    pub device_not_available_handler: Handler,
    /// Double fault, vector 8.
    pub double_fault_handler: HaltErrorHandler,
    /// Invalid task state segment, vector 10.
    pub invalid_tss_handler: ErrorHandler,
    /// Segment not present, vector 11.
    pub segment_not_present_handler: ErrorHandler,
    /// Stack segment fault, vector 12.
    pub stack_segment_fault_handler: ErrorHandler,
    /// General protection fault, vector 13.
    pub general_protection_fault_handler: ErrorHandler,
    /// Page fault, vector 14.
    pub page_fault_handler: ErrorHandler,
    /// x87 floating point exception, vector 16.
    pub x87_floating_point_handler: Handler,
    /// Alignment check, vector 17.
    pub alignment_check_handler: ErrorHandler,
    /// Machine check, vector 18.
    pub machine_check_handler: HaltHandler,
    /// SIMD floating point exception, vector 19.
    pub simd_floating_point_handler: Handler,
    /// Virtualization exception, vector 20.
    pub virtualization_handler: Handler,
    /// Control protection exception, vector 21.
    pub control_protection_handler: ErrorHandler,
    /// Hypervisor injection exception, vector 28.
    pub hypervisor_injection_handler: Handler,
    /// VMM communication exception, vector 29.
    pub vmm_communication_handler: ErrorHandler,
    /// Security exception, vector 30.
    pub security_handler: ErrorHandler,
}

impl Handlers {
    /// The handler bound to `vector`. Vectors 9, 15, 22 to 27, 31 and all
    /// from 32 on have none.
    pub open spec fn spec_routine(self, vector: int) -> Option<Routine> {
        if vector == 0 {
            Some(Routine::Plain(self.division_error_handler))
        } else if vector == 1 {
            Some(Routine::Plain(self.debug_handler))
        } else if vector == 2 {
            Some(Routine::Plain(self.non_maskable_interrupt_handler))
        } else if vector == 3 {
            Some(Routine::Plain(self.breakpoint_handler))
        } else if vector == 4 {
            Some(Routine::Plain(self.overflow_handler))
        } else if vector == 5 {
            Some(Routine::Plain(self.bound_range_exceeded_handler))
        } else if vector == 6 {
            Some(Routine::Plain(self.invalid_opcode_handler))
        } else if vector == 7 {
            Some(Routine::Plain(self.device_not_available_handler))
        } else if vector == 8 {
            Some(Routine::HaltError(self.double_fault_handler))
        } else if vector == 10 {
            Some(Routine::Error(self.invalid_tss_handler))
        } else if vector == 11 {
            Some(Routine::Error(self.segment_not_present_handler))
        } else if vector == 12 {
            Some(Routine::Error(self.stack_segment_fault_handler))
        } else if vector == 13 {
            Some(Routine::Error(self.general_protection_fault_handler))
        } else if vector == 14 {
            Some(Routine::Error(self.page_fault_handler))
        } else if vector == 16 {
            Some(Routine::Plain(self.x87_floating_point_handler))
        } else if vector == 17 {
            Some(Routine::Error(self.alignment_check_handler))
        } else if vector == 18 {
            Some(Routine::Halt(self.machine_check_handler))
        } else if vector == 19 {
            Some(Routine::Plain(self.simd_floating_point_handler))
        } else if vector == 20 {
            Some(Routine::Plain(self.virtualization_handler))
        } else if vector == 21 {
            Some(Routine::Error(self.control_protection_handler))
        } else if vector == 28 {
            Some(Routine::Plain(self.hypervisor_injection_handler))
        } else if vector == 29 {
            Some(Routine::Error(self.vmm_communication_handler))
        } else if vector == 30 {
            Some(Routine::Error(self.security_handler))
        } else {
            None
        }
    }

    /// The handler bound to `vector`, if the vector is one that the
    /// architecture defines.
    pub fn routine(&self, vector: u8) -> (routine: Option<Routine>)
        ensures
            routine == self.spec_routine(vector as int),
    {
        match vector {
            0 => Some(Routine::Plain(self.division_error_handler)),
            1 => Some(Routine::Plain(self.debug_handler)),
            2 => Some(Routine::Plain(self.non_maskable_interrupt_handler)),
            3 => Some(Routine::Plain(self.breakpoint_handler)),
            4 => Some(Routine::Plain(self.overflow_handler)),
            5 => Some(Routine::Plain(self.bound_range_exceeded_handler)),
            6 => Some(Routine::Plain(self.invalid_opcode_handler)),
            7 => Some(Routine::Plain(self.device_not_available_handler)),
            8 => Some(Routine::HaltError(self.double_fault_handler)),
            10 => Some(Routine::Error(self.invalid_tss_handler)),
            11 => Some(Routine::Error(self.segment_not_present_handler)),
            12 => Some(Routine::Error(self.stack_segment_fault_handler)),
            13 => Some(Routine::Error(self.general_protection_fault_handler)),
            14 => Some(Routine::Error(self.page_fault_handler)),
            16 => Some(Routine::Plain(self.x87_floating_point_handler)),
            17 => Some(Routine::Error(self.alignment_check_handler)),
            18 => Some(Routine::Halt(self.machine_check_handler)),
            19 => Some(Routine::Plain(self.simd_floating_point_handler)),
            20 => Some(Routine::Plain(self.virtualization_handler)),
            21 => Some(Routine::Error(self.control_protection_handler)),
            28 => Some(Routine::Plain(self.hypervisor_injection_handler)),
            29 => Some(Routine::Error(self.vmm_communication_handler)),
            30 => Some(Routine::Error(self.security_handler)),
            _ => None,
        }
    }
}

/// The interrupt descriptor table.
pub struct Table {
    descriptors: [Descriptor; 256],
}

impl View for Table {
    type V = Seq<DescriptorView>;

    closed spec fn view(&self) -> Seq<DescriptorView> {
        Seq::new(VECTORS as nat, |vector: int| self.descriptors@[vector]@)
    }
}

impl Table {
    /// Whether the architecture defines an exception on `vector`.
    pub open spec fn populated(vector: int) -> bool {
        0 <= vector <= 8 || 10 <= vector <= 14 || 16 <= vector <= 21 || 28 <= vector <= 30
    }

    /// The kind of gate on `vector`: a trap gate for debug, breakpoint and
    /// overflow, an interrupt gate for every other exception, and the null
    /// gate where there is none.
    pub open spec fn gate_for(vector: int) -> Gate {
        if vector == 1 || vector == 3 || vector == 4 {
            Gate::Trap
        } else if Self::populated(vector) {
            Gate::Interrupt
        } else {
            Gate::Null
        }
    }

    /// The descriptor on `vector` in a table built from `handlers` and `selector`.
    pub open spec fn entry(handlers: Handlers, selector: Selector, vector: int) -> DescriptorView {
        match handlers.spec_routine(vector) {
            Some(routine) => DescriptorView::gate(
                routine.spec_address(),
                selector,
                0,
                Self::gate_for(vector),
            ),
            None => DescriptorView::null(),
        }
    }

    /// The table built from `handlers` and `selector`.
    pub open spec fn layout(handlers: Handlers, selector: Selector) -> Seq<DescriptorView> {
        Seq::new(VECTORS as nat, |vector: int| Self::entry(handlers, selector, vector))
    }

    /// Every populated vector holds a present gate of its kind, on the
    /// current stack and through one common code selector; every other
    /// vector holds the null gate.
    pub open spec fn well_formed(&self) -> bool {
        &&& self@.len() == VECTORS
        &&& forall|vector: int|
            0 <= vector < VECTORS ==> if Self::populated(vector) {
                &&& (#[trigger] self@[vector]).type_attributes == Self::gate_for(
                    vector,
                ).spec_bits()
                &&& self@[vector].present()
                &&& self@[vector].interrupt_stack_table == 0
                &&& self@[vector].selector == self@[0].selector
                &&& self@[vector].reserved == 0
            } else {
                self@[vector] == DescriptorView::null()
            }
    }

    #[verifier::type_invariant]
    spec fn holds_layout(&self) -> bool {
        self.well_formed()
    }

    /// The sequence of operations that installs a table whose first gate
    /// lies at `base`: load the table pointer, unmask interrupts, and raise
    /// the breakpoint exception to see that its handler is reached.
    pub open spec fn load_sequence(base: u64) -> Seq<Instruction> {
        seq![
            Instruction::Lidt(Register { limit: (VECTORS * DESCRIPTOR_SIZE - 1) as u16, base }),
            Instruction::Sti,
            Instruction::Int3,
        ]
    }

    /// Builds the table: one gate for each handler, entered through
    /// `selector` on the current stack, and the null gate everywhere else.
    #[must_use]
    pub fn new(handlers: &Handlers, selector: Selector) -> (table: Self)
        ensures
            table.well_formed(),
            table@ == Self::layout(*handlers, selector),
            forall|vector: int|
                0 <= vector < VECTORS ==> (#[trigger] table@[vector]) == Self::entry(
                    *handlers,
                    selector,
                    vector,
                ),
    {
        let null_descriptor = Descriptor::default();
        let mut descriptors = [null_descriptor;256];

        let division_error_descriptor = Descriptor::new(
            handlers.division_error_handler,
            selector,
            0,
            Gate::Interrupt,
        );
        descriptors[0] = division_error_descriptor;

        let debug_descriptor = Descriptor::new(
            handlers.debug_handler,
            selector,
            0,
            Gate::Trap,
        );
        descriptors[1] = debug_descriptor;

        let non_maskable_interrupt_descriptor = Descriptor::new(
            handlers.non_maskable_interrupt_handler,
            selector,
            0,
            Gate::Interrupt,
        );
        descriptors[2] = non_maskable_interrupt_descriptor;

        let breakpoint_descriptor = Descriptor::new(
            handlers.breakpoint_handler,
            selector,
            0,
            Gate::Trap,
        );
        descriptors[3] = breakpoint_descriptor;

        let overflow_descriptor = Descriptor::new(
            handlers.overflow_handler,
            selector,
            0,
            Gate::Trap,
        );
        descriptors[4] = overflow_descriptor;

        let bound_range_exceeded_descriptor = Descriptor::new(
            handlers.bound_range_exceeded_handler,
            selector,
            0,
            Gate::Interrupt,
        );
        descriptors[5] = bound_range_exceeded_descriptor;

        let invalid_opcode_descriptor = Descriptor::new(
            handlers.invalid_opcode_handler,
            selector,
            0,
            Gate::Interrupt,
        );
        descriptors[6] = invalid_opcode_descriptor;

        let device_not_available_descriptor = Descriptor::new(
            handlers.device_not_available_handler,
            selector,
            0,
            Gate::Interrupt,
        );
        descriptors[7] = device_not_available_descriptor;

        let double_fault_descriptor = Descriptor::new_with_halt_error(
            handlers.double_fault_handler,
            selector,
            0,
            Gate::Interrupt,
        );
        descriptors[8] = double_fault_descriptor;

        let invalid_tss_descriptor = Descriptor::new_with_error(
            handlers.invalid_tss_handler,
            selector,
            0,
            Gate::Interrupt,
        );
        descriptors[10] = invalid_tss_descriptor;

        let segment_not_present_descriptor = Descriptor::new_with_error(
            handlers.segment_not_present_handler,
            selector,
            0,
            Gate::Interrupt,
        );
        descriptors[11] = segment_not_present_descriptor;

        let stack_segment_fault_descriptor = Descriptor::new_with_error(
            handlers.stack_segment_fault_handler,
            selector,
            0,
            Gate::Interrupt,
        );
        descriptors[12] = stack_segment_fault_descriptor;

        let general_protection_fault_descriptor = Descriptor::new_with_error(
            handlers.general_protection_fault_handler,
            selector,
            0,
            Gate::Interrupt,
        );
        descriptors[13] = general_protection_fault_descriptor;

        let page_fault_descriptor = Descriptor::new_with_error(
            handlers.page_fault_handler,
            selector,
            0,
            Gate::Interrupt,
        );
        descriptors[14] = page_fault_descriptor;

        let x87_floating_point_descriptor = Descriptor::new(
            handlers.x87_floating_point_handler,
            selector,
            0,
            Gate::Interrupt,
        );
        descriptors[16] = x87_floating_point_descriptor;

        let alignment_check_descriptor = Descriptor::new_with_error(
            handlers.alignment_check_handler,
            selector,
            0,
            Gate::Interrupt,
        );
        descriptors[17] = alignment_check_descriptor;

        let machine_check_descriptor = Descriptor::new_with_halt(
            handlers.machine_check_handler,
            selector,
            0,
            Gate::Interrupt,
        );
        descriptors[18] = machine_check_descriptor;

        let simd_floating_point_descriptor = Descriptor::new(
            handlers.simd_floating_point_handler,
            selector,
            0,
            Gate::Interrupt,
        );
        descriptors[19] = simd_floating_point_descriptor;

        let virtualization_descriptor = Descriptor::new(
            handlers.virtualization_handler,
            selector,
            0,
            Gate::Interrupt,
        );
        descriptors[20] = virtualization_descriptor;

        let control_protection_descriptor = Descriptor::new_with_error(
            handlers.control_protection_handler,
            selector,
            0,
            Gate::Interrupt,
        );
        descriptors[21] = control_protection_descriptor;

        let hypervisor_injection_descriptor = Descriptor::new(
            handlers.hypervisor_injection_handler,
            selector,
            0,
            Gate::Interrupt,
        );
        descriptors[28] = hypervisor_injection_descriptor;

        let vmm_communication_descriptor = Descriptor::new_with_error(
            handlers.vmm_communication_handler,
            selector,
            0,
            Gate::Interrupt,
        );
        descriptors[29] = vmm_communication_descriptor;

        let security_descriptor = Descriptor::new_with_error(
            handlers.security_handler,
            selector,
            0,
            Gate::Interrupt,
        );
        descriptors[30] = security_descriptor;

        let table = Self { descriptors };
        proof {
            lemma_gate_present();
            assert forall|vector: int| 0 <= vector < VECTORS implies (#[trigger] table@[vector])
                == Self::entry(*handlers, selector, vector) by {
                assert(table@[vector] == table.descriptors@[vector]@);
            }
            assert(table@ =~= Self::layout(*handlers, selector));
        }
        table
    }

    /// Size of the table in bytes, less one.
    fn limit(&self) -> (limit: u16)
        ensures
            limit == VECTORS * DESCRIPTOR_SIZE - 1,
    {
        (VECTORS * DESCRIPTOR_SIZE - 1) as u16
    }

    /// The descriptor on `vector`.
    #[must_use]
    pub fn descriptor(&self, vector: u8) -> (descriptor: Descriptor)
        ensures
            self.well_formed(),
            descriptor@ == self@[vector as int],
    {
        proof {
            use_type_invariant(self);
        }
        self.descriptors[vector as usize]
    }

    /// The table as the processor reads it from memory: descriptor after
    /// descriptor, sixteen bytes each.
    pub open spec fn spec_bytes(&self) -> Seq<u8> {
        Seq::new(
            (DESCRIPTOR_SIZE * VECTORS) as nat,
            |offset: int| self@[offset / 16].bytes()[offset % 16],
        )
    }

    /// Lays the table out as the processor reads it. The result is as long
    /// as the limit of `register` says.
    pub fn bytes(&self) -> (bytes: Vec<u8>)
        ensures
            bytes@ == self.spec_bytes(),
            bytes@.len() == VECTORS * DESCRIPTOR_SIZE,
    {
        let mut bytes: Vec<u8> = Vec::new();
        let mut vector: usize = 0;
        while vector < VECTORS
            invariant
                vector <= VECTORS,
                bytes@.len() == 16 * vector,
                forall|offset: int|
                    0 <= offset < 16 * vector ==> bytes@[offset] == self@[offset / 16].bytes()[offset
                        % 16],
            decreases VECTORS - vector,
        {
            let ghost before = bytes@;
            let mut entry = self.descriptors[vector].bytes();
            assert(self@[vector as int] == self.descriptors[vector as int]@);
            bytes.append(&mut entry);
            assert forall|offset: int| 0 <= offset < 16 * (vector + 1) implies bytes@[offset]
                == self@[offset / 16].bytes()[offset % 16] by {
                if offset < 16 * vector {
                    assert(bytes@[offset] == before[offset]);
                } else {
                    assert(offset / 16 == vector);
                    assert(offset % 16 == offset - 16 * vector);
                }
            }
            vector += 1;
        }
        assert(bytes@ =~= self.spec_bytes());
        bytes
    }

    /// The pointer to hand to `lidt` for a table whose first gate lies at
    /// `base`.
    pub fn register(&self, base: u64) -> (register: Register)
        ensures
            register == (Register { limit: (VECTORS * DESCRIPTOR_SIZE - 1) as u16, base }),
            register.limit == 4095,
    {
        Register { limit: self.limit(), base }
    }

    /// Lists, in the order in which they must be issued, the operations
    /// that install a table whose first gate lies at `base`. The last one
    /// raises the breakpoint exception, whose gate is present in every table.
    pub fn load(&self, base: u64) -> (sequence: Vec<Instruction>)
        ensures
            self.well_formed(),
            sequence@ == Self::load_sequence(base),
            self@[3].present(),
    {
        proof {
            use_type_invariant(self);
        }
        let mut sequence: Vec<Instruction> = Vec::new();
        sequence.push(Instruction::Lidt(self.register(base)));
        sequence.push(Instruction::Sti);
        sequence.push(Instruction::Int3);
        assert(sequence@ =~= Self::load_sequence(base));
        sequence
    }
}

/// The context that the processor pushes when it enters a handler.
#[derive(Clone, Copy, PartialEq, Eq, Structural, Debug)]
pub struct Frame {
    pub instruction_pointer: u64,
    pub code_segment: u64,
    pub cpu_flags: u64,
    pub stack_pointer: u64,
    pub stack_segment: u64,
}

/// A vector has a handler exactly when the architecture defines an
/// exception on it. The handlers of vectors 8, 10 to 14, 17, 21, 29 and 30
/// take an error code and no other does; the handlers of vectors 8 and 18
/// never return and every other does.
pub proof fn lemma_routines(handlers: Handlers, vector: int)
    ensures
        handlers.spec_routine(vector) is Some <==> Table::populated(vector),
        handlers.spec_routine(vector) is Some ==> {
            let routine = handlers.spec_routine(vector)->0;
            &&& routine.spec_takes_error_code() <==> vector == 8 || 10 <= vector <= 14 || vector
                == 17 || vector == 21 || vector == 29 || vector == 30
            &&& routine.spec_may_return() <==> vector != 8 && vector != 18
        },
{
}

/// In a table built from `handlers` and `selector`, every vector on which
/// the architecture defines an exception holds a present descriptor of the
/// documented kind, which leads to that vector's handler through `selector`
/// on the current stack; every other vector holds the null descriptor, which
/// is not present.
pub proof fn lemma_vectors(handlers: Handlers, selector: Selector, vector: int)
    requires
        0 <= vector < VECTORS,
    ensures
        Table::populated(vector) ==> {
            let entry = Table::layout(handlers, selector)[vector];
            &&& entry.present()
            &&& Gate::spec_from_bits(entry.type_attributes) == Some(Table::gate_for(vector))
            &&& Table::gate_for(vector) == if vector == 1 || vector == 3 || vector == 4 {
                Gate::Trap
            } else {
                Gate::Interrupt
            }
            &&& entry.offset() == handlers.spec_routine(vector)->0.spec_address()
            &&& entry.selector == selector
            &&& entry.interrupt_stack_table == 0
            &&& entry.reserved == 0
        },
        !Table::populated(vector) ==> {
            let entry = Table::layout(handlers, selector)[vector];
            &&& entry == DescriptorView::null()
            &&& !entry.present()
            &&& Gate::spec_from_bits(entry.type_attributes) == Some(Gate::Null)
        },
{
    lemma_gate_present();
    lemma_routines(handlers, vector);
    if Table::populated(vector) {
        lemma_offset_round_trip(handlers.spec_routine(vector)->0.spec_address());
    }
}

} // verus!

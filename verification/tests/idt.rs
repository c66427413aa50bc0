use architecture::x86_64::gdt::Selector;
use architecture::x86_64::idt::{
    Descriptor, ErrorHandler, Gate, HaltErrorHandler, HaltHandler, Handler, Handlers, Register,
    Routine, Table,
};
use architecture::x86_64::instruction::Instruction;

const CODE: Selector = Selector(0x08);

/// Handlers at distinct addresses in the upper half: vector `n` at
/// `0xFFFF_FFFF_8000_0000 + 0x100 * n`.
fn handlers() -> Handlers {
    let at = |vector: u64| 0xFFFF_FFFF_8000_0000 + 0x100 * vector;
    Handlers {
        division_error_handler: Handler(at(0)),
        debug_handler: Handler(at(1)),
        non_maskable_interrupt_handler: Handler(at(2)),
        breakpoint_handler: Handler(at(3)),
        overflow_handler: Handler(at(4)),
        bound_range_exceeded_handler: Handler(at(5)),
        invalid_opcode_handler: Handler(at(6)),
        device_not_available_handler: Handler(at(7)),
        double_fault_handler: HaltErrorHandler(at(8)),
        invalid_tss_handler: ErrorHandler(at(10)),
        segment_not_present_handler: ErrorHandler(at(11)),
        stack_segment_fault_handler: ErrorHandler(at(12)),
        general_protection_fault_handler: ErrorHandler(at(13)),
        page_fault_handler: ErrorHandler(at(14)),
        x87_floating_point_handler: Handler(at(16)),
        alignment_check_handler: ErrorHandler(at(17)),
        machine_check_handler: HaltHandler(at(18)),
        simd_floating_point_handler: Handler(at(19)),
        virtualization_handler: Handler(at(20)),
        control_protection_handler: ErrorHandler(at(21)),
        hypervisor_injection_handler: Handler(at(28)),
        vmm_communication_handler: ErrorHandler(at(29)),
        security_handler: ErrorHandler(at(30)),
    }
}

const POPULATED: [u8; 23] = [
    0, 1, 2, 3, 4, 5, 6, 7, 8, 10, 11, 12, 13, 14, 16, 17, 18, 19, 20, 21, 28, 29, 30,
];

#[test]
fn gate_bytes() {
    assert_eq!(Gate::Null.bits(), 0x0E);
    assert_eq!(Gate::Interrupt.bits(), 0x8E);
    assert_eq!(Gate::Trap.bits(), 0x8F);
}

#[test]
fn gate_reads_back() {
    assert_eq!(Gate::from_bits(0x0E), Some(Gate::Null));
    assert_eq!(Gate::from_bits(0x8E), Some(Gate::Interrupt));
    assert_eq!(Gate::from_bits(0x8F), Some(Gate::Trap));
    assert_eq!(Gate::from_bits(0x00), None);
    assert_eq!(Gate::from_bits(0x8D), None);
    assert_eq!(Gate::from_bits(0xFF), None);
}

#[test]
fn null_descriptor_is_not_present() {
    let descriptor = Descriptor::default();
    assert!(!descriptor.is_present());
    assert_eq!(descriptor.gate(), Some(Gate::Null));
    assert_eq!(descriptor.offset(), 0);
    assert_eq!(descriptor.selector(), Selector(0));
    assert_eq!(descriptor.interrupt_stack_table(), 0);
    assert_eq!(descriptor.type_attributes(), 0x0E);
    assert_eq!(
        descriptor.bytes(),
        vec![0, 0, 0, 0, 0, 0x0E, 0, 0, 0, 0, 0, 0, 0, 0, 0, 0]
    );
}

#[test]
fn offset_survives_the_split() {
    for address in [
        0u64,
        1,
        0xFFFF,
        0x1_0000,
        0xFFFF_FFFF,
        0x1_0000_0000,
        0x0123_4567_89AB_CDEF,
        0xFFFF_FFFF_8000_1234,
        0xFFFF_0000_0000_0000,
        u64::MAX,
    ] {
        assert_eq!(Descriptor::new(Handler(address), CODE, 0, Gate::Interrupt).offset(), address);
        assert_eq!(
            Descriptor::new_with_halt(HaltHandler(address), CODE, 0, Gate::Interrupt).offset(),
            address
        );
        assert_eq!(
            Descriptor::new_with_error(ErrorHandler(address), CODE, 0, Gate::Interrupt).offset(),
            address
        );
        assert_eq!(
            Descriptor::new_with_halt_error(HaltErrorHandler(address), CODE, 0, Gate::Interrupt)
                .offset(),
            address
        );
    }
}

#[test]
fn descriptor_keeps_its_fields() {
    let descriptor = Descriptor::new(Handler(0x0123_4567_89AB_CDEF), Selector(0x1B), 5, Gate::Trap);
    assert_eq!(descriptor.selector(), Selector(0x1B));
    assert_eq!(descriptor.interrupt_stack_table(), 5);
    assert_eq!(descriptor.type_attributes(), 0x8F);
    assert_eq!(descriptor.gate(), Some(Gate::Trap));
    assert!(descriptor.is_present());
}

#[test]
fn descriptor_bytes_follow_the_layout() {
    let descriptor = Descriptor::new(Handler(0x0123_4567_89AB_CDEF), Selector(0x08), 2, Gate::Interrupt);
    assert_eq!(
        descriptor.bytes(),
        vec![
            0xEF, 0xCD, // offset, bits 0..16
            0x08, 0x00, // selector
            0x02, // interrupt stack table
            0x8E, // type and attributes
            0xAB, 0x89, // offset, bits 16..32
            0x67, 0x45, 0x23, 0x01, // offset, bits 32..64
            0x00, 0x00, 0x00, 0x00, // reserved
        ]
    );
}

#[test]
fn null_kind_is_not_present() {
    let descriptor = Descriptor::new(Handler(0x1000), CODE, 0, Gate::Null);
    assert!(!descriptor.is_present());
    assert_eq!(descriptor.offset(), 0x1000);
}

#[test]
fn routines_follow_the_exception_table() {
    let handlers = handlers();
    let with_error_code = [8u8, 10, 11, 12, 13, 14, 17, 21, 29, 30];
    for vector in 0..=255u8 {
        match handlers.routine(vector) {
            Some(routine) => {
                assert!(POPULATED.contains(&vector));
                assert_eq!(routine.address(), 0xFFFF_FFFF_8000_0000 + 0x100 * u64::from(vector));
                assert_eq!(routine.takes_error_code(), with_error_code.contains(&vector));
                assert_eq!(routine.may_return(), vector != 8 && vector != 18);
            }
            None => assert!(!POPULATED.contains(&vector)),
        }
    }
}

#[test]
fn double_fault_and_machine_check_never_return() {
    let handlers = handlers();
    assert_eq!(
        handlers.routine(8),
        Some(Routine::HaltError(HaltErrorHandler(0xFFFF_FFFF_8000_0800)))
    );
    assert_eq!(handlers.routine(18), Some(Routine::Halt(HaltHandler(0xFFFF_FFFF_8000_1200))));
    assert_eq!(handlers.routine(3), Some(Routine::Plain(Handler(0xFFFF_FFFF_8000_0300))));
    assert_eq!(handlers.routine(14), Some(Routine::Error(ErrorHandler(0xFFFF_FFFF_8000_0E00))));
}

#[test]
fn table_holds_every_listed_vector() {
    let table = Table::new(&handlers(), CODE);
    for vector in POPULATED {
        let descriptor = table.descriptor(vector);
        let kind = if vector == 1 || vector == 3 || vector == 4 { Gate::Trap } else { Gate::Interrupt };
        assert!(descriptor.is_present());
        assert_eq!(descriptor.gate(), Some(kind));
        assert_eq!(descriptor.offset(), 0xFFFF_FFFF_8000_0000 + 0x100 * u64::from(vector));
        assert_eq!(descriptor.selector(), CODE);
        assert_eq!(descriptor.interrupt_stack_table(), 0);
    }
}

#[test]
fn table_leaves_every_other_vector_null() {
    let table = Table::new(&handlers(), CODE);
    let null = Descriptor::default().bytes();
    let mut unused = 0;
    for vector in 0..=255u8 {
        if !POPULATED.contains(&vector) {
            let descriptor = table.descriptor(vector);
            assert!(!descriptor.is_present());
            assert_eq!(descriptor.gate(), Some(Gate::Null));
            assert_eq!(descriptor.bytes(), null);
            unused += 1;
        }
    }
    assert_eq!(unused, 233);
    for vector in [9u8, 15, 22, 23, 24, 25, 26, 27, 31, 32, 255] {
        assert_eq!(table.descriptor(vector).type_attributes(), 0x0E);
    }
}

#[test]
fn table_bytes_are_the_descriptors_in_order() {
    let table = Table::new(&handlers(), CODE);
    let bytes = table.bytes();
    assert_eq!(bytes.len(), 4096);
    assert_eq!(bytes.len(), usize::from(table.register(0).limit) + 1);
    for vector in 0..=255u8 {
        let start = 16 * usize::from(vector);
        assert_eq!(bytes[start..start + 16].to_vec(), table.descriptor(vector).bytes());
    }
}

#[test]
fn idt_register_has_limit_and_base() {
    let table = Table::new(&handlers(), CODE);
    let register = table.register(0x0020_0000);
    assert_eq!(register, Register { limit: 4095, base: 0x0020_0000 });
    assert_eq!(
        register.bytes(),
        vec![0xFF, 0x0F, 0x00, 0x00, 0x20, 0x00, 0x00, 0x00, 0x00, 0x00]
    );
}

#[test]
fn idt_load_installs_then_unmasks_then_probes() {
    let table = Table::new(&handlers(), CODE);
    assert_eq!(
        table.load(0x0020_0000),
        vec![
            Instruction::Lidt(Register { limit: 4095, base: 0x0020_0000 }),
            Instruction::Sti,
            Instruction::Int3,
        ]
    );
    assert!(table.descriptor(3).is_present());
    assert_eq!(table.descriptor(3).offset(), handlers().breakpoint_handler.0);
}

#[test]
fn startup_orders_the_three_stages() {
    let global = architecture::x86_64::gdt::Table::new(0x0000_7FFC_9A3B_5E40);
    let interrupt = Table::new(&handlers(), global.selector(1));
    let sequence = architecture::x86_64::startup::sequence(&global, 0x1000, &interrupt, 0x2000);
    let data = Selector(0x10);
    assert_eq!(
        sequence,
        vec![
            Instruction::Cli,
            Instruction::Lgdt(architecture::x86_64::gdt::Register { limit: 55, base: 0x1000 }),
            Instruction::SetCs(Selector(0x08)),
            Instruction::SetDs(data),
            Instruction::SetEs(data),
            Instruction::SetFs(data),
            Instruction::SetGs(data),
            Instruction::SetSs(data),
            Instruction::Ltr(Selector(0x28)),
            Instruction::Lidt(Register { limit: 4095, base: 0x2000 }),
            Instruction::Sti,
            Instruction::Int3,
        ]
    );
    assert_eq!(interrupt.descriptor(3).selector(), Selector(0x08));
}

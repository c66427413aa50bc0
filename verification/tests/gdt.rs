use architecture::x86_64::gdt::{Descriptor, Register, Selector, Table};
use architecture::x86_64::instruction::Instruction;
use architecture::x86_64::register::{CS, DS, ES, FS, GS, SS};

/// Where the task state segment of these tests is taken to lie: an address
/// in the upper part of the lower canonical half, as a stack address is.
const SEGMENT_ADDRESS: u64 = 0x0000_7FFC_9A3B_5E40;

fn create_table() -> Table {
    Table::new(SEGMENT_ADDRESS)
}

fn get_descriptor(index: usize) -> u64 {
    let table = create_table();
    table.descriptor(index).0
}

fn get_selector(index: usize) -> u16 {
    let table = create_table();
    table.selector(index).0
}

#[test]
fn test_null_descriptor() {
    assert_eq!(get_descriptor(0), 0x0000000000000000);
}

#[test]
fn test_null_selector() {
    assert_eq!(get_selector(0), 0x0000);
}

#[test]
fn test_kernel_code_descriptor() {
    assert_eq!(get_descriptor(1), 0x00AF9A000000FFFF);
}

#[test]
fn test_kernel_code_selector() {
    assert_eq!(get_selector(1), 0x0008);
}

#[test]
fn test_kernel_data_descriptor() {
    assert_eq!(get_descriptor(2), 0x00CF92000000FFFF);
}

#[test]
fn test_kernel_data_selector() {
    assert_eq!(get_selector(2), 0x0010);
}

#[test]
fn test_user_code_descriptor() {
    assert_eq!(get_descriptor(3), 0x00AFFA000000FFFF);
}

#[test]
fn test_user_code_selector() {
    assert_eq!(get_selector(3), 0x001B);
}

#[test]
fn test_user_data_descriptor() {
    assert_eq!(get_descriptor(4), 0x00CFF2000000FFFF);
}

#[test]
fn test_user_data_selector() {
    assert_eq!(get_selector(4), 0x0023);
}

#[test]
fn test_task_state_descriptor() {
    assert_ne!(get_descriptor(5), 0x0000000000000000);
    assert_ne!(get_descriptor(6), 0x0000000000000000);
}

#[test]
fn test_task_state_selector() {
    assert_eq!(get_selector(5), 0x0028);
}

#[test]
fn task_state_slots_hold_the_address() {
    let table = create_table();
    let low = table.descriptor(5).0;
    let high = table.descriptor(6).0;
    assert_eq!(low, 0x9A00_893B_5E40_0067);
    assert_eq!(high, 0x0000_7FFC);
    let base_low = ((low >> 16) & 0xFF_FFFF) | (((low >> 56) & 0xFF) << 24);
    assert_eq!(base_low | (high << 32), SEGMENT_ADDRESS);
}

#[test]
fn task_state_limit_is_size_less_one() {
    let low = create_table().descriptor(5).0;
    let limit = (low & 0xFFFF) | (((low >> 48) & 0xF) << 16);
    assert_eq!(limit, 103);
    assert_eq!((low >> 40) & 0xFF, 0x89);
}

#[test]
fn upper_slot_is_zero_below_four_gib() {
    let table = Table::new(0x0010_2000);
    assert_ne!(table.descriptor(5).0, 0);
    assert_eq!(table.descriptor(6).0, 0);
    let above = Table::new(0x1_0000_0000);
    assert_eq!(above.descriptor(6).0, 1);
}

#[test]
fn fixed_entries_do_not_depend_on_the_address() {
    for address in [0u64, 0x1000, 0xFFFF_FFFF, u64::MAX] {
        let table = Table::new(address);
        assert_eq!(table.descriptor(0).0, 0);
        assert_eq!(table.descriptor(1).0, 0x00AF9A000000FFFF);
        assert_eq!(table.descriptor(2).0, 0x00CF92000000FFFF);
        assert_eq!(table.descriptor(3).0, 0x00AFFA000000FFFF);
        assert_eq!(table.descriptor(4).0, 0x00CFF2000000FFFF);
        assert_eq!(table.selector(0).0, 0);
        assert_eq!(table.selector(3).0, 0x1B);
    }
}

#[test]
fn descriptor_packs_every_field() {
    let descriptor = Descriptor::new(0x1234_5678, 0xABCDE, 0x9A, 0xC);
    assert_eq!(descriptor.0, 0x12CA_9A34_5678_BCDE);
}

#[test]
fn descriptor_drops_limit_bits_above_twenty() {
    let descriptor = Descriptor::new(0, 0xFFF0_0000, 0, 0);
    assert_eq!(descriptor.0, 0);
}

#[test]
fn system_descriptor_is_the_upper_half() {
    assert_eq!(Descriptor::new_system(0xFFFF_8000).0, 0x0000_0000_FFFF_8000);
    assert_eq!(Descriptor::new_system(0).0, 0);
}

#[test]
fn descriptor_bytes_are_little_endian() {
    let descriptor = Descriptor(0x00AF_9A00_0000_FFFF);
    assert_eq!(descriptor.bytes(), vec![0xFF, 0xFF, 0x00, 0x00, 0x00, 0x9A, 0xAF, 0x00]);
}

#[test]
fn limit_for_checks_twenty_bits() {
    assert_eq!(Descriptor::limit_for(0), None);
    assert_eq!(Descriptor::limit_for(1), Some(0));
    assert_eq!(Descriptor::limit_for(104), Some(103));
    assert_eq!(Descriptor::limit_for(0x10_0000), Some(0xF_FFFF));
    assert_eq!(Descriptor::limit_for(0x10_0001), None);
    assert_eq!(Descriptor::limit_for(usize::MAX), None);
}

#[test]
fn selector_is_index_times_eight_plus_level() {
    for index in [0u16, 1, 2, 5, 100, 4096, 8191] {
        for level in 0u16..4 {
            let selector = Selector::new(index, level);
            assert_eq!(selector.0, index * 8 + level);
            assert_eq!(selector.index(), index);
            assert_eq!(selector.privilege_level(), level);
            assert_eq!(selector.0 & 4, 0);
        }
    }
}

#[test]
fn selector_edges() {
    assert_eq!(Selector::new(0, 0).0, 0);
    assert_eq!(Selector::new(8191, 3).0, 0xFFFB);
    assert_eq!(Selector::new(4, 3).0, 0x23);
    assert_eq!(Selector(0xFFFF).index(), 8191);
    assert_eq!(Selector(0xFFFF).privilege_level(), 3);
}

#[test]
fn register_has_limit_and_base() {
    let table = create_table();
    let register = table.register(0xFFFF_8000_0000_1000);
    assert_eq!(register, Register { limit: 55, base: 0xFFFF_8000_0000_1000 });
    assert_eq!(
        register.bytes(),
        vec![0x37, 0x00, 0x00, 0x10, 0x00, 0x00, 0x00, 0x80, 0xFF, 0xFF]
    );
}

#[test]
fn table_bytes_are_the_slots_in_order() {
    let table = create_table();
    let bytes = table.bytes();
    assert_eq!(bytes.len(), 56);
    assert_eq!(bytes.len(), usize::from(table.register(0).limit) + 1);
    for index in 0..7 {
        let mut slot = [0u8; 8];
        slot.copy_from_slice(&bytes[8 * index..8 * index + 8]);
        assert_eq!(u64::from_le_bytes(slot), table.descriptor(index).0);
    }
}

#[test]
fn load_masks_interrupts_then_installs_then_reloads() {
    let table = create_table();
    let kernel_code = Selector(0x08);
    let kernel_data = Selector(0x10);
    assert_eq!(
        table.load(0x4000),
        vec![
            Instruction::Cli,
            Instruction::Lgdt(Register { limit: 55, base: 0x4000 }),
            Instruction::SetCs(kernel_code),
            Instruction::SetDs(kernel_data),
            Instruction::SetEs(kernel_data),
            Instruction::SetFs(kernel_data),
            Instruction::SetGs(kernel_data),
            Instruction::SetSs(kernel_data),
        ]
    );
}

#[test]
fn segment_registers_name_their_operation() {
    let selector = Selector(0x10);
    assert_eq!(CS::set(selector), Instruction::SetCs(selector));
    assert_eq!(DS::set(selector), Instruction::SetDs(selector));
    assert_eq!(ES::set(selector), Instruction::SetEs(selector));
    assert_eq!(FS::set(selector), Instruction::SetFs(selector));
    assert_eq!(GS::set(selector), Instruction::SetGs(selector));
    assert_eq!(SS::set(selector), Instruction::SetSs(selector));
}

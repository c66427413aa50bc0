use architecture::x86_64::gdt::Selector;
use architecture::x86_64::instruction::Instruction;
use architecture::x86_64::tss::{Segment, INTERRUPT_STACKS, PRIVILEGE_STACKS, SIZE};

#[test]
fn test_io_map_base() {
    let segment = Segment::new();
    assert_eq!(segment.io_map_base(), 0x0068);
}

#[test]
fn io_map_base_is_the_size() {
    let segment = Segment::new();
    assert_eq!(usize::from(segment.io_map_base()), SIZE);
    assert_eq!(SIZE, 104);
    assert_eq!(segment.bytes().len(), SIZE);
}

#[test]
fn new_segment_has_no_stacks() {
    let segment = Segment::new();
    for level in 0..PRIVILEGE_STACKS {
        assert_eq!(segment.privilege_stack(level), 0);
    }
    for slot in 0..INTERRUPT_STACKS {
        assert_eq!(segment.interrupt_stack(slot), 0);
    }
}

#[test]
fn default_segment_is_new() {
    let segment = Segment::default();
    assert_eq!(segment.io_map_base(), 0x0068);
    assert_eq!(segment.bytes(), Segment::new().bytes());
}

#[test]
fn segment_bytes_end_with_the_io_map_base() {
    let bytes = Segment::new().bytes();
    let mut expected = vec![0u8; 102];
    expected.push(0x68);
    expected.push(0x00);
    assert_eq!(bytes, expected);
}

#[test]
fn load_is_one_ltr() {
    assert_eq!(Segment::load(Selector(0x28)), Instruction::Ltr(Selector(0x28)));
}

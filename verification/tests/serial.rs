use architecture::x86_64::instruction::Instruction;
use architecture::x86_64::serial::{Port, Ports, Step};

#[test]
fn port_addresses() {
    assert_eq!(Ports::COM1.address(), 0x3F8);
    assert_eq!(Ports::COM2.address(), 0x2F8);
    assert_eq!(Ports::COM3.address(), 0x3E8);
    assert_eq!(Ports::COM4.address(), 0x2E8);
    assert_eq!(Ports::COM5.address(), 0x5F8);
    assert_eq!(Ports::COM6.address(), 0x4F8);
    assert_eq!(Ports::COM7.address(), 0x5E8);
    assert_eq!(Ports::COM8.address(), 0x4E8);
}

#[test]
fn setup_writes_the_registers_in_order() {
    let port = Port::new(Ports::COM1);
    assert_eq!(
        port.setup(),
        vec![
            Instruction::Outb(0x3F9, 0x00),
            Instruction::Outb(0x3FB, 0x80),
            Instruction::Outb(0x3F8, 0x03),
            Instruction::Outb(0x3F9, 0x00),
            Instruction::Outb(0x3FB, 0x03),
            Instruction::Outb(0x3FA, 0xC7),
            Instruction::Outb(0x3FC, 0x0B),
            Instruction::Outb(0x3FC, 0x1E),
            Instruction::Outb(0x3F8, 0xAE),
            Instruction::Inb(0x3F8),
        ]
    );
}

#[test]
fn setup_follows_the_port() {
    let port = Port::new(Ports::COM5);
    let sequence = port.setup();
    assert_eq!(sequence[0], Instruction::Outb(0x5F9, 0x00));
    assert_eq!(sequence[9], Instruction::Inb(0x5F8));
}

#[test]
fn confirm_accepts_only_the_test_byte() {
    let port = Port::new(Ports::COM2);
    assert_eq!(port.confirm(0xAE), Some(Instruction::Outb(0x2FC, 0x0F)));
    assert_eq!(port.confirm(0x00), None);
    assert_eq!(port.confirm(0xAF), None);
    assert_eq!(port.confirm(0xFF), None);
}

#[test]
fn line_status_bits() {
    assert!(Port::received(0x01));
    assert!(Port::received(0x61));
    assert!(!Port::received(0x60));
    assert!(!Port::received(0x00));
    assert!(Port::transmit_empty(0x20));
    assert!(Port::transmit_empty(0x61));
    assert!(!Port::transmit_empty(0x41));
    assert!(!Port::transmit_empty(0x00));
}

#[test]
fn read_waits_for_data() {
    let port = Port::new(Ports::COM1);
    assert_eq!(port.status(), Instruction::Inb(0x3FD));
    assert_eq!(port.read(0x60), Step::Wait(Instruction::Inb(0x3FD)));
    assert_eq!(port.read(0x61), Step::Transfer(Instruction::Inb(0x3F8)));
}

#[test]
fn write_waits_for_an_empty_buffer() {
    let port = Port::new(Ports::COM1);
    assert_eq!(port.write('A', 0x00), Step::Wait(Instruction::Inb(0x3FD)));
    assert_eq!(port.write('A', 0x20), Step::Transfer(Instruction::Outb(0x3F8, 0x41)));
    assert_eq!(port.write('\n', 0x60), Step::Transfer(Instruction::Outb(0x3F8, 0x0A)));
}

#[test]
fn write_sends_the_low_eight_bits() {
    let port = Port::new(Ports::COM1);
    assert_eq!(port.write('\u{20AC}', 0x20), Step::Transfer(Instruction::Outb(0x3F8, 0xAC)));
}

#[test]
fn line_feed_returns_the_carriage() {
    assert_eq!(Port::write_char('\n'), vec!['\r', '\n']);
    assert_eq!(Port::write_char('a'), vec!['a']);
    assert_eq!(Port::write_char('\r'), vec!['\r']);
}

#[test]
fn write_str_expands_every_line_feed() {
    assert_eq!(Port::write_str(""), Vec::<char>::new());
    assert_eq!(Port::write_str("ok"), vec!['o', 'k']);
    assert_eq!(Port::write_str("a\nb\n"), vec!['a', '\r', '\n', 'b', '\r', '\n']);
    assert_eq!(Port::write_str("\n\n"), vec!['\r', '\n', '\r', '\n']);
}

//! Serial ports: the register writes that set one up, and the decisions
//! that reading and writing a byte take on the line status.

use vstd::prelude::*;

use super::instruction::Instruction;

verus! {

/// Byte that the loopback test sends and expects back.
pub const LOOPBACK_BYTE: u8 = 0xAE;

/// Line status bit that is set while a received byte waits to be read.
pub const DATA_READY: u8 = 0x01;

/// Line status bit that is set while the transmit buffer is empty.
pub const TRANSMIT_EMPTY: u8 = 0x20;

/// The serial ports of a PC.
#[derive(Clone, Copy, PartialEq, Eq, Structural, Debug)]
pub enum Ports {
    COM1,
    COM2,
    COM3,
    COM4,
    COM5,
    COM6,
    COM7,
    COM8,
}

impl Ports {
    /// The I/O address of the port's first register.
    pub open spec fn spec_address(self) -> u16 {
        match self {
            Ports::COM1 => 0x3F8,
            Ports::COM2 => 0x2F8,
            Ports::COM3 => 0x3E8,
            Ports::COM4 => 0x2E8,
            Ports::COM5 => 0x5F8,
            Ports::COM6 => 0x4F8,
            Ports::COM7 => 0x5E8,
            Ports::COM8 => 0x4E8,
        }
    }

    /// The I/O address of the port's first register.
    #[verifier::when_used_as_spec(spec_address)]
    pub fn address(self) -> (address: u16)
        ensures
            address == self.spec_address(),
            0x2E8 <= address <= 0x5F8,
    {
        match self {
            Ports::COM1 => 0x3F8,
            Ports::COM2 => 0x2F8,
            Ports::COM3 => 0x3E8,
            Ports::COM4 => 0x2E8,
            Ports::COM5 => 0x5F8,
            Ports::COM6 => 0x4F8,
            Ports::COM7 => 0x5E8,
            Ports::COM8 => 0x4E8,
        }
    }
}

/// What to do next while waiting on the line.
#[derive(Clone, Copy, PartialEq, Eq, Structural, Debug)]
pub enum Step {
    /// The line is not ready. Issue this read of the line status register
    /// and decide again on the byte that it returns.
    Wait(Instruction),
    /// The line is ready. Issue this operation; it completes the transfer.
    Transfer(Instruction),
}

/// One serial port.
pub struct Port {
    address: u16,
}

impl View for Port {
    type V = u16;

    /// The I/O address of the port's first register.
    closed spec fn view(&self) -> u16 {
        self.address
    }
}

impl Port {
    /// The address is that of one of the eight ports.
    pub open spec fn well_formed(&self) -> bool {
        exists|port: Ports| self@ == port.spec_address()
    }

    #[verifier::type_invariant]
    spec fn known_address(&self) -> bool {
        self.well_formed()
    }

    /// The register writes that set a port at `address` up, followed by the
    /// read that fetches the loopback byte: interrupts off, divisor latch
    /// open, divisor 3 (38400 baud), eight bits without parity and one stop
    /// bit, FIFOs on and cleared with a threshold of 14 bytes, request to
    /// send and data terminal ready, loopback mode, and the test byte.
    pub open spec fn setup_sequence(address: u16) -> Seq<Instruction> {
        seq![
            Instruction::Outb((address + 1) as u16, 0x00),
            Instruction::Outb((address + 3) as u16, 0x80),
            Instruction::Outb(address, 0x03),
            Instruction::Outb((address + 1) as u16, 0x00),
            Instruction::Outb((address + 3) as u16, 0x03),
            Instruction::Outb((address + 2) as u16, 0xC7),
            Instruction::Outb((address + 4) as u16, 0x0B),
            Instruction::Outb((address + 4) as u16, 0x1E),
            Instruction::Outb(address, LOOPBACK_BYTE),
            Instruction::Inb(address),
        ]
    }

    /// The characters that go on the line for `character`: a line feed is
    /// sent as a carriage return and a line feed, anything else as itself.
    pub open spec fn line(character: char) -> Seq<char> {
        if character == '\n' {
            seq!['\r', '\n']
        } else {
            seq![character]
        }
    }

    /// The characters that go on the line for `text`: those for each of its
    /// characters, in order.
    pub open spec fn lines(text: Seq<char>) -> Seq<char>
        decreases text.len(),
    {
        if text.len() == 0 {
            Seq::empty()
        } else {
            Self::lines(text.drop_last()) + Self::line(text.last())
        }
    }

    /// Whether a line status byte says that a received byte waits.
    pub open spec fn spec_received(status: u8) -> bool {
        status & DATA_READY != 0
    }

    /// Whether a line status byte says that the transmit buffer is empty.
    pub open spec fn spec_transmit_empty(status: u8) -> bool {
        status & TRANSMIT_EMPTY != 0
    }

    /// The port `port`. Nothing is sent to it yet: see `setup`.
    #[must_use]
    pub fn new(port: Ports) -> (serial: Self)
        ensures
            serial.well_formed(),
            serial@ == port.spec_address(),
    {
        Self { address: port.address() }
    }

    /// Lists the operations that set the port up. The last one reads the
    /// loopback byte back: hand what it returns to `confirm`.
    pub fn setup(&self) -> (sequence: Vec<Instruction>)
        ensures
            self.well_formed(),
            sequence@ == Self::setup_sequence(self@),
    {
        proof {
            use_type_invariant(self);
        }
        let address: u16 = self.address;
        let mut sequence: Vec<Instruction> = Vec::new();
        sequence.push(Instruction::Outb(address + 1, 0x00));
        sequence.push(Instruction::Outb(address + 3, 0x80));
        sequence.push(Instruction::Outb(address, 0x03));
        sequence.push(Instruction::Outb(address + 1, 0x00));
        sequence.push(Instruction::Outb(address + 3, 0x03));
        sequence.push(Instruction::Outb(address + 2, 0xC7));
        sequence.push(Instruction::Outb(address + 4, 0x0B));
        sequence.push(Instruction::Outb(address + 4, 0x1E));
        sequence.push(Instruction::Outb(address, LOOPBACK_BYTE));
        sequence.push(Instruction::Inb(address));
        assert(sequence@ =~= Self::setup_sequence(self@));
        sequence
    }

    /// Judges the loopback test. If the port echoed the test byte, the
    /// result is the write that leaves loopback mode and enables the port;
    /// if not, the port is faulty and there is nothing to issue.
    pub fn confirm(&self, echoed: u8) -> (instruction: Option<Instruction>)
        ensures
            self.well_formed(),
            instruction is Some <==> echoed == LOOPBACK_BYTE,
            instruction is Some ==> instruction->0 == Instruction::Outb((self@ + 4) as u16, 0x0F),
    {
        proof {
            use_type_invariant(self);
        }
        if echoed == LOOPBACK_BYTE {
            Some(Instruction::Outb(self.address + 4, 0x0F))
        } else {
            None
        }
    }

    /// The read of the line status register.
    pub fn status(&self) -> (instruction: Instruction)
        ensures
            self.well_formed(),
            instruction == Instruction::Inb((self@ + 5) as u16),
    {
        proof {
            use_type_invariant(self);
        }
        Instruction::Inb(self.address + 5)
    }

    /// Whether a line status byte says that a received byte waits.
    #[verifier::when_used_as_spec(spec_received)]
    pub fn received(status: u8) -> (ready: bool)
        ensures
            ready == Self::spec_received(status),
    {
        (status & DATA_READY) != 0
    }

    /// Whether a line status byte says that the transmit buffer is empty.
    #[verifier::when_used_as_spec(spec_transmit_empty)]
    pub fn transmit_empty(status: u8) -> (ready: bool)
        ensures
            ready == Self::spec_transmit_empty(status),
    {
        (status & TRANSMIT_EMPTY) != 0
    }

    /// The next step of reading a byte, given the line status last read:
    /// fetch the byte if one waits, else read the status again.
    #[must_use]
    pub fn read(&self, status: u8) -> (step: Step)
        ensures
            self.well_formed(),
            Self::spec_received(status) ==> step == Step::Transfer(Instruction::Inb(self@)),
            !Self::spec_received(status) ==> step == Step::Wait(
                Instruction::Inb((self@ + 5) as u16),
            ),
    {
        if Self::received(status) {
            proof {
                use_type_invariant(self);
            }
            Step::Transfer(Instruction::Inb(self.address))
        } else {
            Step::Wait(self.status())
        }
    }

    /// The next step of writing `character`, given the line status last
    /// read: send its low eight bits if the transmit buffer is empty, else
    /// read the status again.
    pub fn write(&self, character: char, status: u8) -> (step: Step)
        ensures
            self.well_formed(),
            Self::spec_transmit_empty(status) ==> step == Step::Transfer(
                Instruction::Outb(self@, character as u8),
            ),
            !Self::spec_transmit_empty(status) ==> step == Step::Wait(
                Instruction::Inb((self@ + 5) as u16),
            ),
    {
        if Self::transmit_empty(status) {
            proof {
                use_type_invariant(self);
            }
            Step::Transfer(Instruction::Outb(self.address, character as u8))
        } else {
            Step::Wait(self.status())
        }
    }

    /// Lists the characters to write for `character`, so that a line feed
    /// also returns the carriage.
    pub fn write_char(character: char) -> (characters: Vec<char>)
        ensures
            characters@ == Self::line(character),
    {
        let mut characters: Vec<char> = Vec::new();
        if character == '\n' {
            characters.push('\r');
        }
        characters.push(character);
        assert(characters@ =~= Self::line(character));
        characters
    }

    /// Lists the characters to write for `string`.
    pub fn write_str(string: &str) -> (characters: Vec<char>)
        ensures
            characters@ == Self::lines(string@),
    {
        let length: usize = string.unicode_len();
        let mut characters: Vec<char> = Vec::new();
        let mut index: usize = 0;
        assert(string@.take(0) =~= Seq::<char>::empty());
        while index < length
            invariant
                index <= length,
                length == string@.len(),
                characters@ == Self::lines(string@.take(index as int)),
            decreases length - index,
        {
            let character = string.get_char(index);
            let mut piece = Self::write_char(character);
            characters.append(&mut piece);
            proof {
                let next = string@.take(index + 1);
                assert(next.drop_last() =~= string@.take(index as int));
                assert(next.last() == character);
            }
            index += 1;
        }
        assert(string@.take(length as int) =~= string@);
        characters
    }
}

} // verus!

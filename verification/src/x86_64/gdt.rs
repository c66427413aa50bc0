//! Global descriptor table: segment descriptors, the selectors that index
//! them, and the table that holds both.

use vstd::prelude::*;

use super::instruction::Instruction;
use super::layout::{le_byte, le_bytes, push_le};
use super::register;
use super::tss;

verus! {

/// Largest table index that fits the thirteen index bits of a selector.
pub const MAX_INDEX: u16 = 8191;

/// Largest requested privilege level (ring 3).
pub const MAX_PRIVILEGE_LEVEL: u16 = 3;

/// A 16-bit segment selector: table index in bits 3..16, table indicator in
/// bit 2 and requested privilege level in bits 0..2.
#[derive(Clone, Copy, PartialEq, Eq, Structural, Debug)]
pub struct Selector(pub u16);

impl Selector {
    /// The bit pattern of a selector made from `index` and `privilege_level`.
    pub open spec fn encode(index: u16, privilege_level: u16) -> u16 {
        (index << 3) | privilege_level
    }

    /// The table index that the selector carries.
    pub open spec fn spec_index(self) -> u16 {
        self.0 >> 3
    }

    /// The requested privilege level that the selector carries.
    pub open spec fn spec_privilege_level(self) -> u16 {
        self.0 & 3
    }

    /// Whether the selector refers to the local descriptor table.
    pub open spec fn spec_local(self) -> bool {
        self.0 & 4 != 0
    }

    /// Builds the selector for entry `index` at ring `privilege_level`.
    ///
    /// For an index of at most `MAX_INDEX` and a level of at most
    /// `MAX_PRIVILEGE_LEVEL` the value is `index * 8 + privilege_level`, it
    /// refers to the global table, and both fields can be read back.
    #[must_use]
    pub fn new(index: u16, privilege_level: u16) -> (selector: Self)
        ensures
            selector.0 == Self::encode(index, privilege_level),
            index <= MAX_INDEX && privilege_level <= MAX_PRIVILEGE_LEVEL ==> {
                &&& selector.0 == index * 8 + privilege_level
                &&& selector.spec_index() == index
                &&& selector.spec_privilege_level() == privilege_level
                &&& !selector.spec_local()
            },
    {
        proof {
            lemma_selector_fields(index, privilege_level);
        }
        Self((index << 3) | privilege_level)
    }

    /// Reads the table index.
    #[verifier::when_used_as_spec(spec_index)]
    pub fn index(self) -> (index: u16)
        ensures
            index == self.spec_index(),
            index == self.0 / 8,
            index <= MAX_INDEX,
    {
        let value: u16 = self.0;
        assert(value >> 3 == value / 8 && value >> 3 <= 8191) by (bit_vector);
        value >> 3
    }

    /// Reads the requested privilege level.
    #[verifier::when_used_as_spec(spec_privilege_level)]
    pub fn privilege_level(self) -> (level: u16)
        ensures
            level == self.spec_privilege_level(),
            level == self.0 % 4,
            level <= MAX_PRIVILEGE_LEVEL,
    {
        let value: u16 = self.0;
        assert(value & 3 == value % 4 && value & 3 <= 3) by (bit_vector);
        value & 3
    }
}

/// A selector built from an index of at most `MAX_INDEX` and a privilege
/// level of at most `MAX_PRIVILEGE_LEVEL` equals `index * 8 +
/// privilege_level`, has a clear table indicator, and decodes to the same
/// index and privilege level.
pub proof fn lemma_selector_fields(index: u16, privilege_level: u16)
    ensures
        index <= MAX_INDEX && privilege_level <= MAX_PRIVILEGE_LEVEL ==> {
            let selector = Selector(Selector::encode(index, privilege_level));
            &&& selector.0 == index * 8 + privilege_level
            &&& selector.spec_index() == index
            &&& selector.spec_privilege_level() == privilege_level
            &&& !selector.spec_local()
        },
{
    assert(index <= 8191 && privilege_level <= 3 ==> {
        let value = (index << 3) | privilege_level;
        &&& value == index * 8 + privilege_level
        &&& value >> 3 == index
        &&& value & 3 == privilege_level
        &&& value & 4 == 0
    }) by (bit_vector);
}

/// Number of eight-byte slots in the table.
pub const DESCRIPTORS: usize = 7;

/// Number of selectors that the table hands out.
pub const SELECTORS: usize = 6;

/// Largest limit that the twenty limit bits of a descriptor can hold.
pub const MAX_LIMIT: u32 = 0xFFFFF;

/// Access byte of an available 64-bit task state segment.
pub const TASK_STATE_ACCESS: u8 = 0x89;

/// One eight-byte slot of the table.
///
/// A segment descriptor splits a 32-bit base and a 20-bit limit around an
/// access byte and four flag bits. The slot that follows the descriptor of
/// a task state segment is read differently: it holds the upper half of the
/// segment's 64-bit address and nothing else.
#[derive(Clone, Copy, PartialEq, Eq, Structural, Debug)]
pub struct Descriptor(pub u64);

impl Descriptor {
    /// The bit pattern of a segment descriptor: limit bits 0..16 in bits
    /// 0..16, base bits 0..24 in bits 16..40, the access byte in bits 40..48,
    /// limit bits 16..20 in bits 48..52, the flags from bit 52 on, and base
    /// bits 24..32 in bits 56..64.
    pub open spec fn encode(base: u32, limit: u32, access: u8, flags: u8) -> u64 {
        (limit & 0xFFFF) as u64
            | ((base & 0xFFFF) as u64) << 16
            | (((base >> 16) & 0xFF) as u64) << 32
            | (access as u64) << 40
            | (((limit >> 16) & 0xF) as u64) << 48
            | (flags as u64) << 52
            | (((base >> 24) & 0xFF) as u64) << 56
    }

    /// The 32-bit base address that the descriptor carries.
    pub open spec fn spec_base(self) -> u32 {
        (((self.0 >> 16) & 0xFF_FFFF) | (((self.0 >> 56) & 0xFF) << 24)) as u32
    }

    /// The 20-bit limit that the descriptor carries.
    pub open spec fn spec_limit(self) -> u32 {
        ((self.0 & 0xFFFF) | (((self.0 >> 48) & 0xF) << 16)) as u32
    }

    /// The access byte.
    pub open spec fn spec_access(self) -> u8 {
        ((self.0 >> 40) & 0xFF) as u8
    }

    /// The four flag bits.
    pub open spec fn spec_flags(self) -> u8 {
        ((self.0 >> 52) & 0xF) as u8
    }

    /// Present bit of the access byte.
    pub open spec fn present(self) -> bool {
        self.spec_access() & 0x80 != 0
    }

    /// Descriptor privilege level, bits 5 and 6 of the access byte.
    pub open spec fn privilege_level(self) -> u8 {
        (self.spec_access() >> 5) & 3
    }

    /// Whether the descriptor is for a code or data segment, as opposed to a
    /// system segment.
    pub open spec fn code_or_data(self) -> bool {
        self.spec_access() & 0x10 != 0
    }

    /// Executable bit of the access byte.
    pub open spec fn executable(self) -> bool {
        self.spec_access() & 0x08 != 0
    }

    /// Readable bit of a code segment, writable bit of a data segment.
    pub open spec fn read_write(self) -> bool {
        self.spec_access() & 0x02 != 0
    }

    /// Granularity flag: the limit counts 4 KiB pages.
    pub open spec fn page_granular(self) -> bool {
        self.spec_flags() & 0x8 != 0
    }

    /// Size flag: a 32-bit segment.
    pub open spec fn size_32(self) -> bool {
        self.spec_flags() & 0x4 != 0
    }

    /// Long-mode flag: a 64-bit code segment.
    pub open spec fn long_mode(self) -> bool {
        self.spec_flags() & 0x2 != 0
    }

    /// Packs a segment descriptor. Limit bits above the twentieth are
    /// dropped; flag bits above the fourth land on the top byte of the base.
    #[must_use]
    pub fn new(base: u32, limit: u32, access: u8, flags: u8) -> (descriptor: Self)
        ensures
            descriptor.0 == Self::encode(base, limit, access, flags),
            limit <= MAX_LIMIT && flags <= 0xF ==> {
                &&& descriptor.spec_base() == base
                &&& descriptor.spec_limit() == limit
                &&& descriptor.spec_access() == access
                &&& descriptor.spec_flags() == flags
            },
    {
        let limit_low: u64 = (limit & 0xFFFF) as u64;
        let base_low: u64 = (base & 0xFFFF) as u64;
        let base_middle: u64 = ((base >> 16) & 0xFF) as u64;
        let access_low: u64 = access as u64;
        let limit_high: u64 = ((limit >> 16) & 0xF) as u64;
        let flags_low: u64 = flags as u64;
        let base_high: u64 = ((base >> 24) & 0xFF) as u64;

        let value: u64 = limit_low | (base_low << 16) | (base_middle << 32) | (access_low << 40)
            | (limit_high << 48) | (flags_low << 52) | (base_high << 56);

        proof {
            lemma_descriptor_fields(base, limit, access, flags);
        }
        Self(value)
    }

    /// Fills the slot that follows a task state descriptor with the upper
    /// half of the segment's address.
    #[must_use]
    pub fn new_system(base: u32) -> (descriptor: Self)
        ensures
            descriptor.0 == base,
    {
        Self(base as u64)
    }

    /// The eight bytes of the slot as the processor reads them.
    pub fn bytes(&self) -> (bytes: Vec<u8>)
        ensures
            bytes@ == le_bytes(self.0, 8),
    {
        let mut bytes: Vec<u8> = Vec::new();
        push_le(&mut bytes, self.0, 8);
        assert(bytes@ =~= le_bytes(self.0, 8));
        bytes
    }

    /// The limit of a region of `size` bytes, which is the offset of its
    /// last byte. There is none for an empty region, nor for one whose last
    /// offset does not fit the twenty limit bits.
    pub fn limit_for(size: usize) -> (limit: Option<u32>)
        ensures
            limit is Some <==> 1 <= size <= MAX_LIMIT + 1,
            limit is Some ==> limit->0 == size - 1,
    {
        if size == 0 {
            return None;
        }
        match u32::try_from(size - 1) {
            Ok(limit) => if limit <= MAX_LIMIT {
                Some(limit)
            } else {
                None
            },
            Err(_) => None,
        }
    }
}

/// A descriptor packed from a limit of at most `MAX_LIMIT` and from flags
/// of at most four bits gives back the base, the limit, the access byte and
/// the flags that it was made from.
pub proof fn lemma_descriptor_fields(base: u32, limit: u32, access: u8, flags: u8)
    ensures
        limit <= MAX_LIMIT && flags <= 0xF ==> {
            let descriptor = Descriptor(Descriptor::encode(base, limit, access, flags));
            &&& descriptor.spec_base() == base
            &&& descriptor.spec_limit() == limit
            &&& descriptor.spec_access() == access
            &&& descriptor.spec_flags() == flags
        },
{
    assert(limit <= 0xFFFFF && flags <= 0xF ==> {
        let descriptor = Descriptor(Descriptor::encode(base, limit, access, flags));
        &&& descriptor.spec_base() == base
        &&& descriptor.spec_limit() == limit
        &&& descriptor.spec_access() == access
        &&& descriptor.spec_flags() == flags
    }) by (bit_vector);
}

/// The pointer that `lgdt` reads: the table's size in bytes less one, and
/// the linear address of its first entry.
#[derive(Clone, Copy, PartialEq, Eq, Structural, Debug)]
pub struct Register {
    pub limit: u16,
    pub base: u64,
}

impl Register {
    /// The ten bytes that `lgdt` reads: the limit, directly followed by the
    /// base.
    pub open spec fn spec_bytes(self) -> Seq<u8> {
        le_bytes(self.limit as u64, 2) + le_bytes(self.base, 8)
    }

    /// Lays the pointer out as `lgdt` reads it.
    pub fn bytes(&self) -> (bytes: Vec<u8>)
        ensures
            bytes@ == self.spec_bytes(),
            bytes@.len() == 10,
    {
        let mut bytes: Vec<u8> = Vec::new();
        push_le(&mut bytes, self.limit as u64, 2);
        push_le(&mut bytes, self.base, 8);
        assert(bytes@ =~= self.spec_bytes());
        bytes
    }
}

/// The global descriptor table: the null descriptor, flat code and data
/// segments for ring 0 and ring 3, and the two slots that describe the task
/// state segment, with one selector for each entry.
pub struct Table {
    descriptors: [Descriptor; 7],
    selectors: [Selector; 6],
}

/// What a table holds.
pub ghost struct TableView {
    pub descriptors: Seq<Descriptor>,
    pub selectors: Seq<Selector>,
}

impl View for Table {
    type V = TableView;

    closed spec fn view(&self) -> TableView {
        TableView { descriptors: self.descriptors@, selectors: self.selectors@ }
    }
}

impl TableView {
    /// The table as the processor reads it from memory: slot after slot,
    /// eight bytes each.
    pub open spec fn bytes(self) -> Seq<u8> {
        Seq::new(
            (8 * self.descriptors.len()) as nat,
            |offset: int| le_byte(self.descriptors[offset / 8].0, (offset % 8) as nat),
        )
    }

    /// The address of the task state segment, put together from the base
    /// of slot 5 and from slot 6.
    pub open spec fn task_state_base(self) -> u64 {
        self.descriptors[5].spec_base() as u64 | self.descriptors[6].0 << 32
    }
}

impl Table {
    /// The contents of the table for a task state segment at
    /// `task_state_base`.
    ///
    /// Code and data segments are flat: base 0, limit `MAX_LIMIT` counted in
    /// pages. Code segments carry the long-mode flag, data segments the size
    /// flag. The task state descriptor takes the lower half of the address
    /// and a limit of the segment's size less one; the slot after it takes
    /// the upper half.
    pub open spec fn layout(task_state_base: u64) -> TableView {
        TableView {
            descriptors: seq![
                Descriptor(Descriptor::encode(0x0, 0x0, 0x0, 0x0)),
                Descriptor(Descriptor::encode(0x0, MAX_LIMIT, 0x9A, 0xA)),
                Descriptor(Descriptor::encode(0x0, MAX_LIMIT, 0x92, 0xC)),
                Descriptor(Descriptor::encode(0x0, MAX_LIMIT, 0xFA, 0xA)),
                Descriptor(Descriptor::encode(0x0, MAX_LIMIT, 0xF2, 0xC)),
                Descriptor(
                    Descriptor::encode(
                        (task_state_base & 0xFFFF_FFFF) as u32,
                        (tss::SIZE - 1) as u32,
                        TASK_STATE_ACCESS,
                        0x0,
                    ),
                ),
                Descriptor(task_state_base >> 32),
            ],
            selectors: seq![
                Selector(Selector::encode(0, 0)),
                Selector(Selector::encode(1, 0)),
                Selector(Selector::encode(2, 0)),
                Selector(Selector::encode(3, 3)),
                Selector(Selector::encode(4, 3)),
                Selector(Selector::encode(5, 0)),
            ],
        }
    }

    /// The table is the layout for the address that its last two slots
    /// hold.
    pub open spec fn well_formed(&self) -> bool {
        self@ == Self::layout(self@.task_state_base())
    }

    #[verifier::type_invariant]
    spec fn holds_layout(&self) -> bool {
        self.well_formed()
    }

    /// The sequence of operations that installs a table whose first slot
    /// lies at `base`: mask interrupts, load the table pointer, reload `CS`
    /// with the kernel code selector, then the five data segment registers
    /// with the kernel data selector.
    pub open spec fn load_sequence(self, base: u64) -> Seq<Instruction> {
        seq![
            Instruction::Cli,
            Instruction::Lgdt(Register { limit: (DESCRIPTORS * 8 - 1) as u16, base }),
            Instruction::SetCs(self@.selectors[1]),
            Instruction::SetDs(self@.selectors[2]),
            Instruction::SetEs(self@.selectors[2]),
            Instruction::SetFs(self@.selectors[2]),
            Instruction::SetGs(self@.selectors[2]),
            Instruction::SetSs(self@.selectors[2]),
        ]
    }

    /// Builds the table for a task state segment at `task_state_base`.
    #[must_use]
    pub fn new(task_state_base: u64) -> (table: Self)
        ensures
            table.well_formed(),
            table@ == Self::layout(task_state_base),
            table@.task_state_base() == task_state_base,
            table@.descriptors[0].0 == 0,
            table@.descriptors[1].0 == 0x00AF_9A00_0000_FFFF,
            table@.descriptors[2].0 == 0x00CF_9200_0000_FFFF,
            table@.descriptors[3].0 == 0x00AF_FA00_0000_FFFF,
            table@.descriptors[4].0 == 0x00CF_F200_0000_FFFF,
            table@.descriptors[5].0 != 0,
            table@.descriptors[6].0 != 0 <==> task_state_base > 0xFFFF_FFFF,
            table@.selectors[0].0 == 0x0000,
            table@.selectors[1].0 == 0x0008,
            table@.selectors[2].0 == 0x0010,
            table@.selectors[3].0 == 0x001B,
            table@.selectors[4].0 == 0x0023,
            table@.selectors[5].0 == 0x0028,
    {
        let null_descriptor = Descriptor::new(0x0, 0x0, 0x0, 0x0);
        let null_selector = Selector::new(0, 0);

        let kernel_code_descriptor = Descriptor::new(0x0, 0xFFFFF, 0x9A, 0xA);
        let kernel_code_selector = Selector::new(1, 0);

        let kernel_data_descriptor = Descriptor::new(0x0, 0xFFFFF, 0x92, 0xC);
        let kernel_data_selector = Selector::new(2, 0);

        let user_code_descriptor = Descriptor::new(0x0, 0xFFFFF, 0xFA, 0xA);
        let user_code_selector = Selector::new(3, 3);

        let user_data_descriptor = Descriptor::new(0x0, 0xFFFFF, 0xF2, 0xC);
        let user_data_selector = Selector::new(4, 3);

        assert(task_state_base & 0xFFFF_FFFF <= 0xFFFF_FFFF) by (bit_vector);
        assert(task_state_base >> 32 <= 0xFFFF_FFFF) by (bit_vector);
        let task_state_base_low: u32 = (task_state_base & 0xFFFF_FFFF) as u32;
        let task_state_base_high: u32 = (task_state_base >> 32) as u32;
        let task_state_limit: u32 = Descriptor::limit_for(tss::SIZE).unwrap();

        let task_state_descriptor_low = Descriptor::new(
            task_state_base_low,
            task_state_limit,
            TASK_STATE_ACCESS,
            0x0,
        );
        let task_state_descriptor_high = Descriptor::new_system(task_state_base_high);
        let task_state_selector = Selector::new(5, 0);

        proof {
            lemma_layout(task_state_base);
        }
        let table = Self {
            descriptors: [
                null_descriptor,
                kernel_code_descriptor,
                kernel_data_descriptor,
                user_code_descriptor,
                user_data_descriptor,
                task_state_descriptor_low,
                task_state_descriptor_high,
            ],
            selectors: [
                null_selector,
                kernel_code_selector,
                kernel_data_selector,
                user_code_selector,
                user_data_selector,
                task_state_selector,
            ],
        };
        assert(table@.descriptors =~= Self::layout(task_state_base).descriptors);
        assert(table@.selectors =~= Self::layout(task_state_base).selectors);
        table
    }

    /// Size of the table in bytes, less one.
    fn limit(&self) -> (limit: u16)
        ensures
            limit == DESCRIPTORS * 8 - 1,
    {
        (DESCRIPTORS * 8 - 1) as u16
    }

    /// The descriptor in slot `index`.
    #[must_use]
    pub fn descriptor(&self, index: usize) -> (descriptor: Descriptor)
        requires
            index < DESCRIPTORS,
        ensures
            self.well_formed(),
            descriptor == self@.descriptors[index as int],
    {
        proof {
            use_type_invariant(self);
        }
        self.descriptors[index]
    }

    /// Lays the table out as the processor reads it. The result is as long
    /// as the limit of `register` says.
    pub fn bytes(&self) -> (bytes: Vec<u8>)
        ensures
            bytes@ == self@.bytes(),
            bytes@.len() == DESCRIPTORS * 8,
    {
        let mut bytes: Vec<u8> = Vec::new();
        let mut index: usize = 0;
        assert(self@.descriptors.len() == DESCRIPTORS);
        while index < DESCRIPTORS
            invariant
                index <= DESCRIPTORS,
                self@.descriptors.len() == DESCRIPTORS,
                bytes@.len() == 8 * index,
                forall|offset: int|
                    0 <= offset < 8 * index ==> bytes@[offset] == le_byte(
                        self@.descriptors[offset / 8].0,
                        (offset % 8) as nat,
                    ),
            decreases DESCRIPTORS - index,
        {
            let ghost before = bytes@;
            push_le(&mut bytes, self.descriptors[index].0, 8);
            assert forall|offset: int| 0 <= offset < 8 * (index + 1) implies bytes@[offset]
                == le_byte(self@.descriptors[offset / 8].0, (offset % 8) as nat) by {
                if offset < 8 * index {
                    assert(bytes@[offset] == before[offset]);
                } else {
                    assert(offset / 8 == index);
                    assert(offset % 8 == offset - 8 * index);
                    assert(bytes@[offset] == le_bytes(self.descriptors[index as int].0, 8)[offset
                        - 8 * index]);
                }
            }
            index += 1;
        }
        assert(bytes@ =~= self@.bytes());
        bytes
    }

    /// The pointer to hand to `lgdt` for a table whose first slot lies at
    /// `base`.
    #[must_use]
    pub fn register(&self, base: u64) -> (register: Register)
        ensures
            register == (Register { limit: (DESCRIPTORS * 8 - 1) as u16, base }),
            register.limit == 55,
    {
        Register { limit: self.limit(), base }
    }

    /// The selector for entry `index`.
    #[must_use]
    pub fn selector(&self, index: usize) -> (selector: Selector)
        requires
            index < SELECTORS,
        ensures
            self.well_formed(),
            selector == self@.selectors[index as int],
            selector.spec_index() == index,
    {
        proof {
            use_type_invariant(self);
            lemma_layout(self@.task_state_base());
        }
        self.selectors[index]
    }

    /// Lists, in the order in which they must be issued, the operations
    /// that install a table whose first slot lies at `base`.
    pub fn load(&self, base: u64) -> (sequence: Vec<Instruction>)
        ensures
            self.well_formed(),
            sequence@ == self.load_sequence(base),
            sequence@[2] == Instruction::SetCs(Selector(0x0008)),
            sequence@[3] == Instruction::SetDs(Selector(0x0010)),
            sequence@[4] == Instruction::SetEs(Selector(0x0010)),
            sequence@[5] == Instruction::SetFs(Selector(0x0010)),
            sequence@[6] == Instruction::SetGs(Selector(0x0010)),
            sequence@[7] == Instruction::SetSs(Selector(0x0010)),
    {
        proof {
            use_type_invariant(self);
            lemma_layout(self@.task_state_base());
        }
        let mut sequence: Vec<Instruction> = Vec::new();
        sequence.push(Instruction::Cli);
        sequence.push(Instruction::Lgdt(self.register(base)));
        sequence.push(register::CS::set(self.selector(1)));
        sequence.push(register::DS::set(self.selector(2)));
        sequence.push(register::ES::set(self.selector(2)));
        sequence.push(register::FS::set(self.selector(2)));
        sequence.push(register::GS::set(self.selector(2)));
        sequence.push(register::SS::set(self.selector(2)));
        assert(sequence@ =~= self.load_sequence(base));
        sequence
    }
}

/// The fixed entries of every layout: the bit patterns of the five segment
/// descriptors and of the six selectors, and what each selector decodes to.
/// The task state descriptor is never zero; the slot after it is zero
/// exactly when the segment lies below 4 GiB; and the two together give the
/// segment's address back.
pub proof fn lemma_layout(task_state_base: u64)
    ensures
        ({
            let layout = Table::layout(task_state_base);
            &&& layout.descriptors.len() == DESCRIPTORS
            &&& layout.selectors.len() == SELECTORS
            &&& layout.descriptors[0].0 == 0
            &&& layout.descriptors[1].0 == 0x00AF_9A00_0000_FFFF
            &&& layout.descriptors[2].0 == 0x00CF_9200_0000_FFFF
            &&& layout.descriptors[3].0 == 0x00AF_FA00_0000_FFFF
            &&& layout.descriptors[4].0 == 0x00CF_F200_0000_FFFF
            &&& layout.descriptors[5].0 != 0
            &&& layout.descriptors[5].spec_access() == TASK_STATE_ACCESS
            &&& layout.descriptors[5].spec_limit() == tss::SIZE - 1
            &&& layout.descriptors[6].0 != 0 <==> task_state_base > 0xFFFF_FFFF
            &&& layout.task_state_base() == task_state_base
            &&& layout.selectors[0].0 == 0x0000
            &&& layout.selectors[1].0 == 0x0008
            &&& layout.selectors[2].0 == 0x0010
            &&& layout.selectors[3].0 == 0x001B
            &&& layout.selectors[4].0 == 0x0023
            &&& layout.selectors[5].0 == 0x0028
            &&& forall|i: int| 0 <= i < SELECTORS ==> layout.selectors[i].spec_index() == i
        }),
{
    assert(Descriptor::encode(0x0, 0x0, 0x0, 0x0) == 0) by (bit_vector);
    assert(Descriptor::encode(0x0, 0xFFFFF, 0x9A, 0xA) == 0x00AF_9A00_0000_FFFF) by (bit_vector);
    assert(Descriptor::encode(0x0, 0xFFFFF, 0x92, 0xC) == 0x00CF_9200_0000_FFFF) by (bit_vector);
    assert(Descriptor::encode(0x0, 0xFFFFF, 0xFA, 0xA) == 0x00AF_FA00_0000_FFFF) by (bit_vector);
    assert(Descriptor::encode(0x0, 0xFFFFF, 0xF2, 0xC) == 0x00CF_F200_0000_FFFF) by (bit_vector);
    assert({
        let low = Descriptor(
            Descriptor::encode((task_state_base & 0xFFFF_FFFF) as u32, 103, 0x89, 0x0),
        );
        let high = Descriptor(task_state_base >> 32);
        &&& low.0 != 0
        &&& low.spec_access() == 0x89
        &&& low.spec_limit() == 103
        &&& (high.0 != 0 <==> task_state_base > 0xFFFF_FFFF)
        &&& (low.spec_base() as u64 | high.0 << 32) == task_state_base
    }) by (bit_vector);
    lemma_selector_fields(0, 0);
    lemma_selector_fields(1, 0);
    lemma_selector_fields(2, 0);
    lemma_selector_fields(3, 3);
    lemma_selector_fields(4, 3);
    lemma_selector_fields(5, 0);
}

/// In every well-formed table the null descriptor and the null selector are
/// zero, the four segment descriptors and all six selectors have their fixed
/// bit patterns, and the task state descriptor is not zero.
pub proof fn lemma_fixed_entries(table: Table)
    requires
        table.well_formed(),
    ensures
        table@.descriptors.len() == DESCRIPTORS,
        table@.selectors.len() == SELECTORS,
        table@.descriptors[0].0 == 0,
        table@.selectors[0].0 == 0,
        table@.descriptors[1].0 == 0x00AF_9A00_0000_FFFF,
        table@.selectors[1].0 == 0x0008,
        table@.descriptors[2].0 == 0x00CF_9200_0000_FFFF,
        table@.selectors[2].0 == 0x0010,
        table@.descriptors[3].0 == 0x00AF_FA00_0000_FFFF,
        table@.selectors[3].0 == 0x001B,
        table@.descriptors[4].0 == 0x00CF_F200_0000_FFFF,
        table@.selectors[4].0 == 0x0023,
        table@.descriptors[5].0 != 0,
        table@.selectors[5].0 == 0x0028,
{
    lemma_layout(table@.task_state_base());
}

/// The four segments are flat and span 4 GiB: base 0 and the largest limit,
/// counted in pages. All are present and writable or readable. The kernel
/// pair is at ring 0 and the user pair at ring 3. Code segments are
/// executable 64-bit segments; data segments are 32-bit and not executable.
pub proof fn lemma_flat_segments(task_state_base: u64)
    ensures
        forall|index: int|
            1 <= index <= 4 ==> {
                let descriptor = #[trigger] Table::layout(task_state_base).descriptors[index];
                &&& descriptor.spec_base() == 0
                &&& descriptor.spec_limit() == MAX_LIMIT
                &&& descriptor.present()
                &&& descriptor.code_or_data()
                &&& descriptor.read_write()
                &&& descriptor.page_granular()
                &&& descriptor.privilege_level() == if index <= 2 {
                    0u8
                } else {
                    3u8
                }
                &&& descriptor.executable() == (index == 1 || index == 3)
                &&& descriptor.long_mode() == (index == 1 || index == 3)
                &&& descriptor.size_32() == (index == 2 || index == 4)
            },
{
    lemma_layout(task_state_base);
    assert({
        let descriptor = Descriptor(0x00AF_9A00_0000_FFFF);
        &&& descriptor.spec_base() == 0
        &&& descriptor.spec_limit() == 0xFFFFF
        &&& descriptor.present()
        &&& descriptor.code_or_data()
        &&& descriptor.read_write()
        &&& descriptor.page_granular()
        &&& descriptor.privilege_level() == 0
        &&& descriptor.executable()
        &&& descriptor.long_mode()
        &&& !descriptor.size_32()
    }) by (bit_vector);
    assert({
        let descriptor = Descriptor(0x00CF_9200_0000_FFFF);
        &&& descriptor.spec_base() == 0
        &&& descriptor.spec_limit() == 0xFFFFF
        &&& descriptor.present()
        &&& descriptor.code_or_data()
        &&& descriptor.read_write()
        &&& descriptor.page_granular()
        &&& descriptor.privilege_level() == 0
        &&& !descriptor.executable()
        &&& !descriptor.long_mode()
        &&& descriptor.size_32()
    }) by (bit_vector);
    assert({
        let descriptor = Descriptor(0x00AF_FA00_0000_FFFF);
        &&& descriptor.spec_base() == 0
        &&& descriptor.spec_limit() == 0xFFFFF
        &&& descriptor.present()
        &&& descriptor.code_or_data()
        &&& descriptor.read_write()
        &&& descriptor.page_granular()
        &&& descriptor.privilege_level() == 3
        &&& descriptor.executable()
        &&& descriptor.long_mode()
        &&& !descriptor.size_32()
    }) by (bit_vector);
    assert({
        let descriptor = Descriptor(0x00CF_F200_0000_FFFF);
        &&& descriptor.spec_base() == 0
        &&& descriptor.spec_limit() == 0xFFFFF
        &&& descriptor.present()
        &&& descriptor.code_or_data()
        &&& descriptor.read_write()
        &&& descriptor.page_granular()
        &&& descriptor.privilege_level() == 3
        &&& !descriptor.executable()
        &&& !descriptor.long_mode()
        &&& descriptor.size_32()
    }) by (bit_vector);
}

} // verus!

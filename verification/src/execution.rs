//! A processor context on a simulated memory bus, which decodes one
//! instruction at a time.
//!
//! The bus maps 2 KiB of RAM, mirrored, below `0x2000`; registers and
//! cartridge RAM between `0x2000` and `0x7FFF` read as zero and ignore
//! writes; program ROM, mirrored by its length, fills `0x8000` to `0xFFFF`.

use crate::instructions::{
    spec_opcode_mnemonic,
    spec_opcode_mode,
    AddressingMode,
    Index,
    Instruction,
    InstructionView,
    Operand,
};
use crate::opcodes::{is_opcode_table, opcode_table, OpcodeEntry};
use vstd::prelude::*;

verus! {

/// Bytes of internal RAM.
pub const RAM_SIZE: usize = 0x800;

/// First address above the mirrors of internal RAM.
pub const RAM_END: u16 = 0x2000;

/// First address of program ROM.
pub const PRG_ROM_START: u16 = 0x8000;

/// The registers of the processor, its RAM, and the program ROM it reads.
pub struct ExecutionContext<'a> {
    a: u8,
    x: u8,
    y: u8,
    s: u8,
    p: u8,
    pc: u16,
    ram: Vec<u8>,
    prg: &'a Vec<u8>,
    opcodes: [OpcodeEntry; 256],
}

/// The state of a context as a value.
pub struct ContextView {
    /// The accumulator.
    pub a: u8,
    /// The X register.
    pub x: u8,
    /// The Y register.
    pub y: u8,
    /// The stack pointer.
    pub s: u8,
    /// The status byte.
    pub p: u8,
    /// The program counter.
    pub pc: u16,
    /// The internal RAM.
    pub ram: Seq<u8>,
    /// The program ROM.
    pub prg: Seq<u8>,
}

/// `value` reduced to a 16-bit address: addresses wrap around at `0x10000`.
pub open spec fn wrap16(value: int) -> u16 {
    (value % 0x1_0000) as u16
}

/// The byte that the bus reads at `addr`: below `0x2000` the byte of RAM at
/// the address modulo the size of RAM; from `0x2000` to `0x7FFF`, where the
/// registers of the picture unit and of input and output, unused space and
/// cartridge RAM stand, zero; from `0x8000` on the byte of the program at
/// the address modulo the length of the program.
pub open spec fn bus_read(ram: Seq<u8>, prg: Seq<u8>, addr: u16) -> u8 {
    if addr < 0x2000 {
        ram[addr as int % ram.len() as int]
    } else if addr < 0x8000 {
        0
    } else {
        prg[addr as int % prg.len() as int]
    }
}

/// The RAM after a write of `value` at `addr`: only an address below
/// `0x2000` changes anything.
pub open spec fn bus_write(ram: Seq<u8>, addr: u16, value: u8) -> Seq<u8> {
    if addr < 0x2000 {
        ram.update(addr as int % ram.len() as int, value)
    } else {
        ram
    }
}

/// The little-endian word that the bus reads at `addr` and the address
/// after it.
pub open spec fn bus_read16(ram: Seq<u8>, prg: Seq<u8>, addr: u16) -> u16 {
    (bus_read(ram, prg, addr) + 256 * bus_read(ram, prg, wrap16(addr + 1))) as u16
}

/// Where a branch leads: the address after the instruction, moved by the
/// operand byte read as a signed distance.
pub open spec fn branch_target(next: u16, offset: u8) -> u16 {
    if offset < 0x80 {
        wrap16(next + offset)
    } else {
        wrap16(next + offset - 0x100)
    }
}

/// The operand of an instruction in the given mode whose operand bytes are
/// `lo` and `hi` and which ends before `next`. A mode with one operand
/// byte ignores `hi`; a branch carries its target as an absolute address.
pub open spec fn spec_operand(mode: AddressingMode, lo: u8, hi: u8, next: u16) -> Option<
    Operand,
> {
    let word = (lo + 256 * hi) as u16;
    match mode {
        AddressingMode::Implied | AddressingMode::Accumulator => None,
        AddressingMode::Immediate => Some(Operand::Immediate { value: lo }),
        AddressingMode::ZeroPage => Some(Operand::ZeroPage { address: lo }),
        AddressingMode::ZeroPageX => Some(
            Operand::ZeroPageIndexed { address: lo, index: Index::X },
        ),
        AddressingMode::ZeroPageY => Some(
            Operand::ZeroPageIndexed { address: lo, index: Index::Y },
        ),
        AddressingMode::Absolute => Some(Operand::Absolute { address: word }),
        AddressingMode::AbsoluteX => Some(
            Operand::AbsoluteIndexed { address: word, index: Index::X },
        ),
        AddressingMode::AbsoluteY => Some(
            Operand::AbsoluteIndexed { address: word, index: Index::Y },
        ),
        AddressingMode::Indirect => Some(Operand::Indirect { address: word }),
        AddressingMode::IndexedIndirect => Some(Operand::PreIndexedIndirect { address: lo }),
        AddressingMode::IndirectIndexed => Some(Operand::PostIndexedIndirect { address: lo }),
        AddressingMode::Relative => Some(Operand::Absolute { address: branch_target(next, lo) }),
    }
}

/// Bytes of the instruction at `pc`: the opcode byte and its operand.
pub open spec fn spec_instruction_length(ram: Seq<u8>, prg: Seq<u8>, pc: u16) -> nat {
    1 + spec_opcode_mode(bus_read(ram, prg, pc)).spec_operand_width()
}

/// The address after the instruction at `pc`.
pub open spec fn spec_next_pc(ram: Seq<u8>, prg: Seq<u8>, pc: u16) -> u16 {
    wrap16(pc + spec_instruction_length(ram, prg, pc))
}

/// The instruction at `pc`: the opcode byte there chooses operation and
/// addressing mode, and the bytes after it are the operand.
pub open spec fn spec_decode(ram: Seq<u8>, prg: Seq<u8>, pc: u16) -> InstructionView {
    let opcode = bus_read(ram, prg, pc);
    let lo = bus_read(ram, prg, wrap16(pc + 1));
    let hi = bus_read(ram, prg, wrap16(pc + 2));
    let mode = spec_opcode_mode(opcode);
    let width = mode.spec_operand_width();
    InstructionView {
        mnemonic: spec_opcode_mnemonic(opcode),
        operand: spec_operand(mode, lo, hi, spec_next_pc(ram, prg, pc)),
        bytes: if width == 0 {
            seq![opcode]
        } else if width == 1 {
            seq![opcode, lo]
        } else {
            seq![opcode, lo, hi]
        },
    }
}

/// Every opcode byte decodes: whatever stands at `pc`, the instruction
/// there has the operation of its opcode byte, between one and three
/// bytes, the opcode byte first, and an operand exactly where its
/// addressing mode reads one.
pub proof fn lemma_every_opcode_decodes(ram: Seq<u8>, prg: Seq<u8>, pc: u16)
    ensures
        ({
            let opcode = bus_read(ram, prg, pc);
            let decoded = spec_decode(ram, prg, pc);
            &&& decoded.mnemonic == spec_opcode_mnemonic(opcode)
            &&& 1 <= decoded.bytes.len() <= 3
            &&& decoded.bytes.len() == spec_instruction_length(ram, prg, pc)
            &&& decoded.bytes[0] == opcode
            &&& decoded.operand is None <==> spec_opcode_mode(opcode).spec_operand_width() == 0
        }),
{
}

/// An operand does not depend on a byte that its addressing mode does not
/// read: on neither byte without an operand, and not on the second byte
/// with an operand of one byte.
pub proof fn lemma_operand_ignores_unread_bytes(
    mode: AddressingMode,
    lo: u8,
    hi: u8,
    other_lo: u8,
    other_hi: u8,
    next: u16,
)
    ensures
        mode.spec_operand_width() == 0 ==> spec_operand(mode, lo, hi, next) == spec_operand(
            mode,
            other_lo,
            other_hi,
            next,
        ),
        mode.spec_operand_width() == 1 ==> spec_operand(mode, lo, hi, next) == spec_operand(
            mode,
            lo,
            other_hi,
            next,
        ),
{
}

/// The operand of an instruction in the given mode whose operand bytes are
/// `lo` and `hi` and which ends before `next`.
pub fn operand_of(mode: AddressingMode, lo: u8, hi: u8, next: u16) -> (operand: Option<Operand>)
    ensures
        operand == spec_operand(mode, lo, hi, next),
{
    let address: u16 = lo as u16 | ((hi as u16) << 8);
    assert(lo as u16 | ((hi as u16) << 8) == lo + 256 * hi) by (bit_vector);
    match mode {
        AddressingMode::Implied | AddressingMode::Accumulator => None,
        AddressingMode::Immediate => Some(Operand::Immediate { value: lo }),
        AddressingMode::ZeroPage => Some(Operand::ZeroPage { address: lo }),
        AddressingMode::ZeroPageX => Some(
            Operand::ZeroPageIndexed { address: lo, index: Index::X },
        ),
        AddressingMode::ZeroPageY => Some(
            Operand::ZeroPageIndexed { address: lo, index: Index::Y },
        ),
        AddressingMode::Absolute => Some(Operand::Absolute { address }),
        AddressingMode::AbsoluteX => Some(Operand::AbsoluteIndexed { address, index: Index::X }),
        AddressingMode::AbsoluteY => Some(Operand::AbsoluteIndexed { address, index: Index::Y }),
        AddressingMode::Indirect => Some(Operand::Indirect { address }),
        AddressingMode::IndexedIndirect => Some(Operand::PreIndexedIndirect { address: lo }),
        AddressingMode::IndirectIndexed => Some(Operand::PostIndexedIndirect { address: lo }),
        AddressingMode::Relative => {
            let target = if lo < 0x80 {
                next.wrapping_add(lo as u16)
            } else {
                next.wrapping_sub(0x100 - lo as u16)
            };
            Some(Operand::Absolute { address: target })
        },
    }
}

impl<'a> View for ExecutionContext<'a> {
    type V = ContextView;

    closed spec fn view(&self) -> ContextView {
        ContextView {
            a: self.a,
            x: self.x,
            y: self.y,
            s: self.s,
            p: self.p,
            pc: self.pc,
            ram: self.ram@,
            prg: self.prg@,
        }
    }
}

impl<'a> ExecutionContext<'a> {
    /// The context holds a complete opcode table.
    pub closed spec fn has_opcode_table(&self) -> bool {
        is_opcode_table(self.opcodes@)
    }

    /// The RAM has its 2 KiB, the program ROM is not empty, and the opcode
    /// table is complete.
    pub open spec fn well_formed(&self) -> bool {
        &&& self@.ram.len() == RAM_SIZE
        &&& self@.prg.len() > 0
        &&& self.has_opcode_table()
    }

    /// A context that starts at `start_addr` with cleared registers and
    /// cleared RAM.
    pub fn new(start_addr: u16, prg_data: &'a Vec<u8>) -> (context: Self)
        requires
            prg_data@.len() > 0,
        ensures
            context.well_formed(),
            context@ == (ContextView {
                a: 0,
                x: 0,
                y: 0,
                s: 0,
                p: 0,
                pc: start_addr,
                ram: Seq::new(RAM_SIZE as nat, |i: int| 0u8),
                prg: prg_data@,
            }),
    {
        let mut ram: Vec<u8> = Vec::with_capacity(RAM_SIZE);
        let mut filled: usize = 0;
        while filled < RAM_SIZE
            invariant
                filled <= RAM_SIZE,
                ram@.len() == filled,
                forall|i: int| 0 <= i < filled ==> ram@[i] == 0,
            decreases RAM_SIZE - filled,
        {
            ram.push(0);
            filled += 1;
        }
        assert(ram@ =~= Seq::new(RAM_SIZE as nat, |i: int| 0u8));
        Self { a: 0, x: 0, y: 0, s: 0, p: 0, pc: start_addr, ram, prg: prg_data, opcodes: opcode_table() }
    }

    /// The program counter.
    pub fn get_current_pc(&self) -> (pc: u16)
        ensures
            pc == self@.pc,
    {
        self.pc
    }

    /// Decodes the instruction at the program counter and moves the program
    /// counter behind it. Every opcode byte decodes; nothing else changes.
    pub fn execute_instruction(&mut self) -> (instruction: Instruction)
        requires
            old(self).well_formed(),
        ensures
            final(self).well_formed(),
            instruction@ == spec_decode(old(self)@.ram, old(self)@.prg, old(self)@.pc),
            final(self)@ == (ContextView {
                pc: spec_next_pc(old(self)@.ram, old(self)@.prg, old(self)@.pc),
                ..old(self)@
            }),
    {
        let ghost start = self@;
        let opcode = self.fetch_immediate8();
        let entry = self.opcodes[opcode as usize];
        assert(entry == self.opcodes@[opcode as int]);
        let mut bytes: Vec<u8> = Vec::new();
        bytes.push(opcode);
        let (lo, hi) = self.fetch_operand_bytes(entry.length - 1, &mut bytes);
        let operand = operand_of(entry.mode, lo, hi, self.pc);
        proof {
            lemma_operand_ignores_unread_bytes(
                entry.mode,
                lo,
                hi,
                bus_read(start.ram, start.prg, wrap16(start.pc + 1)),
                bus_read(start.ram, start.prg, wrap16(start.pc + 2)),
                self.pc,
            );
        }
        Instruction { mnemonic: entry.mnemonic, operand, bytes }
    }

    /// Fetches the `width` operand bytes at the program counter and records
    /// them in `bytes`. A byte that is not fetched is returned as zero.
    fn fetch_operand_bytes(&mut self, width: u8, bytes: &mut Vec<u8>) -> (operand: (u8, u8))
        requires
            old(self).well_formed(),
            width <= 2,
            old(bytes)@.len() == 1,
        ensures
            final(self).well_formed(),
            final(self)@ == (ContextView { pc: wrap16(old(self)@.pc + width), ..old(self)@ }),
            width >= 1 ==> operand.0 == bus_read(old(self)@.ram, old(self)@.prg, old(self)@.pc),
            width == 2 ==> operand.1 == bus_read(
                old(self)@.ram,
                old(self)@.prg,
                wrap16(old(self)@.pc + 1),
            ),
            final(bytes)@ == if width == 0 {
                old(bytes)@
            } else if width == 1 {
                seq![old(bytes)@[0], operand.0]
            } else {
                seq![old(bytes)@[0], operand.0, operand.1]
            },
    {
        if width == 0 {
            (0, 0)
        } else if width == 1 {
            let lo = self.fetch_immediate8();
            bytes.push(lo);
            assert(bytes@ =~= seq![old(bytes)@[0], lo]);
            (lo, 0)
        } else {
            let ghost first: u8 = bus_read(self@.ram, self@.prg, self@.pc);
            let ghost second: u8 = bus_read(self@.ram, self@.prg, wrap16(self@.pc + 1));
            let address = self.fetch_immediate16();
            let lo: u8 = (address & 0xFF) as u8;
            let hi: u8 = (address >> 8) as u8;
            assert(address & 0xFF == first && address >> 8 == second) by (bit_vector)
                requires
                    address == first + 256 * second,
            ;
            bytes.push(lo);
            bytes.push(hi);
            assert(bytes@ =~= seq![old(bytes)@[0], lo, hi]);
            (lo, hi)
        }
    }

    /// The byte that the bus reads at `addr`.
    pub fn read8(&self, addr: u16) -> (value: u8)
        requires
            self.well_formed(),
        ensures
            value == bus_read(self@.ram, self@.prg, addr),
    {
        if addr < RAM_END {
            self.ram[addr as usize % self.ram.len()]
        } else if addr < PRG_ROM_START {
            0
        } else {
            self.prg[addr as usize % self.prg.len()]
        }
    }

    /// Writes `value` at `addr`. Only RAM takes a write.
    pub fn write8(&mut self, addr: u16, value: u8)
        requires
            old(self).well_formed(),
        ensures
            final(self).well_formed(),
            final(self)@ == (ContextView {
                ram: bus_write(old(self)@.ram, addr, value),
                ..old(self)@
            }),
    {
        if addr < RAM_END {
            let ram_size = self.ram.len();
            self.ram.set(addr as usize % ram_size, value);
        }
    }

    /// The little-endian word at `addr` and the address after it, which
    /// wraps around at the end of the address space.
    pub fn read16(&self, addr: u16) -> (value: u16)
        requires
            self.well_formed(),
        ensures
            value == bus_read16(self@.ram, self@.prg, addr),
    {
        let lo = self.read8(addr);
        let hi = self.read8(addr.wrapping_add(1));
        assert(lo as u16 | ((hi as u16) << 8) == lo + 256 * hi) by (bit_vector);
        lo as u16 | ((hi as u16) << 8)
    }

    /// Writes `value` as a little-endian word at `addr` and the address
    /// after it, which wraps around at the end of the address space.
    pub fn write16(&mut self, addr: u16, value: u16)
        requires
            old(self).well_formed(),
        ensures
            final(self).well_formed(),
            final(self)@ == (ContextView {
                ram: bus_write(
                    bus_write(old(self)@.ram, addr, (value % 256) as u8),
                    wrap16(addr + 1),
                    (value / 256) as u8,
                ),
                ..old(self)@
            }),
    {
        assert(value & 0xFF == value % 256 && value >> 8 == value / 256) by (bit_vector);
        self.write8(addr, (value & 0xFF) as u8);
        self.write8(addr.wrapping_add(1), (value >> 8) as u8);
    }

    /// Reads the byte at the program counter and moves the program counter
    /// behind it.
    pub fn fetch_immediate8(&mut self) -> (value: u8)
        requires
            old(self).well_formed(),
        ensures
            final(self).well_formed(),
            value == bus_read(old(self)@.ram, old(self)@.prg, old(self)@.pc),
            final(self)@ == (ContextView { pc: wrap16(old(self)@.pc + 1), ..old(self)@ }),
    {
        let value = self.read8(self.pc);
        self.pc = self.pc.wrapping_add(1);
        value
    }

    /// Reads the word at the program counter and moves the program counter
    /// behind it.
    pub fn fetch_immediate16(&mut self) -> (value: u16)
        requires
            old(self).well_formed(),
        ensures
            final(self).well_formed(),
            value == bus_read16(old(self)@.ram, old(self)@.prg, old(self)@.pc),
            final(self)@ == (ContextView { pc: wrap16(old(self)@.pc + 2), ..old(self)@ }),
    {
        let value = self.read16(self.pc);
        self.pc = self.pc.wrapping_add(2);
        value
    }
}

} // verus!

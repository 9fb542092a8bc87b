//! Decoded instructions of the 6502, and what each opcode byte stands for.

use crate::hex::{append_hex_byte, append_hex_word, spec_hex_byte, spec_hex_word};
use vstd::prelude::*;
use vstd::string::StringExecFns;

verus! {

/// The register that indexes an address.
#[derive(PartialEq, Eq, Structural, Debug, Clone, Copy)]
pub enum Index {
    X,
    Y,
}

/// The operand of an instruction, in the shape that its addressing mode
/// gives it.
#[allow(inconsistent_fields)]
#[derive(PartialEq, Eq, Structural, Debug, Clone, Copy)]
pub enum Operand {
    /// A value in the instruction itself.
    Immediate { value: u8 },
    /// An address in page zero.
    ZeroPage { address: u8 },
    /// An address in page zero, indexed by a register.
    ZeroPageIndexed { address: u8, index: Index },
    /// A full address. A branch carries its target in this shape.
    Absolute { address: u16 },
    /// A full address, indexed by a register.
    AbsoluteIndexed { address: u16, index: Index },
    /// The address of the location that holds the target.
    Indirect { address: u16 },
    /// `(address, X)`: the pointer in page zero is indexed by X.
    PreIndexedIndirect { address: u8 },
    /// `(address), Y`: the target of the pointer in page zero is indexed by Y.
    PostIndexedIndirect { address: u8 },
}

/// The operations of the processor, documented and undocumented.
#[derive(PartialEq, Eq, Structural, Debug, Clone, Copy)]
pub enum Mnemonic {
    /// Load the accumulator.
    Lda,
    /// Load X.
    Ldx,
    /// Load Y.
    Ldy,
    /// Store the accumulator.
    Sta,
    /// Store X.
    Stx,
    /// Store Y.
    Sty,
    /// Transfer the accumulator to X.
    Tax,
    /// Transfer the accumulator to Y.
    Tay,
    /// Transfer the stack pointer to X.
    Tsx,
    /// Transfer X to the accumulator.
    Txa,
    /// Transfer X to the stack pointer.
    Txs,
    /// Transfer Y to the accumulator.
    Tya,
    /// Decrement memory.
    Dec,
    /// Decrement X.
    Dex,
    /// Decrement Y.
    Dey,
    /// Increment memory.
    Inc,
    /// Increment X.
    Inx,
    /// Increment Y.
    Iny,
    /// Clear carry.
    Clc,
    /// Clear decimal mode.
    Cld,
    /// Clear interrupt disable.
    Cli,
    /// Clear overflow.
    Clv,
    /// Set carry.
    Sec,
    /// Set decimal mode.
    Sed,
    /// Set interrupt disable.
    Sei,
    /// Push the accumulator.
    Pha,
    /// Push the status byte.
    Php,
    /// Pull the accumulator.
    Pla,
    /// Pull the status byte.
    Plp,
    /// Jump.
    Jmp,
    /// Jump to a subroutine.
    Jsr,
    /// Return from a subroutine.
    Rts,
    /// Add with carry.
    Adc,
    /// Subtract with carry.
    Sbc,
    /// Bitwise and.
    And,
    /// Bitwise exclusive or.
    Eor,
    /// Bitwise or.
    Ora,
    /// Branch on carry clear.
    Bcc,
    /// Branch on carry set.
    Bcs,
    /// Branch on equal.
    Beq,
    /// Branch on minus.
    Bmi,
    /// Branch on not equal.
    Bne,
    /// Branch on plus.
    Bpl,
    /// Branch on overflow clear.
    Bvc,
    /// Branch on overflow set.
    Bvs,
    /// Shift left.
    Asl,
    /// Shift right.
    Lsr,
    /// Rotate left.
    Rol,
    /// Rotate right.
    Ror,
    /// Compare with the accumulator.
    Cmp,
    /// Compare with X.
    Cpx,
    /// Compare with Y.
    Cpy,
    /// Software interrupt.
    Brk,
    /// Return from an interrupt.
    Rti,
    /// No operation.
    Nop,
    /// Test bits.
    Bit,
    /// Undocumented: and, then shift right.
    Alr,
    /// Undocumented: and, with bit 7 copied to carry.
    Anc,
    /// Undocumented: X to the accumulator, then and.
    Xaa,
    /// Undocumented: and, then rotate right.
    Arr,
    /// Undocumented: decrement, then compare.
    Dcp,
    /// Undocumented: increment, then subtract.
    Isc,
    /// Undocumented: memory and stack pointer to the registers.
    Las,
    /// Undocumented: load the accumulator and X.
    Lax,
    /// Undocumented: load the accumulator and X from an immediate value.
    Lxa,
    /// Undocumented: rotate left, then and.
    Rla,
    /// Undocumented: rotate right, then add.
    Rra,
    /// Undocumented: store accumulator and X.
    Sax,
    /// Undocumented: accumulator and X, minus an immediate value, to X.
    Axs,
    /// Undocumented: store accumulator and X and the high byte.
    Ahx,
    /// Undocumented: store X and the high byte.
    Shx,
    /// Undocumented: store Y and the high byte.
    Shy,
    /// Undocumented: shift left, then or.
    Slo,
    /// Undocumented: shift right, then exclusive or.
    Sre,
    /// Undocumented: accumulator and X to the stack pointer, then store.
    Tas,
    /// Undocumented: halt the processor.
    Stp,
}

/// How an instruction finds its operand.
#[derive(PartialEq, Eq, Structural, Debug, Clone, Copy)]
pub enum AddressingMode {
    /// No operand.
    Implied,
    /// The accumulator is the operand.
    Accumulator,
    /// One byte that is the value.
    Immediate,
    /// One byte that is an address in page zero.
    ZeroPage,
    /// One byte that is an address in page zero, indexed by X.
    ZeroPageX,
    /// One byte that is an address in page zero, indexed by Y.
    ZeroPageY,
    /// Two bytes that are an address.
    Absolute,
    /// Two bytes that are an address, indexed by X.
    AbsoluteX,
    /// Two bytes that are an address, indexed by Y.
    AbsoluteY,
    /// Two bytes that are the address of the target's address.
    Indirect,
    /// One byte, `(address, X)`.
    IndexedIndirect,
    /// One byte, `(address), Y`.
    IndirectIndexed,
    /// One byte that is a signed distance from the next instruction.
    Relative,
}

/// One decoded instruction with the bytes that encode it.
#[derive(PartialEq, Debug, Clone)]
pub struct Instruction {
    pub mnemonic: Mnemonic,
    pub operand: Option<Operand>,
    pub bytes: Vec<u8>,
}

/// An instruction as a value: the bytes as a sequence.
pub struct InstructionView {
    pub mnemonic: Mnemonic,
    pub operand: Option<Operand>,
    pub bytes: Seq<u8>,
}

impl View for Instruction {
    type V = InstructionView;

    open spec fn view(&self) -> InstructionView {
        InstructionView { mnemonic: self.mnemonic, operand: self.operand, bytes: self.bytes@ }
    }
}

/// The operation that an opcode byte stands for. Every byte stands for one.
///
/// The table is opaque, to keep it out of proofs that do not look into it:
/// `reveal(spec_opcode_mnemonic)` shows it.
#[verifier::opaque]
pub open spec fn spec_opcode_mnemonic(opcode: u8) -> Mnemonic {
    match opcode {
        0xA1 | 0xA5 | 0xA9 | 0xAD | 0xB1 | 0xB5 | 0xB9 | 0xBD => Mnemonic::Lda,
        0xA2 | 0xA6 | 0xAE | 0xB6 | 0xBE => Mnemonic::Ldx,
        0xA0 | 0xA4 | 0xAC | 0xB4 | 0xBC => Mnemonic::Ldy,
        0x81 | 0x85 | 0x8D | 0x91 | 0x95 | 0x99 | 0x9D => Mnemonic::Sta,
        0x86 | 0x8E | 0x96 => Mnemonic::Stx,
        0x84 | 0x8C | 0x94 => Mnemonic::Sty,
        0xAA => Mnemonic::Tax,
        0xA8 => Mnemonic::Tay,
        0xBA => Mnemonic::Tsx,
        0x8A => Mnemonic::Txa,
        0x9A => Mnemonic::Txs,
        0x98 => Mnemonic::Tya,
        0xC6 | 0xCE | 0xD6 | 0xDE => Mnemonic::Dec,
        0xCA => Mnemonic::Dex,
        0x88 => Mnemonic::Dey,
        0xE6 | 0xEE | 0xF6 | 0xFE => Mnemonic::Inc,
        0xE8 => Mnemonic::Inx,
        0xC8 => Mnemonic::Iny,
        0x18 => Mnemonic::Clc,
        0xD8 => Mnemonic::Cld,
        0x58 => Mnemonic::Cli,
        0xB8 => Mnemonic::Clv,
        0x38 => Mnemonic::Sec,
        0xF8 => Mnemonic::Sed,
        0x78 => Mnemonic::Sei,
        0x48 => Mnemonic::Pha,
        0x08 => Mnemonic::Php,
        0x68 => Mnemonic::Pla,
        0x28 => Mnemonic::Plp,
        0x4C | 0x6C => Mnemonic::Jmp,
        0x20 => Mnemonic::Jsr,
        0x60 => Mnemonic::Rts,
        0x61 | 0x65 | 0x69 | 0x6D | 0x71 | 0x75 | 0x79 | 0x7D => Mnemonic::Adc,
        0xE1 | 0xE5 | 0xE9 | 0xEB | 0xED | 0xF1 | 0xF5 | 0xF9 | 0xFD => Mnemonic::Sbc,
        0x21 | 0x25 | 0x29 | 0x2D | 0x31 | 0x35 | 0x39 | 0x3D => Mnemonic::And,
        0x41 | 0x45 | 0x49 | 0x4D | 0x51 | 0x55 | 0x59 | 0x5D => Mnemonic::Eor,
        0x01 | 0x05 | 0x09 | 0x0D | 0x11 | 0x15 | 0x19 | 0x1D => Mnemonic::Ora,
        0x90 => Mnemonic::Bcc,
        0xB0 => Mnemonic::Bcs,
        0xF0 => Mnemonic::Beq,
        0x30 => Mnemonic::Bmi,
        0xD0 => Mnemonic::Bne,
        0x10 => Mnemonic::Bpl,
        0x50 => Mnemonic::Bvc,
        0x70 => Mnemonic::Bvs,
        0x06 | 0x0A | 0x0E | 0x16 | 0x1E => Mnemonic::Asl,
        0x46 | 0x4A | 0x4E | 0x56 | 0x5E => Mnemonic::Lsr,
        0x26 | 0x2A | 0x2E | 0x36 | 0x3E => Mnemonic::Rol,
        0x66 | 0x6A | 0x6E | 0x76 | 0x7E => Mnemonic::Ror,
        0xC1 | 0xC5 | 0xC9 | 0xCD | 0xD1 | 0xD5 | 0xD9 | 0xDD => Mnemonic::Cmp,
        0xE0 | 0xE4 | 0xEC => Mnemonic::Cpx,
        0xC0 | 0xC4 | 0xCC => Mnemonic::Cpy,
        0x00 => Mnemonic::Brk,
        0x40 => Mnemonic::Rti,
        0x04 | 0x0C | 0x14 | 0x1A | 0x1C | 0x34 | 0x3A | 0x3C | 0x44 | 0x54 | 0x5A | 0x5C |
        0x64 | 0x74 | 0x7A | 0x7C | 0x80 | 0x82 | 0x89 | 0xC2 | 0xD4 | 0xDA | 0xDC | 0xE2 |
        0xEA | 0xF4 | 0xFA | 0xFC => Mnemonic::Nop,
        0x24 | 0x2C => Mnemonic::Bit,
        0x4B => Mnemonic::Alr,
        0x0B | 0x2B => Mnemonic::Anc,
        0x8B => Mnemonic::Xaa,
        0x6B => Mnemonic::Arr,
        0xC3 | 0xC7 | 0xCF | 0xD3 | 0xD7 | 0xDB | 0xDF => Mnemonic::Dcp,
        0xE3 | 0xE7 | 0xEF | 0xF3 | 0xF7 | 0xFB | 0xFF => Mnemonic::Isc,
        0xBB => Mnemonic::Las,
        0xA3 | 0xA7 | 0xAF | 0xB3 | 0xB7 | 0xBF => Mnemonic::Lax,
        0xAB => Mnemonic::Lxa,
        0x23 | 0x27 | 0x2F | 0x33 | 0x37 | 0x3B | 0x3F => Mnemonic::Rla,
        0x63 | 0x67 | 0x6F | 0x73 | 0x77 | 0x7B | 0x7F => Mnemonic::Rra,
        0x83 | 0x87 | 0x8F | 0x97 => Mnemonic::Sax,
        0xCB => Mnemonic::Axs,
        0x93 | 0x9F => Mnemonic::Ahx,
        0x9E => Mnemonic::Shx,
        0x9C => Mnemonic::Shy,
        0x03 | 0x07 | 0x0F | 0x13 | 0x17 | 0x1B | 0x1F => Mnemonic::Slo,
        0x43 | 0x47 | 0x4F | 0x53 | 0x57 | 0x5B | 0x5F => Mnemonic::Sre,
        0x9B => Mnemonic::Tas,
        // 0x02 | 0x12 | 0x22 | 0x32 | 0x42 | 0x52 | 0x62 | 0x72 | 0x92 | 0xB2 | 0xD2 | 0xF2
        _ => Mnemonic::Stp,
    }
}

/// The addressing mode of an opcode byte. The lower five bits of the byte
/// choose it, with a few opcodes that depart from their column.
///
/// The table is opaque, to keep it out of proofs that do not look into it:
/// `reveal(spec_opcode_mode)` shows it.
#[verifier::opaque]
pub open spec fn spec_opcode_mode(opcode: u8) -> AddressingMode {
    let column = opcode % 32;
    if column == 0x00 {
        if opcode == 0x20 {
            AddressingMode::Absolute
        } else if opcode >= 0x80 {
            AddressingMode::Immediate
        } else {
            AddressingMode::Implied
        }
    } else if column == 0x01 || column == 0x03 {
        AddressingMode::IndexedIndirect
    } else if column == 0x02 {
        if opcode >= 0x80 {
            AddressingMode::Immediate
        } else {
            AddressingMode::Implied
        }
    } else if 0x04 <= column <= 0x07 {
        AddressingMode::ZeroPage
    } else if column == 0x08 {
        AddressingMode::Implied
    } else if column == 0x0A {
        if opcode < 0x80 {
            AddressingMode::Accumulator
        } else {
            AddressingMode::Implied
        }
    } else if column == 0x09 || column == 0x0B {
        AddressingMode::Immediate
    } else if column == 0x0C {
        if opcode == 0x6C {
            AddressingMode::Indirect
        } else {
            AddressingMode::Absolute
        }
    } else if 0x0D <= column <= 0x0F {
        AddressingMode::Absolute
    } else if column == 0x10 {
        AddressingMode::Relative
    } else if column == 0x11 || column == 0x13 {
        AddressingMode::IndirectIndexed
    } else if column == 0x12 {
        AddressingMode::Implied
    } else if column == 0x14 || column == 0x15 {
        AddressingMode::ZeroPageX
    } else if column == 0x16 || column == 0x17 {
        if opcode == 0x96 || opcode == 0x97 || opcode == 0xB6 || opcode == 0xB7 {
            AddressingMode::ZeroPageY
        } else {
            AddressingMode::ZeroPageX
        }
    } else if column == 0x18 || column == 0x1A {
        AddressingMode::Implied
    } else if column == 0x19 || column == 0x1B {
        AddressingMode::AbsoluteY
    } else if column == 0x1C || column == 0x1D {
        AddressingMode::AbsoluteX
    } else {
        if opcode == 0x9E || opcode == 0x9F || opcode == 0xBE || opcode == 0xBF {
            AddressingMode::AbsoluteY
        } else {
            AddressingMode::AbsoluteX
        }
    }
}

/// Exactly one opcode byte returns from an interrupt, `0x40`, and it has no
/// operand; the byte zero is a software interrupt.
pub proof fn lemma_return_from_interrupt_is_0x40()
    ensures
        forall|opcode: u8| #[trigger]
            spec_opcode_mnemonic(opcode) == Mnemonic::Rti <==> opcode == 0x40,
        spec_opcode_mode(0x40) == AddressingMode::Implied,
        spec_opcode_mnemonic(0x00) == Mnemonic::Brk,
{
    reveal(spec_opcode_mnemonic);
    reveal(spec_opcode_mode);
}

impl Index {
    /// The name of the register.
    pub open spec fn spec_name(self) -> Seq<char> {
        match self {
            Index::X => "X"@,
            Index::Y => "Y"@,
        }
    }

    /// The name of the register.
    pub fn name(&self) -> (name: &'static str)
        ensures
            name@ == self.spec_name(),
    {
        match self {
            Index::X => "X",
            Index::Y => "Y",
        }
    }

    /// The name of the register, as a string of its own.
    pub fn to_string(&self) -> (text: String)
        ensures
            text@ == self.spec_name(),
    {
        self.name().to_owned()
    }
}

impl Mnemonic {
    /// The three letters by which assemblers know the operation.
    pub open spec fn spec_name(self) -> Seq<char> {
        match self {
            Mnemonic::Lda => "LDA"@,
            Mnemonic::Ldx => "LDX"@,
            Mnemonic::Ldy => "LDY"@,
            Mnemonic::Sta => "STA"@,
            Mnemonic::Stx => "STX"@,
            Mnemonic::Sty => "STY"@,
            Mnemonic::Tax => "TAX"@,
            Mnemonic::Tay => "TAY"@,
            Mnemonic::Tsx => "TSX"@,
            Mnemonic::Txa => "TXA"@,
            Mnemonic::Txs => "TXS"@,
            Mnemonic::Tya => "TYA"@,
            Mnemonic::Dec => "DEC"@,
            Mnemonic::Dex => "DEX"@,
            Mnemonic::Dey => "DEY"@,
            Mnemonic::Inc => "INC"@,
            Mnemonic::Inx => "INX"@,
            Mnemonic::Iny => "INY"@,
            Mnemonic::Clc => "CLC"@,
            Mnemonic::Cld => "CLD"@,
            Mnemonic::Cli => "CLI"@,
            Mnemonic::Clv => "CLV"@,
            Mnemonic::Sec => "SEC"@,
            Mnemonic::Sed => "SED"@,
            Mnemonic::Sei => "SEI"@,
            Mnemonic::Pha => "PHA"@,
            Mnemonic::Php => "PHP"@,
            Mnemonic::Pla => "PLA"@,
            Mnemonic::Plp => "PLP"@,
            Mnemonic::Jmp => "JMP"@,
            Mnemonic::Jsr => "JSR"@,
            Mnemonic::Rts => "RTS"@,
            Mnemonic::Adc => "ADC"@,
            Mnemonic::Sbc => "SBC"@,
            Mnemonic::And => "AND"@,
            Mnemonic::Eor => "EOR"@,
            Mnemonic::Ora => "ORA"@,
            Mnemonic::Bcc => "BCC"@,
            Mnemonic::Bcs => "BCS"@,
            Mnemonic::Beq => "BEQ"@,
            Mnemonic::Bmi => "BMI"@,
            Mnemonic::Bne => "BNE"@,
            Mnemonic::Bpl => "BPL"@,
            Mnemonic::Bvc => "BVC"@,
            Mnemonic::Bvs => "BVS"@,
            Mnemonic::Asl => "ASL"@,
            Mnemonic::Lsr => "LSR"@,
            Mnemonic::Rol => "ROL"@,
            Mnemonic::Ror => "ROR"@,
            Mnemonic::Cmp => "CMP"@,
            Mnemonic::Cpx => "CPX"@,
            Mnemonic::Cpy => "CPY"@,
            Mnemonic::Brk => "BRK"@,
            Mnemonic::Rti => "RTI"@,
            Mnemonic::Nop => "NOP"@,
            Mnemonic::Bit => "BIT"@,
            Mnemonic::Alr => "ALR"@,
            Mnemonic::Anc => "ANC"@,
            Mnemonic::Xaa => "XAA"@,
            Mnemonic::Arr => "ARR"@,
            Mnemonic::Dcp => "DCP"@,
            Mnemonic::Isc => "ISC"@,
            Mnemonic::Las => "LAS"@,
            Mnemonic::Lax => "LAX"@,
            Mnemonic::Lxa => "LXA"@,
            Mnemonic::Rla => "RLA"@,
            Mnemonic::Rra => "RRA"@,
            Mnemonic::Sax => "SAX"@,
            Mnemonic::Axs => "AXS"@,
            Mnemonic::Ahx => "AHX"@,
            Mnemonic::Shx => "SHX"@,
            Mnemonic::Shy => "SHY"@,
            Mnemonic::Slo => "SLO"@,
            Mnemonic::Sre => "SRE"@,
            Mnemonic::Tas => "TAS"@,
            Mnemonic::Stp => "STP"@,
        }
    }

    /// The three letters by which assemblers know the operation.
    pub fn name(&self) -> (name: &'static str)
        ensures
            name@ == self.spec_name(),
    {
        match self {
            Mnemonic::Lda => "LDA",
            Mnemonic::Ldx => "LDX",
            Mnemonic::Ldy => "LDY",
            Mnemonic::Sta => "STA",
            Mnemonic::Stx => "STX",
            Mnemonic::Sty => "STY",
            Mnemonic::Tax => "TAX",
            Mnemonic::Tay => "TAY",
            Mnemonic::Tsx => "TSX",
            Mnemonic::Txa => "TXA",
            Mnemonic::Txs => "TXS",
            Mnemonic::Tya => "TYA",
            Mnemonic::Dec => "DEC",
            Mnemonic::Dex => "DEX",
            Mnemonic::Dey => "DEY",
            Mnemonic::Inc => "INC",
            Mnemonic::Inx => "INX",
            Mnemonic::Iny => "INY",
            Mnemonic::Clc => "CLC",
            Mnemonic::Cld => "CLD",
            Mnemonic::Cli => "CLI",
            Mnemonic::Clv => "CLV",
            Mnemonic::Sec => "SEC",
            Mnemonic::Sed => "SED",
            Mnemonic::Sei => "SEI",
            Mnemonic::Pha => "PHA",
            Mnemonic::Php => "PHP",
            Mnemonic::Pla => "PLA",
            Mnemonic::Plp => "PLP",
            Mnemonic::Jmp => "JMP",
            Mnemonic::Jsr => "JSR",
            Mnemonic::Rts => "RTS",
            Mnemonic::Adc => "ADC",
            Mnemonic::Sbc => "SBC",
            Mnemonic::And => "AND",
            Mnemonic::Eor => "EOR",
            Mnemonic::Ora => "ORA",
            Mnemonic::Bcc => "BCC",
            Mnemonic::Bcs => "BCS",
            Mnemonic::Beq => "BEQ",
            Mnemonic::Bmi => "BMI",
            Mnemonic::Bne => "BNE",
            Mnemonic::Bpl => "BPL",
            Mnemonic::Bvc => "BVC",
            Mnemonic::Bvs => "BVS",
            Mnemonic::Asl => "ASL",
            Mnemonic::Lsr => "LSR",
            Mnemonic::Rol => "ROL",
            Mnemonic::Ror => "ROR",
            Mnemonic::Cmp => "CMP",
            Mnemonic::Cpx => "CPX",
            Mnemonic::Cpy => "CPY",
            Mnemonic::Brk => "BRK",
            Mnemonic::Rti => "RTI",
            Mnemonic::Nop => "NOP",
            Mnemonic::Bit => "BIT",
            Mnemonic::Alr => "ALR",
            Mnemonic::Anc => "ANC",
            Mnemonic::Xaa => "XAA",
            Mnemonic::Arr => "ARR",
            Mnemonic::Dcp => "DCP",
            Mnemonic::Isc => "ISC",
            Mnemonic::Las => "LAS",
            Mnemonic::Lax => "LAX",
            Mnemonic::Lxa => "LXA",
            Mnemonic::Rla => "RLA",
            Mnemonic::Rra => "RRA",
            Mnemonic::Sax => "SAX",
            Mnemonic::Axs => "AXS",
            Mnemonic::Ahx => "AHX",
            Mnemonic::Shx => "SHX",
            Mnemonic::Shy => "SHY",
            Mnemonic::Slo => "SLO",
            Mnemonic::Sre => "SRE",
            Mnemonic::Tas => "TAS",
            Mnemonic::Stp => "STP",
        }
    }

    /// The three letters of the operation, as a string of their own.
    pub fn to_string(&self) -> (text: String)
        ensures
            text@ == self.spec_name(),
    {
        self.name().to_owned()
    }
}

impl Operand {
    /// The operand as assemblers write it: a value after `#$`, an address
    /// after `$`, both in upper-case hexadecimal digits, two for a byte and
    /// four for a word; an index register after a comma; an indirection
    /// in round brackets.
    pub open spec fn spec_text(self) -> Seq<char> {
        match self {
            Operand::Immediate { value } => "#$"@ + spec_hex_byte(value),
            Operand::ZeroPage { address } => "$"@ + spec_hex_byte(address),
            Operand::ZeroPageIndexed { address, index } => "$"@ + spec_hex_byte(address) + ", "@
                + index.spec_name(),
            Operand::Absolute { address } => "$"@ + spec_hex_word(address),
            Operand::AbsoluteIndexed { address, index } => "$"@ + spec_hex_word(address) + ", "@
                + index.spec_name(),
            Operand::Indirect { address } => "($"@ + spec_hex_word(address) + ")"@,
            Operand::PreIndexedIndirect { address } => "($"@ + spec_hex_byte(address) + ", X)"@,
            Operand::PostIndexedIndirect { address } => "($"@ + spec_hex_byte(address) + "), Y"@,
        }
    }

    /// The operand as assemblers write it.
    pub fn to_string(&self) -> (text: String)
        ensures
            text@ == self.spec_text(),
    {
        match self {
            Operand::Immediate { value } => {
                let mut text = "#$".to_owned();
                append_hex_byte(&mut text, *value);
                text
            },
            Operand::ZeroPage { address } => {
                let mut text = "$".to_owned();
                append_hex_byte(&mut text, *address);
                text
            },
            Operand::ZeroPageIndexed { address, index } => {
                let mut text = "$".to_owned();
                append_hex_byte(&mut text, *address);
                text.append(", ");
                text.append(index.name());
                text
            },
            Operand::Absolute { address } => {
                let mut text = "$".to_owned();
                append_hex_word(&mut text, *address);
                text
            },
            Operand::AbsoluteIndexed { address, index } => {
                let mut text = "$".to_owned();
                append_hex_word(&mut text, *address);
                text.append(", ");
                text.append(index.name());
                text
            },
            Operand::Indirect { address } => {
                let mut text = "($".to_owned();
                append_hex_word(&mut text, *address);
                text.append(")");
                text
            },
            Operand::PreIndexedIndirect { address } => {
                let mut text = "($".to_owned();
                append_hex_byte(&mut text, *address);
                text.append(", X)");
                text
            },
            Operand::PostIndexedIndirect { address } => {
                let mut text = "($".to_owned();
                append_hex_byte(&mut text, *address);
                text.append("), Y");
                text
            },
        }
    }
}

impl AddressingMode {
    /// Bytes of operand that follow the opcode byte.
    pub open spec fn spec_operand_width(self) -> nat {
        match self {
            AddressingMode::Implied | AddressingMode::Accumulator => 0,
            AddressingMode::Immediate
            | AddressingMode::ZeroPage
            | AddressingMode::ZeroPageX
            | AddressingMode::ZeroPageY
            | AddressingMode::IndexedIndirect
            | AddressingMode::IndirectIndexed
            | AddressingMode::Relative => 1,
            AddressingMode::Absolute
            | AddressingMode::AbsoluteX
            | AddressingMode::AbsoluteY
            | AddressingMode::Indirect => 2,
        }
    }

    /// Bytes of operand that follow the opcode byte.
    pub fn operand_width(self) -> (width: u8)
        ensures
            width == self.spec_operand_width(),
    {
        match self {
            AddressingMode::Implied | AddressingMode::Accumulator => 0,
            AddressingMode::Immediate
            | AddressingMode::ZeroPage
            | AddressingMode::ZeroPageX
            | AddressingMode::ZeroPageY
            | AddressingMode::IndexedIndirect
            | AddressingMode::IndirectIndexed
            | AddressingMode::Relative => 1,
            AddressingMode::Absolute
            | AddressingMode::AbsoluteX
            | AddressingMode::AbsoluteY
            | AddressingMode::Indirect => 2,
        }
    }
}

} // verus!

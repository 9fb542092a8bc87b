//! The opcode table: one entry for each of the 256 opcode bytes.

use crate::instructions::{spec_opcode_mnemonic, spec_opcode_mode, AddressingMode, Mnemonic};
use vstd::prelude::*;

verus! {

/// What one opcode byte stands for.
#[derive(PartialEq, Eq, Structural, Debug, Clone, Copy)]
pub struct OpcodeEntry {
    /// The operation.
    pub mnemonic: Mnemonic,
    /// How the operand is found.
    pub mode: AddressingMode,
    /// Bytes of the whole instruction, the opcode byte included.
    pub length: u8,
}

/// The entry of an opcode byte: its operation, its addressing mode, and a
/// length of one byte more than the operand is wide.
pub open spec fn spec_opcode_entry(opcode: u8) -> OpcodeEntry {
    OpcodeEntry {
        mnemonic: spec_opcode_mnemonic(opcode),
        mode: spec_opcode_mode(opcode),
        length: (1 + spec_opcode_mode(opcode).spec_operand_width()) as u8,
    }
}

/// A table holds, at each opcode byte, the entry of that byte.
pub open spec fn is_opcode_table(table: Seq<OpcodeEntry>) -> bool {
    &&& table.len() == 256
    &&& forall|opcode: u8| #[trigger] table[opcode as int] == spec_opcode_entry(opcode)
}

/// An entry with the length that its addressing mode gives.
fn entry(mnemonic: Mnemonic, mode: AddressingMode) -> (e: OpcodeEntry)
    ensures
        e == (OpcodeEntry { mnemonic, mode, length: (1 + mode.spec_operand_width()) as u8 }),
{
    OpcodeEntry { mnemonic, mode, length: 1 + mode.operand_width() }
}

/// Builds the opcode table, in the order of the opcode bytes.
#[verifier::rlimit(30)]
pub fn opcode_table() -> (table: [OpcodeEntry; 256])
    ensures
        is_opcode_table(table@),
{
    let table: [OpcodeEntry; 256] = [
        // 0x00
        entry(Mnemonic::Brk, AddressingMode::Implied),
        entry(Mnemonic::Ora, AddressingMode::IndexedIndirect),
        entry(Mnemonic::Stp, AddressingMode::Implied),
        entry(Mnemonic::Slo, AddressingMode::IndexedIndirect),
        entry(Mnemonic::Nop, AddressingMode::ZeroPage),
        entry(Mnemonic::Ora, AddressingMode::ZeroPage),
        entry(Mnemonic::Asl, AddressingMode::ZeroPage),
        entry(Mnemonic::Slo, AddressingMode::ZeroPage),
        entry(Mnemonic::Php, AddressingMode::Implied),
        entry(Mnemonic::Ora, AddressingMode::Immediate),
        entry(Mnemonic::Asl, AddressingMode::Accumulator),
        entry(Mnemonic::Anc, AddressingMode::Immediate),
        entry(Mnemonic::Nop, AddressingMode::Absolute),
        entry(Mnemonic::Ora, AddressingMode::Absolute),
        entry(Mnemonic::Asl, AddressingMode::Absolute),
        entry(Mnemonic::Slo, AddressingMode::Absolute),
        // 0x10
        entry(Mnemonic::Bpl, AddressingMode::Relative),
        entry(Mnemonic::Ora, AddressingMode::IndirectIndexed),
        entry(Mnemonic::Stp, AddressingMode::Implied),
        entry(Mnemonic::Slo, AddressingMode::IndirectIndexed),
        entry(Mnemonic::Nop, AddressingMode::ZeroPageX),
        entry(Mnemonic::Ora, AddressingMode::ZeroPageX),
        entry(Mnemonic::Asl, AddressingMode::ZeroPageX),
        entry(Mnemonic::Slo, AddressingMode::ZeroPageX),
        entry(Mnemonic::Clc, AddressingMode::Implied),
        entry(Mnemonic::Ora, AddressingMode::AbsoluteY),
        entry(Mnemonic::Nop, AddressingMode::Implied),
        entry(Mnemonic::Slo, AddressingMode::AbsoluteY),
        entry(Mnemonic::Nop, AddressingMode::AbsoluteX),
        entry(Mnemonic::Ora, AddressingMode::AbsoluteX),
        entry(Mnemonic::Asl, AddressingMode::AbsoluteX),
        entry(Mnemonic::Slo, AddressingMode::AbsoluteX),
        // 0x20
        entry(Mnemonic::Jsr, AddressingMode::Absolute),
        entry(Mnemonic::And, AddressingMode::IndexedIndirect),
        entry(Mnemonic::Stp, AddressingMode::Implied),
        entry(Mnemonic::Rla, AddressingMode::IndexedIndirect),
        entry(Mnemonic::Bit, AddressingMode::ZeroPage),
        entry(Mnemonic::And, AddressingMode::ZeroPage),
        entry(Mnemonic::Rol, AddressingMode::ZeroPage),
        entry(Mnemonic::Rla, AddressingMode::ZeroPage),
        entry(Mnemonic::Plp, AddressingMode::Implied),
        entry(Mnemonic::And, AddressingMode::Immediate),
        entry(Mnemonic::Rol, AddressingMode::Accumulator),
        entry(Mnemonic::Anc, AddressingMode::Immediate),
        entry(Mnemonic::Bit, AddressingMode::Absolute),
        entry(Mnemonic::And, AddressingMode::Absolute),
        entry(Mnemonic::Rol, AddressingMode::Absolute),
        entry(Mnemonic::Rla, AddressingMode::Absolute),
        // 0x30
        entry(Mnemonic::Bmi, AddressingMode::Relative),
        entry(Mnemonic::And, AddressingMode::IndirectIndexed),
        entry(Mnemonic::Stp, AddressingMode::Implied),
        entry(Mnemonic::Rla, AddressingMode::IndirectIndexed),
        entry(Mnemonic::Nop, AddressingMode::ZeroPageX),
        entry(Mnemonic::And, AddressingMode::ZeroPageX),
        entry(Mnemonic::Rol, AddressingMode::ZeroPageX),
        entry(Mnemonic::Rla, AddressingMode::ZeroPageX),
        entry(Mnemonic::Sec, AddressingMode::Implied),
        entry(Mnemonic::And, AddressingMode::AbsoluteY),
        entry(Mnemonic::Nop, AddressingMode::Implied),
        entry(Mnemonic::Rla, AddressingMode::AbsoluteY),
        entry(Mnemonic::Nop, AddressingMode::AbsoluteX),
        entry(Mnemonic::And, AddressingMode::AbsoluteX),
        entry(Mnemonic::Rol, AddressingMode::AbsoluteX),
        entry(Mnemonic::Rla, AddressingMode::AbsoluteX),
        // 0x40
        entry(Mnemonic::Rti, AddressingMode::Implied),
        entry(Mnemonic::Eor, AddressingMode::IndexedIndirect),
        entry(Mnemonic::Stp, AddressingMode::Implied),
        entry(Mnemonic::Sre, AddressingMode::IndexedIndirect),
        entry(Mnemonic::Nop, AddressingMode::ZeroPage),
        entry(Mnemonic::Eor, AddressingMode::ZeroPage),
        entry(Mnemonic::Lsr, AddressingMode::ZeroPage),
        entry(Mnemonic::Sre, AddressingMode::ZeroPage),
        entry(Mnemonic::Pha, AddressingMode::Implied),
        entry(Mnemonic::Eor, AddressingMode::Immediate),
        entry(Mnemonic::Lsr, AddressingMode::Accumulator),
        entry(Mnemonic::Alr, AddressingMode::Immediate),
        entry(Mnemonic::Jmp, AddressingMode::Absolute),
        entry(Mnemonic::Eor, AddressingMode::Absolute),
        entry(Mnemonic::Lsr, AddressingMode::Absolute),
        entry(Mnemonic::Sre, AddressingMode::Absolute),
        // 0x50
        entry(Mnemonic::Bvc, AddressingMode::Relative),
        entry(Mnemonic::Eor, AddressingMode::IndirectIndexed),
        entry(Mnemonic::Stp, AddressingMode::Implied),
        entry(Mnemonic::Sre, AddressingMode::IndirectIndexed),
        entry(Mnemonic::Nop, AddressingMode::ZeroPageX),
        entry(Mnemonic::Eor, AddressingMode::ZeroPageX),
        entry(Mnemonic::Lsr, AddressingMode::ZeroPageX),
        entry(Mnemonic::Sre, AddressingMode::ZeroPageX),
        entry(Mnemonic::Cli, AddressingMode::Implied),
        entry(Mnemonic::Eor, AddressingMode::AbsoluteY),
        entry(Mnemonic::Nop, AddressingMode::Implied),
        entry(Mnemonic::Sre, AddressingMode::AbsoluteY),
        entry(Mnemonic::Nop, AddressingMode::AbsoluteX),
        entry(Mnemonic::Eor, AddressingMode::AbsoluteX),
        entry(Mnemonic::Lsr, AddressingMode::AbsoluteX),
        entry(Mnemonic::Sre, AddressingMode::AbsoluteX),
        // 0x60
        entry(Mnemonic::Rts, AddressingMode::Implied),
        entry(Mnemonic::Adc, AddressingMode::IndexedIndirect),
        entry(Mnemonic::Stp, AddressingMode::Implied),
        entry(Mnemonic::Rra, AddressingMode::IndexedIndirect),
        entry(Mnemonic::Nop, AddressingMode::ZeroPage),
        entry(Mnemonic::Adc, AddressingMode::ZeroPage),
        entry(Mnemonic::Ror, AddressingMode::ZeroPage),
        entry(Mnemonic::Rra, AddressingMode::ZeroPage),
        entry(Mnemonic::Pla, AddressingMode::Implied),
        entry(Mnemonic::Adc, AddressingMode::Immediate),
        entry(Mnemonic::Ror, AddressingMode::Accumulator),
        entry(Mnemonic::Arr, AddressingMode::Immediate),
        entry(Mnemonic::Jmp, AddressingMode::Indirect),
        entry(Mnemonic::Adc, AddressingMode::Absolute),
        entry(Mnemonic::Ror, AddressingMode::Absolute),
        entry(Mnemonic::Rra, AddressingMode::Absolute),
        // 0x70
        entry(Mnemonic::Bvs, AddressingMode::Relative),
        entry(Mnemonic::Adc, AddressingMode::IndirectIndexed),
        entry(Mnemonic::Stp, AddressingMode::Implied),
        entry(Mnemonic::Rra, AddressingMode::IndirectIndexed),
        entry(Mnemonic::Nop, AddressingMode::ZeroPageX),
        entry(Mnemonic::Adc, AddressingMode::ZeroPageX),
        entry(Mnemonic::Ror, AddressingMode::ZeroPageX),
        entry(Mnemonic::Rra, AddressingMode::ZeroPageX),
        entry(Mnemonic::Sei, AddressingMode::Implied),
        entry(Mnemonic::Adc, AddressingMode::AbsoluteY),
        entry(Mnemonic::Nop, AddressingMode::Implied),
        entry(Mnemonic::Rra, AddressingMode::AbsoluteY),
        entry(Mnemonic::Nop, AddressingMode::AbsoluteX),
        entry(Mnemonic::Adc, AddressingMode::AbsoluteX),
        entry(Mnemonic::Ror, AddressingMode::AbsoluteX),
        entry(Mnemonic::Rra, AddressingMode::AbsoluteX),
        // 0x80
        entry(Mnemonic::Nop, AddressingMode::Immediate),
        entry(Mnemonic::Sta, AddressingMode::IndexedIndirect),
        entry(Mnemonic::Nop, AddressingMode::Immediate),
        entry(Mnemonic::Sax, AddressingMode::IndexedIndirect),
        entry(Mnemonic::Sty, AddressingMode::ZeroPage),
        entry(Mnemonic::Sta, AddressingMode::ZeroPage),
        entry(Mnemonic::Stx, AddressingMode::ZeroPage),
        entry(Mnemonic::Sax, AddressingMode::ZeroPage),
        entry(Mnemonic::Dey, AddressingMode::Implied),
        entry(Mnemonic::Nop, AddressingMode::Immediate),
        entry(Mnemonic::Txa, AddressingMode::Implied),
        entry(Mnemonic::Xaa, AddressingMode::Immediate),
        entry(Mnemonic::Sty, AddressingMode::Absolute),
        entry(Mnemonic::Sta, AddressingMode::Absolute),
        entry(Mnemonic::Stx, AddressingMode::Absolute),
        entry(Mnemonic::Sax, AddressingMode::Absolute),
        // 0x90
        entry(Mnemonic::Bcc, AddressingMode::Relative),
        entry(Mnemonic::Sta, AddressingMode::IndirectIndexed),
        entry(Mnemonic::Stp, AddressingMode::Implied),
        entry(Mnemonic::Ahx, AddressingMode::IndirectIndexed),
        entry(Mnemonic::Sty, AddressingMode::ZeroPageX),
        entry(Mnemonic::Sta, AddressingMode::ZeroPageX),
        entry(Mnemonic::Stx, AddressingMode::ZeroPageY),
        entry(Mnemonic::Sax, AddressingMode::ZeroPageY),
        entry(Mnemonic::Tya, AddressingMode::Implied),
        entry(Mnemonic::Sta, AddressingMode::AbsoluteY),
        entry(Mnemonic::Txs, AddressingMode::Implied),
        entry(Mnemonic::Tas, AddressingMode::AbsoluteY),
        entry(Mnemonic::Shy, AddressingMode::AbsoluteX),
        entry(Mnemonic::Sta, AddressingMode::AbsoluteX),
        entry(Mnemonic::Shx, AddressingMode::AbsoluteY),
        entry(Mnemonic::Ahx, AddressingMode::AbsoluteY),
        // 0xA0
        entry(Mnemonic::Ldy, AddressingMode::Immediate),
        entry(Mnemonic::Lda, AddressingMode::IndexedIndirect),
        entry(Mnemonic::Ldx, AddressingMode::Immediate),
        entry(Mnemonic::Lax, AddressingMode::IndexedIndirect),
        entry(Mnemonic::Ldy, AddressingMode::ZeroPage),
        entry(Mnemonic::Lda, AddressingMode::ZeroPage),
        entry(Mnemonic::Ldx, AddressingMode::ZeroPage),
        entry(Mnemonic::Lax, AddressingMode::ZeroPage),
        entry(Mnemonic::Tay, AddressingMode::Implied),
        entry(Mnemonic::Lda, AddressingMode::Immediate),
        entry(Mnemonic::Tax, AddressingMode::Implied),
        entry(Mnemonic::Lxa, AddressingMode::Immediate),
        entry(Mnemonic::Ldy, AddressingMode::Absolute),
        entry(Mnemonic::Lda, AddressingMode::Absolute),
        entry(Mnemonic::Ldx, AddressingMode::Absolute),
        entry(Mnemonic::Lax, AddressingMode::Absolute),
        // 0xB0
        entry(Mnemonic::Bcs, AddressingMode::Relative),
        entry(Mnemonic::Lda, AddressingMode::IndirectIndexed),
        entry(Mnemonic::Stp, AddressingMode::Implied),
        entry(Mnemonic::Lax, AddressingMode::IndirectIndexed),
        entry(Mnemonic::Ldy, AddressingMode::ZeroPageX),
        entry(Mnemonic::Lda, AddressingMode::ZeroPageX),
        entry(Mnemonic::Ldx, AddressingMode::ZeroPageY),
        entry(Mnemonic::Lax, AddressingMode::ZeroPageY),
        entry(Mnemonic::Clv, AddressingMode::Implied),
        entry(Mnemonic::Lda, AddressingMode::AbsoluteY),
        entry(Mnemonic::Tsx, AddressingMode::Implied),
        entry(Mnemonic::Las, AddressingMode::AbsoluteY),
        entry(Mnemonic::Ldy, AddressingMode::AbsoluteX),
        entry(Mnemonic::Lda, AddressingMode::AbsoluteX),
        entry(Mnemonic::Ldx, AddressingMode::AbsoluteY),
        entry(Mnemonic::Lax, AddressingMode::AbsoluteY),
        // 0xC0
        entry(Mnemonic::Cpy, AddressingMode::Immediate),
        entry(Mnemonic::Cmp, AddressingMode::IndexedIndirect),
        entry(Mnemonic::Nop, AddressingMode::Immediate),
        entry(Mnemonic::Dcp, AddressingMode::IndexedIndirect),
        entry(Mnemonic::Cpy, AddressingMode::ZeroPage),
        entry(Mnemonic::Cmp, AddressingMode::ZeroPage),
        entry(Mnemonic::Dec, AddressingMode::ZeroPage),
        entry(Mnemonic::Dcp, AddressingMode::ZeroPage),
        entry(Mnemonic::Iny, AddressingMode::Implied),
        entry(Mnemonic::Cmp, AddressingMode::Immediate),
        entry(Mnemonic::Dex, AddressingMode::Implied),
        entry(Mnemonic::Axs, AddressingMode::Immediate),
        entry(Mnemonic::Cpy, AddressingMode::Absolute),
        entry(Mnemonic::Cmp, AddressingMode::Absolute),
        entry(Mnemonic::Dec, AddressingMode::Absolute),
        entry(Mnemonic::Dcp, AddressingMode::Absolute),
        // 0xD0
        entry(Mnemonic::Bne, AddressingMode::Relative),
        entry(Mnemonic::Cmp, AddressingMode::IndirectIndexed),
        entry(Mnemonic::Stp, AddressingMode::Implied),
        entry(Mnemonic::Dcp, AddressingMode::IndirectIndexed),
        entry(Mnemonic::Nop, AddressingMode::ZeroPageX),
        entry(Mnemonic::Cmp, AddressingMode::ZeroPageX),
        entry(Mnemonic::Dec, AddressingMode::ZeroPageX),
        entry(Mnemonic::Dcp, AddressingMode::ZeroPageX),
        entry(Mnemonic::Cld, AddressingMode::Implied),
        entry(Mnemonic::Cmp, AddressingMode::AbsoluteY),
        entry(Mnemonic::Nop, AddressingMode::Implied),
        entry(Mnemonic::Dcp, AddressingMode::AbsoluteY),
        entry(Mnemonic::Nop, AddressingMode::AbsoluteX),
        entry(Mnemonic::Cmp, AddressingMode::AbsoluteX),
        entry(Mnemonic::Dec, AddressingMode::AbsoluteX),
        entry(Mnemonic::Dcp, AddressingMode::AbsoluteX),
        // 0xE0
        entry(Mnemonic::Cpx, AddressingMode::Immediate),
        entry(Mnemonic::Sbc, AddressingMode::IndexedIndirect),
        entry(Mnemonic::Nop, AddressingMode::Immediate),
        entry(Mnemonic::Isc, AddressingMode::IndexedIndirect),
        entry(Mnemonic::Cpx, AddressingMode::ZeroPage),
        entry(Mnemonic::Sbc, AddressingMode::ZeroPage),
        entry(Mnemonic::Inc, AddressingMode::ZeroPage),
        entry(Mnemonic::Isc, AddressingMode::ZeroPage),
        entry(Mnemonic::Inx, AddressingMode::Implied),
        entry(Mnemonic::Sbc, AddressingMode::Immediate),
        entry(Mnemonic::Nop, AddressingMode::Implied),
        entry(Mnemonic::Sbc, AddressingMode::Immediate),
        entry(Mnemonic::Cpx, AddressingMode::Absolute),
        entry(Mnemonic::Sbc, AddressingMode::Absolute),
        entry(Mnemonic::Inc, AddressingMode::Absolute),
        entry(Mnemonic::Isc, AddressingMode::Absolute),
        // 0xF0
        entry(Mnemonic::Beq, AddressingMode::Relative),
        entry(Mnemonic::Sbc, AddressingMode::IndirectIndexed),
        entry(Mnemonic::Stp, AddressingMode::Implied),
        entry(Mnemonic::Isc, AddressingMode::IndirectIndexed),
        entry(Mnemonic::Nop, AddressingMode::ZeroPageX),
        entry(Mnemonic::Sbc, AddressingMode::ZeroPageX),
        entry(Mnemonic::Inc, AddressingMode::ZeroPageX),
        entry(Mnemonic::Isc, AddressingMode::ZeroPageX),
        entry(Mnemonic::Sed, AddressingMode::Implied),
        entry(Mnemonic::Sbc, AddressingMode::AbsoluteY),
        entry(Mnemonic::Nop, AddressingMode::Implied),
        entry(Mnemonic::Isc, AddressingMode::AbsoluteY),
        entry(Mnemonic::Nop, AddressingMode::AbsoluteX),
        entry(Mnemonic::Sbc, AddressingMode::AbsoluteX),
        entry(Mnemonic::Inc, AddressingMode::AbsoluteX),
        entry(Mnemonic::Isc, AddressingMode::AbsoluteX),
    ];
    proof {
        reveal(spec_opcode_mnemonic);
        reveal(spec_opcode_mode);
    }
    assert forall|opcode: u8| #[trigger] table@[opcode as int] == spec_opcode_entry(opcode) by {
    }
    table
}

} // verus!

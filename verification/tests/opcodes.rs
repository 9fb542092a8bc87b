use nes_rom::instructions::{AddressingMode, Mnemonic};
use nes_rom::opcodes::{opcode_table, OpcodeEntry};

/// The operations of the 256 opcode bytes, sixteen to a row.
const OPERATIONS: [&str; 16] = [
    "BRK ORA STP SLO NOP ORA ASL SLO PHP ORA ASL ANC NOP ORA ASL SLO",
    "BPL ORA STP SLO NOP ORA ASL SLO CLC ORA NOP SLO NOP ORA ASL SLO",
    "JSR AND STP RLA BIT AND ROL RLA PLP AND ROL ANC BIT AND ROL RLA",
    "BMI AND STP RLA NOP AND ROL RLA SEC AND NOP RLA NOP AND ROL RLA",
    "RTI EOR STP SRE NOP EOR LSR SRE PHA EOR LSR ALR JMP EOR LSR SRE",
    "BVC EOR STP SRE NOP EOR LSR SRE CLI EOR NOP SRE NOP EOR LSR SRE",
    "RTS ADC STP RRA NOP ADC ROR RRA PLA ADC ROR ARR JMP ADC ROR RRA",
    "BVS ADC STP RRA NOP ADC ROR RRA SEI ADC NOP RRA NOP ADC ROR RRA",
    "NOP STA NOP SAX STY STA STX SAX DEY NOP TXA XAA STY STA STX SAX",
    "BCC STA STP AHX STY STA STX SAX TYA STA TXS TAS SHY STA SHX AHX",
    "LDY LDA LDX LAX LDY LDA LDX LAX TAY LDA TAX LXA LDY LDA LDX LAX",
    "BCS LDA STP LAX LDY LDA LDX LAX CLV LDA TSX LAS LDY LDA LDX LAX",
    "CPY CMP NOP DCP CPY CMP DEC DCP INY CMP DEX AXS CPY CMP DEC DCP",
    "BNE CMP STP DCP NOP CMP DEC DCP CLD CMP NOP DCP NOP CMP DEC DCP",
    "CPX SBC NOP ISC CPX SBC INC ISC INX SBC NOP SBC CPX SBC INC ISC",
    "BEQ SBC STP ISC NOP SBC INC ISC SED SBC NOP ISC NOP SBC INC ISC",
];

/// The addressing modes of the 256 opcode bytes, sixteen to a row.
const MODES: [&str; 16] = [
    "imp izx imp izx zp zp zp zp imp imm acc imm abs abs abs abs",
    "rel izy imp izy zpx zpx zpx zpx imp aby imp aby abx abx abx abx",
    "abs izx imp izx zp zp zp zp imp imm acc imm abs abs abs abs",
    "rel izy imp izy zpx zpx zpx zpx imp aby imp aby abx abx abx abx",
    "imp izx imp izx zp zp zp zp imp imm acc imm abs abs abs abs",
    "rel izy imp izy zpx zpx zpx zpx imp aby imp aby abx abx abx abx",
    "imp izx imp izx zp zp zp zp imp imm acc imm ind abs abs abs",
    "rel izy imp izy zpx zpx zpx zpx imp aby imp aby abx abx abx abx",
    "imm izx imm izx zp zp zp zp imp imm imp imm abs abs abs abs",
    "rel izy imp izy zpx zpx zpy zpy imp aby imp aby abx abx aby aby",
    "imm izx imm izx zp zp zp zp imp imm imp imm abs abs abs abs",
    "rel izy imp izy zpx zpx zpy zpy imp aby imp aby abx abx aby aby",
    "imm izx imm izx zp zp zp zp imp imm imp imm abs abs abs abs",
    "rel izy imp izy zpx zpx zpx zpx imp aby imp aby abx abx abx abx",
    "imm izx imm izx zp zp zp zp imp imm imp imm abs abs abs abs",
    "rel izy imp izy zpx zpx zpx zpx imp aby imp aby abx abx abx abx",
];

fn mode_of(name: &str) -> AddressingMode {
    match name {
        "imp" => AddressingMode::Implied,
        "acc" => AddressingMode::Accumulator,
        "imm" => AddressingMode::Immediate,
        "zp" => AddressingMode::ZeroPage,
        "zpx" => AddressingMode::ZeroPageX,
        "zpy" => AddressingMode::ZeroPageY,
        "abs" => AddressingMode::Absolute,
        "abx" => AddressingMode::AbsoluteX,
        "aby" => AddressingMode::AbsoluteY,
        "ind" => AddressingMode::Indirect,
        "izx" => AddressingMode::IndexedIndirect,
        "izy" => AddressingMode::IndirectIndexed,
        "rel" => AddressingMode::Relative,
        other => panic!("unknown mode {}", other),
    }
}

#[test]
fn the_table_has_an_entry_for_every_opcode() {
    let table = opcode_table();
    assert_eq!(table.len(), 256);
    for (row, (operations, modes)) in OPERATIONS.iter().zip(MODES.iter()).enumerate() {
        let operations: Vec<&str> = operations.split(' ').collect();
        let modes: Vec<&str> = modes.split(' ').collect();
        assert_eq!(operations.len(), 16);
        assert_eq!(modes.len(), 16);
        for column in 0..16 {
            let entry = table[row * 16 + column];
            assert_eq!(entry.mnemonic.name(), operations[column], "opcode {:02X}", row * 16 + column);
            assert_eq!(entry.mode, mode_of(modes[column]), "opcode {:02X}", row * 16 + column);
        }
    }
}

#[test]
fn the_length_is_one_more_than_the_operand_is_wide() {
    for entry in opcode_table() {
        assert_eq!(entry.length, 1 + entry.mode.operand_width());
        assert!(1 <= entry.length && entry.length <= 3);
    }
}

#[test]
fn operand_widths() {
    assert_eq!(AddressingMode::Implied.operand_width(), 0);
    assert_eq!(AddressingMode::Accumulator.operand_width(), 0);
    assert_eq!(AddressingMode::Immediate.operand_width(), 1);
    assert_eq!(AddressingMode::ZeroPage.operand_width(), 1);
    assert_eq!(AddressingMode::ZeroPageX.operand_width(), 1);
    assert_eq!(AddressingMode::ZeroPageY.operand_width(), 1);
    assert_eq!(AddressingMode::IndexedIndirect.operand_width(), 1);
    assert_eq!(AddressingMode::IndirectIndexed.operand_width(), 1);
    assert_eq!(AddressingMode::Relative.operand_width(), 1);
    assert_eq!(AddressingMode::Absolute.operand_width(), 2);
    assert_eq!(AddressingMode::AbsoluteX.operand_width(), 2);
    assert_eq!(AddressingMode::AbsoluteY.operand_width(), 2);
    assert_eq!(AddressingMode::Indirect.operand_width(), 2);
}

#[test]
fn well_known_opcodes() {
    let table = opcode_table();
    assert_eq!(
        table[0x40],
        OpcodeEntry { mnemonic: Mnemonic::Rti, mode: AddressingMode::Implied, length: 1 }
    );
    assert_eq!(
        table[0xA9],
        OpcodeEntry { mnemonic: Mnemonic::Lda, mode: AddressingMode::Immediate, length: 2 }
    );
    assert_eq!(
        table[0x6C],
        OpcodeEntry { mnemonic: Mnemonic::Jmp, mode: AddressingMode::Indirect, length: 3 }
    );
    assert_eq!(
        table[0x0A],
        OpcodeEntry { mnemonic: Mnemonic::Asl, mode: AddressingMode::Accumulator, length: 1 }
    );
    assert_eq!(
        table[0xD0],
        OpcodeEntry { mnemonic: Mnemonic::Bne, mode: AddressingMode::Relative, length: 2 }
    );
    assert_eq!(
        table[0xB6],
        OpcodeEntry { mnemonic: Mnemonic::Ldx, mode: AddressingMode::ZeroPageY, length: 2 }
    );
    assert_eq!(
        table[0xBE],
        OpcodeEntry { mnemonic: Mnemonic::Ldx, mode: AddressingMode::AbsoluteY, length: 3 }
    );
    assert_eq!(
        table[0x9E],
        OpcodeEntry { mnemonic: Mnemonic::Shx, mode: AddressingMode::AbsoluteY, length: 3 }
    );
}

#[test]
fn only_one_opcode_returns_from_an_interrupt() {
    let found: Vec<usize> = opcode_table()
        .iter()
        .enumerate()
        .filter(|(_, entry)| entry.mnemonic == Mnemonic::Rti)
        .map(|(opcode, _)| opcode)
        .collect();
    assert_eq!(found, vec![0x40]);
}

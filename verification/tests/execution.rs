use nes_rom::execution::{operand_of, ExecutionContext};
use nes_rom::instructions::{AddressingMode, Index, Instruction, Mnemonic, Operand};

fn program(bytes: &[u8]) -> Vec<u8> {
    let mut prg = vec![0u8; 0x4000];
    prg[..bytes.len()].copy_from_slice(bytes);
    prg
}

fn decode(bytes: &[u8]) -> (Instruction, u16) {
    let prg = program(bytes);
    let mut context = ExecutionContext::new(0x8000, &prg);
    let instruction = context.execute_instruction();
    (instruction, context.get_current_pc())
}

#[test]
fn a_new_context_starts_at_its_address() {
    let prg = program(&[]);
    let context = ExecutionContext::new(0xC123, &prg);
    assert_eq!(context.get_current_pc(), 0xC123);
}

#[test]
fn ram_is_cleared_and_mirrored() {
    let prg = program(&[]);
    let mut context = ExecutionContext::new(0x8000, &prg);
    for addr in [0x0000u16, 0x07FF, 0x0800, 0x1FFF] {
        assert_eq!(context.read8(addr), 0);
    }
    context.write8(0x0001, 0xAB);
    assert_eq!(context.read8(0x0001), 0xAB);
    assert_eq!(context.read8(0x0801), 0xAB);
    assert_eq!(context.read8(0x1001), 0xAB);
    assert_eq!(context.read8(0x1801), 0xAB);
    assert_eq!(context.read8(0x0002), 0);
    context.write8(0x1FFF, 0xCD);
    assert_eq!(context.read8(0x07FF), 0xCD);
}

#[test]
fn registers_read_zero_and_ignore_writes() {
    let prg = program(&[0x11]);
    let mut context = ExecutionContext::new(0x8000, &prg);
    for addr in [0x2000u16, 0x3FFF, 0x4000, 0x4017, 0x4018, 0x5FFF, 0x6000, 0x7FFF] {
        context.write8(addr, 0xEE);
        assert_eq!(context.read8(addr), 0);
    }
    for addr in 0x0000u16..0x2000 {
        assert_eq!(context.read8(addr), 0);
    }
}

#[test]
fn program_rom_is_mirrored_and_read_only() {
    let mut prg = program(&[0x11, 0x22]);
    prg[0x3FFF] = 0x99;
    let mut context = ExecutionContext::new(0x8000, &prg);
    assert_eq!(context.read8(0x8000), 0x11);
    assert_eq!(context.read8(0x8001), 0x22);
    assert_eq!(context.read8(0xC000), 0x11);
    assert_eq!(context.read8(0xBFFF), 0x99);
    assert_eq!(context.read8(0xFFFF), 0x99);
    context.write8(0x8000, 0x77);
    assert_eq!(context.read8(0x8000), 0x11);
}

#[test]
fn words_are_little_endian() {
    let prg = program(&[0x34, 0x12]);
    let mut context = ExecutionContext::new(0x8000, &prg);
    assert_eq!(context.read16(0x8000), 0x1234);
    context.write16(0x0010, 0xBEEF);
    assert_eq!(context.read8(0x0010), 0xEF);
    assert_eq!(context.read8(0x0011), 0xBE);
    assert_eq!(context.read16(0x0010), 0xBEEF);
}

#[test]
fn words_wrap_around_the_address_space() {
    let mut prg = program(&[]);
    prg[0x3FFF] = 0x5A;
    let mut context = ExecutionContext::new(0x8000, &prg);
    context.write8(0x0000, 0xA5);
    assert_eq!(context.read16(0xFFFF), 0xA55A);
    context.write16(0xFFFF, 0x1234);
    assert_eq!(context.read8(0x0000), 0x12);
    assert_eq!(context.read8(0xFFFF), 0x5A);
}

#[test]
fn fetching_moves_the_program_counter() {
    let prg = program(&[0x01, 0x02, 0x03]);
    let mut context = ExecutionContext::new(0x8000, &prg);
    assert_eq!(context.fetch_immediate8(), 0x01);
    assert_eq!(context.get_current_pc(), 0x8001);
    assert_eq!(context.fetch_immediate16(), 0x0302);
    assert_eq!(context.get_current_pc(), 0x8003);
}

#[test]
fn the_program_counter_wraps_around() {
    let mut prg = program(&[]);
    prg[0x3FFF] = 0x7E;
    let mut context = ExecutionContext::new(0xFFFF, &prg);
    assert_eq!(context.fetch_immediate8(), 0x7E);
    assert_eq!(context.get_current_pc(), 0x0000);

    let mut context = ExecutionContext::new(0xFFFF, &prg);
    assert_eq!(context.fetch_immediate16(), 0x007E);
    assert_eq!(context.get_current_pc(), 0x0001);
}

#[test]
fn every_addressing_mode_decodes() {
    let cases: Vec<(&[u8], Mnemonic, Option<Operand>, &str)> = vec![
        (&[0xEA], Mnemonic::Nop, None, ""),
        (&[0x0A], Mnemonic::Asl, None, ""),
        (&[0xA2, 0xFF], Mnemonic::Ldx, Some(Operand::Immediate { value: 0xFF }), "#$FF"),
        (&[0x05, 0x0B], Mnemonic::Ora, Some(Operand::ZeroPage { address: 0x0B }), "$0B"),
        (
            &[0xB5, 0x10],
            Mnemonic::Lda,
            Some(Operand::ZeroPageIndexed { address: 0x10, index: Index::X }),
            "$10, X",
        ),
        (
            &[0xB6, 0x7F],
            Mnemonic::Ldx,
            Some(Operand::ZeroPageIndexed { address: 0x7F, index: Index::Y }),
            "$7F, Y",
        ),
        (
            &[0x20, 0x02, 0xFD],
            Mnemonic::Jsr,
            Some(Operand::Absolute { address: 0xFD02 }),
            "$FD02",
        ),
        (
            &[0xBD, 0x00, 0x03],
            Mnemonic::Lda,
            Some(Operand::AbsoluteIndexed { address: 0x0300, index: Index::X }),
            "$0300, X",
        ),
        (
            &[0xB9, 0xCD, 0xAB],
            Mnemonic::Lda,
            Some(Operand::AbsoluteIndexed { address: 0xABCD, index: Index::Y }),
            "$ABCD, Y",
        ),
        (
            &[0x6C, 0x01, 0x02],
            Mnemonic::Jmp,
            Some(Operand::Indirect { address: 0x0201 }),
            "($0201)",
        ),
        (
            &[0xA1, 0x3C],
            Mnemonic::Lda,
            Some(Operand::PreIndexedIndirect { address: 0x3C }),
            "($3C, X)",
        ),
        (
            &[0x91, 0xFB],
            Mnemonic::Sta,
            Some(Operand::PostIndexedIndirect { address: 0xFB }),
            "($FB), Y",
        ),
        (&[0xD0, 0x05], Mnemonic::Bne, Some(Operand::Absolute { address: 0x8007 }), "$8007"),
        (&[0xD0, 0xFC], Mnemonic::Bne, Some(Operand::Absolute { address: 0x7FFE }), "$7FFE"),
    ];
    for (bytes, mnemonic, operand, text) in cases {
        let (instruction, next) = decode(bytes);
        assert_eq!(
            instruction,
            Instruction { mnemonic, operand, bytes: bytes.to_vec() },
            "bytes {:02X?}",
            bytes
        );
        assert_eq!(next, 0x8000 + bytes.len() as u16);
        let shown = instruction.operand.map(|operand| operand.to_string()).unwrap_or_default();
        assert_eq!(shown, text);
    }
}

#[test]
fn decoding_leaves_ram_alone() {
    let prg = program(&[0x8D, 0x00, 0x00, 0x85, 0x01]);
    let mut context = ExecutionContext::new(0x8000, &prg);
    context.write8(0x0000, 0x42);
    assert_eq!(context.execute_instruction().mnemonic, Mnemonic::Sta);
    assert_eq!(context.execute_instruction().mnemonic, Mnemonic::Sta);
    assert_eq!(context.read8(0x0000), 0x42);
    assert_eq!(context.read8(0x0001), 0x00);
    assert_eq!(context.get_current_pc(), 0x8005);
}

#[test]
fn an_instruction_may_straddle_the_end_of_the_address_space() {
    let mut prg = program(&[]);
    prg[0x3FFF] = 0x4C;
    let mut context = ExecutionContext::new(0xFFFF, &prg);
    context.write8(0x0000, 0x34);
    context.write8(0x0001, 0x12);
    let instruction = context.execute_instruction();
    assert_eq!(
        instruction,
        Instruction {
            mnemonic: Mnemonic::Jmp,
            operand: Some(Operand::Absolute { address: 0x1234 }),
            bytes: vec![0x4C, 0x34, 0x12],
        }
    );
    assert_eq!(context.get_current_pc(), 0x0002);
}

#[test]
fn branch_targets_wrap_around() {
    assert_eq!(
        operand_of(AddressingMode::Relative, 0x7F, 0, 0xFFF0),
        Some(Operand::Absolute { address: 0x006F })
    );
    assert_eq!(
        operand_of(AddressingMode::Relative, 0x80, 0, 0x0010),
        Some(Operand::Absolute { address: 0xFF90 })
    );
    assert_eq!(
        operand_of(AddressingMode::Relative, 0xFF, 0, 0x8000),
        Some(Operand::Absolute { address: 0x7FFF })
    );
    assert_eq!(
        operand_of(AddressingMode::Relative, 0x00, 0xEE, 0x8000),
        Some(Operand::Absolute { address: 0x8000 })
    );
}

#[test]
fn operands_take_their_bytes_in_little_endian_order() {
    assert_eq!(operand_of(AddressingMode::Implied, 1, 2, 3), None);
    assert_eq!(operand_of(AddressingMode::Accumulator, 1, 2, 3), None);
    assert_eq!(
        operand_of(AddressingMode::Absolute, 0x34, 0x12, 0),
        Some(Operand::Absolute { address: 0x1234 })
    );
    assert_eq!(
        operand_of(AddressingMode::Immediate, 0x34, 0x12, 0),
        Some(Operand::Immediate { value: 0x34 })
    );
}

#[test]
fn names_of_operations_and_registers() {
    assert_eq!(Mnemonic::Lda.to_string(), "LDA");
    assert_eq!(Mnemonic::Rti.to_string(), "RTI");
    assert_eq!(Mnemonic::Stp.to_string(), "STP");
    assert_eq!(Mnemonic::Cmp.name(), "CMP");
    assert_eq!(Index::X.to_string(), "X");
    assert_eq!(Index::Y.name(), "Y");
}

#[test]
fn hexadecimal_digits_are_upper_case_and_padded() {
    assert_eq!(Operand::Immediate { value: 0x00 }.to_string(), "#$00");
    assert_eq!(Operand::Immediate { value: 0x0A }.to_string(), "#$0A");
    assert_eq!(Operand::Immediate { value: 0xF9 }.to_string(), "#$F9");
    assert_eq!(Operand::Absolute { address: 0x000F }.to_string(), "$000F");
    assert_eq!(Operand::Absolute { address: 0xBEEF }.to_string(), "$BEEF");
    for value in 0u16..=255 {
        let text = Operand::ZeroPage { address: value as u8 }.to_string();
        assert_eq!(text, format!("${:02X}", value));
    }
    for address in [0u16, 1, 0x00FF, 0x0100, 0x1234, 0x9ABC, 0xFFFF] {
        let text = Operand::Indirect { address }.to_string();
        assert_eq!(text, format!("(${:04X})", address));
    }
}
